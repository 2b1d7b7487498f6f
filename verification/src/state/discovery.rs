//! State of the discovery sub-pane: the agent search bar, the discovered
//! items with their dedup indices, and the two list cursors.

use vstd::prelude::*;

use crate::collections::StrMap;
use crate::item_store::{arxiv_index_spec, url_index_spec};
use crate::models::{arxiv_id_from_url, FeedItem};
use crate::primitives::ListState;
use crate::text::{str_lowercase, lowercase, pop_char, push_char};

verus! {

/// See module docs.
pub struct DiscoveryModel {
    pub items: Vec<FeedItem>,
    pub url_index: StrMap<usize>,
    pub arxiv_id_index: StrMap<usize>,
    /// Cursor + offset of the discovered-items list.
    pub list: ListState,
    /// Last status line from the agent.
    pub status: String,
    pub query: String,
    /// Lowercased mirror of `query`.
    pub query_lower: String,
    /// Whether the search bar has focus.
    pub search_focused: bool,
    pub loading: bool,
    /// Forces a fresh session even when history exists.
    pub force_new: bool,
    /// Slash-command palette selection + scroll.
    pub palette: ListState,
}

impl Default for DiscoveryModel {
    fn default() -> (m: Self)
        ensures
            m.items@.len() == 0,
            m.url_index.wf() && m.url_index@ == Map::<Seq<char>, usize>::empty(),
            m.arxiv_id_index.wf() && m.arxiv_id_index@ == Map::<Seq<char>, usize>::empty(),
            m.list@.selected == 0 && m.list@.offset == 0 && m.list@.count == 0
                && m.list@.viewport == 0,
            m.palette@.selected == 0 && m.palette@.offset == 0 && m.palette@.count == 0
                && m.palette@.viewport == 0,
            m.status@.len() == 0 && m.query@.len() == 0 && m.query_lower@.len() == 0,
            !m.search_focused && !m.loading && !m.force_new,
    {
        DiscoveryModel {
            items: Vec::new(),
            url_index: StrMap::new(),
            arxiv_id_index: StrMap::new(),
            list: ListState::new(),
            status: String::new(),
            query: String::new(),
            query_lower: String::new(),
            search_focused: false,
            loading: false,
            force_new: false,
            palette: ListState::new(),
        }
    }
}

impl DiscoveryModel {
    /// Rebuild both dedup indices from the discovered items: each URL (and
    /// each arXiv id) maps to the position of the last item carrying it.
    pub fn rebuild_discovery_indices(&mut self)
        ensures
            final(self).url_index.wf(),
            final(self).arxiv_id_index.wf(),
            final(self).url_index@ == url_index_spec(final(self).items@),
            final(self).arxiv_id_index@ == arxiv_index_spec(final(self).items@),
            *final(self) == (DiscoveryModel {
                url_index: final(self).url_index,
                arxiv_id_index: final(self).arxiv_id_index,
                ..*old(self)
            }),
    {
        self.url_index.clear();
        self.arxiv_id_index.clear();
        let n = self.items.len();
        let mut i: usize = 0;
        while i < n
            invariant
                n == self.items@.len(),
                i <= n,
                *self == (DiscoveryModel {
                    url_index: self.url_index,
                    arxiv_id_index: self.arxiv_id_index,
                    ..*old(self)
                }),
                self.url_index.wf(),
                self.arxiv_id_index.wf(),
                self.url_index@ == url_index_spec(self.items@.take(i as int)),
                self.arxiv_id_index@ == arxiv_index_spec(self.items@.take(i as int)),
            decreases n - i,
        {
            let ghost pre = self.items@.take(i as int);
            let ghost next = self.items@.take(i + 1);
            assert(next.drop_last() == pre);
            assert(next.last() == self.items@[i as int]);
            self.url_index.insert(self.items[i].url.clone(), i);
            match arxiv_id_from_url(self.items[i].url.as_str()) {
                Some(a) => {
                    self.arxiv_id_index.insert(a, i);
                },
                None => {},
            }
            i += 1;
        }
        assert(self.items@.take(n as int) == self.items@);
    }

    /// Drop every discovered item together with both dedup indices.
    pub fn reset_discovery_items(&mut self)
        ensures
            final(self).items@.len() == 0,
            final(self).url_index.wf() && final(self).url_index@ == Map::<Seq<char>, usize>::empty(),
            final(self).arxiv_id_index.wf() && final(self).arxiv_id_index@ == Map::<
                Seq<char>,
                usize,
            >::empty(),
            *final(self) == (DiscoveryModel {
                items: final(self).items,
                url_index: final(self).url_index,
                arxiv_id_index: final(self).arxiv_id_index,
                ..*old(self)
            }),
    {
        self.items.clear();
        self.url_index.clear();
        self.arxiv_id_index.clear();
    }
}

impl DiscoveryModel {
    /// Append `c` to the agent query and refresh its lowercase mirror.
    pub fn push_discovery_char(&mut self, c: char)
        ensures
            final(self).query@ == old(self).query@.push(c),
            final(self).query_lower@ == str_lowercase(final(self).query@),
            *final(self) == (DiscoveryModel {
                query: final(self).query,
                query_lower: final(self).query_lower,
                ..*old(self)
            }),
    {
        push_char(&mut self.query, c);
        self.query_lower = lowercase(self.query.as_str());
    }

    /// Drop the last character of the agent query (if any) and refresh its
    /// lowercase mirror.
    pub fn pop_discovery_char(&mut self)
        ensures
            final(self).query@ == if old(self).query@.len() > 0 {
                old(self).query@.drop_last()
            } else {
                old(self).query@
            },
            final(self).query_lower@ == str_lowercase(final(self).query@),
            *final(self) == (DiscoveryModel {
                query: final(self).query,
                query_lower: final(self).query_lower,
                ..*old(self)
            }),
    {
        let _ = pop_char(&mut self.query);
        self.query_lower = lowercase(self.query.as_str());
    }

    /// Empty the agent query and its mirror.
    pub fn clear_discovery_query(&mut self)
        ensures
            final(self).query@.len() == 0,
            final(self).query_lower@.len() == 0,
            *final(self) == (DiscoveryModel {
                query: final(self).query,
                query_lower: final(self).query_lower,
                ..*old(self)
            }),
    {
        self.query = String::new();
        self.query_lower = String::new();
    }

    /// Replace the agent query (palette completion) and refresh its mirror.
    pub fn set_discovery_query(&mut self, s: String)
        ensures
            final(self).query@ == s@,
            final(self).query_lower@ == str_lowercase(s@),
            *final(self) == (DiscoveryModel {
                query: final(self).query,
                query_lower: final(self).query_lower,
                ..*old(self)
            }),
    {
        self.query = s;
        self.query_lower = lowercase(self.query.as_str());
    }
}

} // verus!
