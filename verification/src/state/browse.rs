//! Subject Browser model: a drill-down rail over the arXiv taxonomy.
//!
//! The rail shows one taxonomy level at a time (Groups by default). Drilling
//! into a Group pushes it onto `rail_path` and the rail shows that Group's
//! Archives; drilling into an Archive shows its Categories. Leaf selection
//! (a Category) is a fetch, not a drill, so the path never exceeds depth 2.

use std::sync::mpsc::{Receiver, Sender};
use std::time::Instant;
use vstd::prelude::*;

use crate::collections::{StrMap, StrSet};
use crate::messages::BrowseMessage;
use crate::primitives::list_state::{clamp_selection, visible_offset};
use crate::primitives::ListState;
use crate::sys::channel;
use crate::taxonomy::{
    taxonomy, taxonomy_spec, Archive, ArchiveSpec, Category, Group, GroupSpec,
};
use crate::text::str_eq;

verus! {

/// Papers fetched per Browse page. A page shorter than this means the
/// archive is exhausted.
pub const BROWSE_PAGE_SIZE: usize = 50;

/// Per-category paging buffer.
#[derive(Debug)]
pub struct CategoryBuffer {
    /// Fetched URLs in arrival order.
    pub urls: Vec<String>,
    /// arXiv `start` offset for the next page.
    pub next_offset: usize,
    /// A short page came back: nothing more to pull.
    pub exhausted: bool,
}

impl CategoryBuffer {
    /// Build the buffer from a category's first page.
    pub fn first_page(urls: Vec<String>) -> (b: Self)
        ensures
            b.urls@ == urls@,
            b.next_offset == urls@.len(),
            b.exhausted == (urls@.len() < BROWSE_PAGE_SIZE),
    {
        let n = urls.len();
        CategoryBuffer { urls, next_offset: n, exhausted: n < BROWSE_PAGE_SIZE }
    }
}

/// One step in the rail's drill stack, naming the selected node by id.
#[derive(Clone, Copy, PartialEq, Eq, Debug)]
pub enum RailNode {
    Group(&'static str),
    Archive(&'static str, &'static str),
}

/// Local focus inside the Browse tab.
#[derive(Clone, Copy, PartialEq, Eq, Debug, Structural)]
pub enum BrowseFocus {
    Rail,
    Feed,
}

/// Composition-root model for the Subject Browser tab.
pub struct BrowseModel {
    /// Drill stack: empty = Groups level, one entry = inside a Group,
    /// two entries = inside an Archive.
    pub rail_path: Vec<RailNode>,
    /// Cursor over the current rail level's rows.
    pub rail_cursor: ListState,
    pub focus: BrowseFocus,
    /// Per-category paging buffer fetched in this session.
    pub loaded_categories: StrMap<CategoryBuffer>,
    /// Category codes with an outstanding fetch.
    pub inflight: StrSet,
    /// The category the rail cursor rests on, and since when.
    pub autofill_anchor: Option<(String, Instant)>,
    /// Categories already auto-filled this session.
    pub autofill_attempted: StrSet,
    /// Sender end of the persistent browse channel.
    pub tx: Sender<BrowseMessage>,
    /// Receiver end, drained per frame.
    pub rx: Option<Receiver<BrowseMessage>>,
}

/// The id of the group a rail node lies in.
pub open spec fn node_group_id(n: RailNode) -> &'static str {
    match n {
        RailNode::Group(id) => id,
        RailNode::Archive(id, _) => id,
    }
}

/// The first group in `gs` with id `id`.
pub open spec fn find_group(gs: Seq<GroupSpec>, id: Seq<char>) -> Option<GroupSpec>
    decreases gs.len(),
{
    if gs.len() == 0 {
        None
    } else if gs[0].id@ == id {
        Some(gs[0])
    } else {
        find_group(gs.drop_first(), id)
    }
}

/// The first archive in `archs` with id `id`.
pub open spec fn find_archive(archs: Seq<ArchiveSpec>, id: Seq<char>) -> Option<ArchiveSpec>
    decreases archs.len(),
{
    if archs.len() == 0 {
        None
    } else if archs[0].id@ == id {
        Some(archs[0])
    } else {
        find_archive(archs.drop_first(), id)
    }
}

/// The group the drill path is inside.
pub open spec fn path_group(path: Seq<RailNode>) -> Option<GroupSpec> {
    if path.len() == 0 {
        None
    } else {
        find_group(taxonomy_spec(), node_group_id(path[0])@)
    }
}

/// The archive the drill path is inside.
pub open spec fn path_archive(path: Seq<RailNode>) -> Option<ArchiveSpec> {
    match path_group(path) {
        Some(g) => if path.len() >= 2 {
            match path[1] {
                RailNode::Archive(_, aid) => find_archive(g.archives, aid@),
                RailNode::Group(_) => None,
            }
        } else {
            None
        },
        None => None,
    }
}

/// Rows at the rail level the drill path shows.
pub open spec fn level_len(path: Seq<RailNode>) -> nat {
    if path.len() == 0 {
        taxonomy_spec().len()
    } else if path.len() == 1 {
        match path_group(path) {
            Some(g) => g.archives.len(),
            None => 0,
        }
    } else {
        match path_archive(path) {
            Some(a) => a.categories.len(),
            None => 0,
        }
    }
}

/// The element at `i`, or the first element when `i` is out of range.
pub open spec fn at_or_first<T>(s: Seq<T>, i: int) -> Option<T> {
    if 0 <= i < s.len() {
        Some(s[i])
    } else if s.len() > 0 {
        Some(s[0])
    } else {
        None
    }
}

fn group_by_id(id: &str) -> (r: Option<Group>)
    ensures
        match r {
            Some(g) => find_group(taxonomy_spec(), id@) == Some(g@),
            None => find_group(taxonomy_spec(), id@).is_none(),
        },
{
    let mut groups = taxonomy();
    let ghost gs = groups@.map_values(|g: Group| g@);
    assert(gs.subrange(0, gs.len() as int) == gs);
    let mut i: usize = 0;
    while i < groups.len()
        invariant
            i <= groups@.len(),
            gs == groups@.map_values(|g: Group| g@),
            gs == taxonomy_spec(),
            find_group(gs, id@) == find_group(gs.subrange(i as int, gs.len() as int), id@),
        decreases groups@.len() - i,
    {
        let ghost rest = gs.subrange(i as int, gs.len() as int);
        assert(rest.drop_first() == gs.subrange(i + 1, gs.len() as int));
        assert(rest[0] == groups@[i as int]@);
        if str_eq(groups[i].id, id) {
            let g = groups.remove(i);
            return Some(g);
        }
        i += 1;
    }
    None
}

fn archive_by_id(archs: Vec<Archive>, id: &str) -> (r: Option<Archive>)
    ensures
        match r {
            Some(a) => find_archive(archs@.map_values(|a: Archive| a@), id@) == Some(a@),
            None => find_archive(archs@.map_values(|a: Archive| a@), id@).is_none(),
        },
{
    let mut archives = archs;
    let ghost avs = archives@.map_values(|a: Archive| a@);
    assert(avs.subrange(0, avs.len() as int) == avs);
    let mut i: usize = 0;
    while i < archives.len()
        invariant
            i <= archives@.len(),
            avs == archives@.map_values(|a: Archive| a@),
            avs == archs@.map_values(|a: Archive| a@),
            find_archive(avs, id@) == find_archive(avs.subrange(i as int, avs.len() as int), id@),
        decreases archives@.len() - i,
    {
        let ghost rest = avs.subrange(i as int, avs.len() as int);
        assert(rest.drop_first() == avs.subrange(i + 1, avs.len() as int));
        assert(rest[0] == archives@[i as int]@);
        if str_eq(archives[i].id, id) {
            let a = archives.remove(i);
            return Some(a);
        }
        i += 1;
    }
    None
}

impl BrowseModel {
    /// Start at the Groups level with the cursor bounded to the group
    /// count, and open the persistent worker channel.
    pub fn new() -> (m: Self)
        ensures
            m.rail_path@.len() == 0,
            m.focus == BrowseFocus::Rail,
            m.rail_cursor@.selected == 0,
            m.rail_cursor@.offset == 0,
            m.rail_cursor@.count == taxonomy_spec().len(),
            m.loaded_categories.wf(),
            m.loaded_categories@ == Map::<Seq<char>, CategoryBuffer>::empty(),
            m.inflight.wf(),
            m.inflight@ == Set::<Seq<char>>::empty(),
            m.autofill_anchor.is_none(),
            m.autofill_attempted.wf(),
            m.autofill_attempted@ == Set::<Seq<char>>::empty(),
            m.rx.is_some(),
    {
        let mut rail_cursor = ListState::new();
        rail_cursor.set_count(crate::taxonomy::group_count());
        let (tx, rx) = channel::<BrowseMessage>();
        BrowseModel {
            rail_path: Vec::new(),
            rail_cursor,
            focus: BrowseFocus::Rail,
            loaded_categories: StrMap::new(),
            inflight: StrSet::new(),
            autofill_anchor: None,
            autofill_attempted: StrSet::new(),
            tx,
            rx: Some(rx),
        }
    }

    /// Loaded paper count for a category code; `None` if never fetched.
    pub fn loaded_count(&self, code: &str) -> (r: Option<usize>)
        requires
            self.loaded_categories.wf(),
        ensures
            r == (if self.loaded_categories@.dom().contains(code@) {
                Some(self.loaded_categories@[code@].urls@.len() as usize)
            } else {
                None
            }),
    {
        match self.loaded_categories.get(code) {
            Some(b) => Some(b.urls.len()),
            None => None,
        }
    }

    /// The Group whose drill the user is inside; `None` at the Groups level.
    pub fn current_group(&self) -> (r: Option<Group>)
        ensures
            match r {
                Some(g) => path_group(self.rail_path@) == Some(g@),
                None => path_group(self.rail_path@).is_none(),
            },
    {
        if self.rail_path.len() == 0 {
            return None;
        }
        let id = match self.rail_path[0] {
            RailNode::Group(id) => id,
            RailNode::Archive(id, _) => id,
        };
        group_by_id(id)
    }

    /// The Archive whose drill the user is inside (depth ≥ 2).
    pub fn current_archive(&self) -> (r: Option<Archive>)
        ensures
            match r {
                Some(a) => path_archive(self.rail_path@) == Some(a@),
                None => path_archive(self.rail_path@).is_none(),
            },
    {
        let group = match self.current_group() {
            Some(g) => g,
            None => return None,
        };
        if self.rail_path.len() < 2 {
            return None;
        }
        match self.rail_path[1] {
            RailNode::Archive(_, archive_id) => archive_by_id(group.archives, archive_id),
            RailNode::Group(_) => None,
        }
    }

    /// Total rows in the current rail level.
    pub fn current_level_len(&self) -> (n: usize)
        ensures
            n == level_len(self.rail_path@),
    {
        match self.rail_path.len() {
            0 => crate::taxonomy::group_count(),
            1 => match self.current_group() {
                Some(g) => g.archives.len(),
                None => 0,
            },
            _ => match self.current_archive() {
                Some(a) => a.categories.len(),
                None => 0,
            },
        }
    }

    /// Push a drill step (no-op at depth 2): the cursor goes to the top of
    /// the new level and is bounded by its row count.
    pub fn drill_into(&mut self, node: RailNode)
        ensures
            old(self).rail_path@.len() >= 2 ==> *final(self) == *old(self),
            old(self).rail_path@.len() < 2 ==> {
                &&& *final(self) == (BrowseModel {
                    rail_path: final(self).rail_path,
                    rail_cursor: final(self).rail_cursor,
                    ..*old(self)
                })
                &&& final(self).rail_path@ == old(self).rail_path@.push(node)
                &&& final(self).rail_cursor@.selected == 0
                &&& final(self).rail_cursor@.offset == 0
                &&& final(self).rail_cursor@.count == level_len(final(self).rail_path@)
                &&& final(self).rail_cursor@.viewport == old(self).rail_cursor@.viewport
            },
            final(self).focus == old(self).focus,
    {
        if self.rail_path.len() >= 2 {
            return;
        }
        self.rail_path.push(node);
        self.reset_cursor_for_level();
    }

    fn reset_cursor_for_level(&mut self)
        ensures
            final(self).rail_path@ == old(self).rail_path@,
            final(self).rail_cursor@.selected == 0,
            final(self).rail_cursor@.offset == 0,
            final(self).rail_cursor@.count == level_len(final(self).rail_path@),
            final(self).rail_cursor@.viewport == old(self).rail_cursor@.viewport,
            *final(self) == (BrowseModel { rail_cursor: final(self).rail_cursor, ..*old(self) }),
    {
        self.rail_cursor.set_selected(0);
        self.rail_cursor.set_offset(0);
        let n = self.current_level_len();
        self.rail_cursor.set_count(n);
    }

    /// Pop one level off the rail path (no-op at the root).
    pub fn drill_back(&mut self)
        ensures
            old(self).rail_path@.len() == 0 ==> *final(self) == *old(self),
            old(self).rail_path@.len() > 0 ==> {
                &&& *final(self) == (BrowseModel {
                    rail_path: final(self).rail_path,
                    rail_cursor: final(self).rail_cursor,
                    ..*old(self)
                })
                &&& final(self).rail_path@ == old(self).rail_path@.drop_last()
                &&& final(self).rail_cursor@.selected == 0
                &&& final(self).rail_cursor@.offset == 0
                &&& final(self).rail_cursor@.count == level_len(final(self).rail_path@)
            },
            final(self).focus == old(self).focus,
    {
        if self.rail_path.len() == 0 {
            return;
        }
        let _ = self.rail_path.pop();
        self.reset_cursor_for_level();
    }

    /// The Group on the highlighted row, at the Groups level only.
    pub fn rail_selected_group(&self) -> (r: Option<Group>)
        ensures
            self.rail_path@.len() > 0 ==> r.is_none(),
            self.rail_path@.len() == 0 ==> match r {
                Some(g) => self.rail_cursor@.selected < taxonomy_spec().len() && g@
                    == taxonomy_spec()[self.rail_cursor@.selected as int],
                None => self.rail_cursor@.selected >= taxonomy_spec().len(),
            },
    {
        if self.rail_path.len() != 0 {
            return None;
        }
        let mut groups = taxonomy();
        let sel = self.rail_cursor.selected();
        if sel < groups.len() {
            let g = groups.remove(sel);
            Some(g)
        } else {
            None
        }
    }

    /// The Archive on the highlighted row (or the first one), at depth 1.
    pub fn rail_selected_archive(&self) -> (r: Option<Archive>)
        ensures
            self.rail_path@.len() != 1 ==> r.is_none(),
            self.rail_path@.len() == 1 ==> match path_group(self.rail_path@) {
                Some(g) => match r {
                    Some(a) => at_or_first(g.archives, self.rail_cursor@.selected as int) == Some(a@),
                    None => at_or_first(g.archives, self.rail_cursor@.selected as int).is_none(),
                },
                None => r.is_none(),
            },
    {
        if self.rail_path.len() != 1 {
            return None;
        }
        let group = match self.current_group() {
            Some(g) => g,
            None => return None,
        };
        let mut archives = group.archives;
        let sel = self.rail_cursor.selected();
        if sel < archives.len() {
            Some(archives.remove(sel))
        } else if archives.len() > 0 {
            Some(archives.remove(0))
        } else {
            None
        }
    }

    /// The Category on the highlighted row (or the first one), at depth 2.
    pub fn rail_selected_category(&self) -> (r: Option<Category>)
        ensures
            self.rail_path@.len() != 2 ==> r.is_none(),
            self.rail_path@.len() == 2 ==> match path_archive(self.rail_path@) {
                Some(a) => r == at_or_first(a.categories, self.rail_cursor@.selected as int),
                None => r.is_none(),
            },
    {
        if self.rail_path.len() != 2 {
            return None;
        }
        let archive = match self.current_archive() {
            Some(a) => a,
            None => return None,
        };
        let cats = archive.categories;
        let sel = self.rail_cursor.selected();
        if sel < cats.len() {
            Some(cats[sel])
        } else if cats.len() > 0 {
            Some(cats[0])
        } else {
            None
        }
    }

    /// What `Enter` should drill into on the current row; `None` at the
    /// Categories level (a leaf, which the caller treats as a fetch).
    pub fn drill_target(&self) -> (r: Option<RailNode>)
        ensures
            self.rail_path@.len() == 0 ==> match r {
                Some(n) => self.rail_cursor@.selected < taxonomy_spec().len() && n
                    == RailNode::Group(taxonomy_spec()[self.rail_cursor@.selected as int].id),
                None => self.rail_cursor@.selected >= taxonomy_spec().len(),
            },
            self.rail_path@.len() == 1 ==> match path_group(self.rail_path@) {
                Some(g) => match at_or_first(g.archives, self.rail_cursor@.selected as int) {
                    Some(a) => r == Some(RailNode::Archive(g.id, a.id)),
                    None => r.is_none(),
                },
                None => r.is_none(),
            },
            self.rail_path@.len() >= 2 ==> r.is_none(),
    {
        match self.rail_path.len() {
            0 => match self.rail_selected_group() {
                Some(g) => Some(RailNode::Group(g.id)),
                None => None,
            },
            1 => match self.rail_selected_archive() {
                Some(a) => {
                    let group_id = match self.current_group() {
                        Some(g) => g.id,
                        None => "",
                    };
                    Some(RailNode::Archive(group_id, a.id))
                },
                None => None,
            },
            _ => None,
        }
    }
}

/// Law: drilling back after drilling into a node returns to the same
/// rail path, whose level has the same number of rows.
pub proof fn lemma_drill_round_trip(path: Seq<RailNode>, node: RailNode)
    ensures
        path.push(node).drop_last() == path,
        level_len(path.push(node).drop_last()) == level_len(path),
{
    assert(path.push(node).drop_last() =~= path);
}

} // verus!
