//! The source rows of the filter panel: every distinct source label of the
//! corpus, plus the two built-in platforms, in string order.

use vstd::prelude::*;

use crate::feed_order::{
    lemma_str_lt_total, lemma_str_lt_transitive, str_less, str_lt,
};
use crate::models::FeedItem;
use crate::state::feed::source_key;
use crate::text::{str_eq, to_owned_string};

verus! {

/// Strictly increasing in string order (so no name occurs twice).
pub open spec fn strictly_sorted(v: Seq<String>) -> bool {
    forall|i: int, j: int| 0 <= i < j < v.len() ==> str_lt(#[trigger] v[i]@, #[trigger] v[j]@)
}

/// Some entry of `v` reads `x`.
pub open spec fn has_name(v: Seq<String>, x: Seq<char>) -> bool {
    exists|i: int| 0 <= i < v.len() && #[trigger] v[i]@ == x
}

/// Some item of `items` is filtered under the source label `x`.
pub open spec fn some_source_is(items: Seq<FeedItem>, x: Seq<char>) -> bool {
    exists|i: int| 0 <= i < items.len() && #[trigger] source_key(items[i]) == x
}

/// The labels every panel lists, loaded items or not.
pub open spec fn builtin_source(x: Seq<char>) -> bool {
    x == "arxiv"@ || x == "hf"@
}

/// Insert `x` into the sorted name list unless it is already there.
fn insert_sorted(v: &mut Vec<String>, x: String)
    requires
        strictly_sorted(old(v)@),
    ensures
        strictly_sorted(final(v)@),
        forall|y: Seq<char>| has_name(final(v)@, y) <==> (has_name(old(v)@, y) || y == x@),
{
    let ghost v0 = v@;
    let n = v.len();
    let mut p: usize = 0;
    while p < n && str_less(v[p].as_str(), x.as_str())
        invariant
            p <= n,
            n == v@.len(),
            v@ == v0,
            forall|k: int| 0 <= k < p ==> str_lt(#[trigger] v0[k]@, x@),
        decreases n - p,
    {
        p = p + 1;
    }
    if p < n && str_eq(v[p].as_str(), x.as_str()) {
        assert forall|y: Seq<char>| has_name(v@, y) <==> (has_name(v0, y) || y == x@) by {
            if y == x@ {
                assert(v0[p as int]@ == y);
            }
        }
        return;
    }
    proof {
        assert forall|k: int| p <= k < n implies str_lt(x@, #[trigger] v0[k]@) by {
            lemma_str_lt_total(x@, v0[p as int]@);
            if k > p {
                lemma_str_lt_transitive(x@, v0[p as int]@, v0[k]@);
            }
        }
    }
    let ghost xv = x@;
    v.insert(p, x);
    proof {
        let w = v@;
        assert(w == v0.insert(p as int, w[p as int]));
        assert(w[p as int]@ == xv);
        assert forall|i: int, j: int| 0 <= i < j < w.len() implies str_lt(
            #[trigger] w[i]@,
            #[trigger] w[j]@,
        ) by {
            if j < p {
                assert(w[i] == v0[i] && w[j] == v0[j]);
            } else if j == p {
                assert(w[i] == v0[i]);
            } else if i < p {
                assert(w[i] == v0[i] && w[j] == v0[j - 1]);
                lemma_str_lt_transitive(v0[i]@, xv, v0[j - 1]@);
            } else if i == p {
                assert(w[j] == v0[j - 1]);
            } else {
                assert(w[i] == v0[i - 1] && w[j] == v0[j - 1]);
            }
        }
        assert forall|y: Seq<char>| has_name(w, y) <==> (has_name(v0, y) || y == xv) by {
            if has_name(w, y) {
                let i = choose|i: int| 0 <= i < w.len() && #[trigger] w[i]@ == y;
                if i < p {
                    assert(w[i] == v0[i]);
                } else if i > p {
                    assert(w[i] == v0[i - 1]);
                }
            }
            if has_name(v0, y) {
                let i = choose|i: int| 0 <= i < v0.len() && #[trigger] v0[i]@ == y;
                if i < p {
                    assert(w[i] == v0[i]);
                } else {
                    assert(w[i + 1] == v0[i]);
                }
            }
            if y == xv {
                assert(w[p as int]@ == y);
            }
        }
    }
}

/// The source names the filter panel lists: the source label of every
/// item (its source name, or its platform's short label when it has
/// none) together with `arxiv` and `hf`, each once, in string order.
pub fn filter_source_names(items: &[FeedItem]) -> (names: Vec<String>)
    ensures
        strictly_sorted(names@),
        forall|y: Seq<char>|
            has_name(names@, y) <==> (builtin_source(y) || some_source_is(items@, y)),
{
    let mut names: Vec<String> = Vec::new();
    let n = items.len();
    let mut i: usize = 0;
    while i < n
        invariant
            n == items@.len(),
            i <= n,
            strictly_sorted(names@),
            forall|y: Seq<char>|
                has_name(names@, y) <==> some_source_is(items@.take(i as int), y),
        decreases n - i,
    {
        let item = &items[i];
        let label = if item.source_name.as_str().is_empty() {
            to_owned_string(item.source_platform.short_label())
        } else {
            item.source_name.clone()
        };
        assert(label@ == source_key(items@[i as int]));
        let ghost before = names@;
        insert_sorted(&mut names, label);
        proof {
            let pre = items@.take(i as int);
            let next = items@.take(i + 1);
            assert forall|y: Seq<char>| has_name(names@, y) <==> some_source_is(next, y) by {
                if some_source_is(next, y) {
                    let k = choose|k: int| 0 <= k < next.len() && #[trigger] source_key(next[k]) == y;
                    if k < i {
                        assert(next[k] == pre[k]);
                    }
                }
                if some_source_is(pre, y) {
                    let k = choose|k: int| 0 <= k < pre.len() && #[trigger] source_key(pre[k]) == y;
                    assert(next[k] == pre[k]);
                }
                if y == source_key(items@[i as int]) {
                    assert(next[i as int] == items@[i as int]);
                }
            }
        }
        i = i + 1;
    }
    assert(items@.take(n as int) =~= items@);
    insert_sorted(&mut names, to_owned_string("arxiv"));
    insert_sorted(&mut names, to_owned_string("hf"));
    names
}

} // verus!
