//! Orderings of the feed's visible indices: a seeded shuffle, a stable
//! sort by upvotes, and the recent-items filter of the Trending view.

use vstd::prelude::*;

use crate::models::FeedItem;
use crate::sys::{iso_date_shape, utc_date_days_ago};
use crate::text::chars_of;
use vstd::wrapping::u64_specs;

verus! {

broadcast use vstd::seq_lib::to_multiset_insert, vstd::seq_lib::to_multiset_update, vstd::seq_lib::to_multiset_build;

/// Multiplier of the shuffle's linear congruential generator.
pub const LCG_MUL: u64 = 6364136223846793005;

/// Increment of the shuffle's linear congruential generator.
pub const LCG_INC: u64 = 1442695040888963407;

/// One step of the generator (wrapping 64-bit arithmetic).
pub open spec fn lcg_next(state: u64) -> u64 {
    u64_specs::wrapping_add(u64_specs::wrapping_mul(state, LCG_MUL), LCG_INC)
}

/// `s` with positions `i` and `j` exchanged.
pub open spec fn swap_spec(s: Seq<usize>, i: int, j: int) -> Seq<usize> {
    s.update(i, s[j]).update(j, s[i])
}

/// Fisher–Yates from position `i` down to 1, drawing from the generator
/// in `state`: position `i` is exchanged with `(next >> 33) % (i + 1)`.
pub open spec fn shuffle_from(s: Seq<usize>, i: int, state: u64) -> Seq<usize>
    decreases i,
{
    if i < 1 || i >= s.len() {
        s
    } else {
        let st = lcg_next(state);
        let j = ((st >> 33u64) as int) % (i + 1);
        shuffle_from(swap_spec(s, i, j), i - 1, st)
    }
}

/// The session shuffle of `s` under `seed` (the generator starts at
/// `seed | 1`).
pub open spec fn shuffle_spec(s: Seq<usize>, seed: u64) -> Seq<usize> {
    shuffle_from(s, s.len() - 1, seed | 1u64)
}

/// Upvotes of the item at index `x`.
pub open spec fn up(items: Seq<FeedItem>, x: usize) -> u32 {
    items[x as int].upvote_count
}

/// First position at or after `p` whose item has fewer than `k` upvotes
/// (`s.len()` when there is none).
pub open spec fn insert_pos(s: Seq<usize>, items: Seq<FeedItem>, k: u32, p: int) -> int
    decreases s.len() - p,
{
    if p < 0 || p >= s.len() {
        s.len() as int
    } else if up(items, s[p]) < k {
        p
    } else {
        insert_pos(s, items, k, p + 1)
    }
}

/// `x` inserted after every element with at least as many upvotes.
pub open spec fn insert_desc(s: Seq<usize>, items: Seq<FeedItem>, x: usize) -> Seq<usize> {
    s.insert(insert_pos(s, items, up(items, x), 0), x)
}

/// Stable sort by upvotes, most first: each element in turn is placed
/// after all earlier ones with at least as many upvotes.
pub open spec fn sort_by_upvotes_spec(s: Seq<usize>, items: Seq<FeedItem>) -> Seq<usize>
    decreases s.len(),
{
    if s.len() == 0 {
        s
    } else {
        insert_desc(sort_by_upvotes_spec(s.drop_last(), items), items, s.last())
    }
}

/// Upvotes never increase along `s`.
pub open spec fn sorted_desc(s: Seq<usize>, items: Seq<FeedItem>) -> bool {
    forall|i: int, j: int| 0 <= i < j < s.len() ==> up(items, #[trigger] s[i]) >= up(items, #[trigger] s[j])
}

/// Every index of `s` points into `items`.
pub open spec fn in_range(s: Seq<usize>, items: Seq<FeedItem>) -> bool {
    forall|i: int| 0 <= i < s.len() ==> #[trigger] s[i] < items.len()
}

/// Lexicographic `a < b` over characters (the order of `str`'s `<`).
pub open spec fn str_lt(a: Seq<char>, b: Seq<char>) -> bool
    decreases a.len(),
{
    if b.len() == 0 {
        false
    } else if a.len() == 0 {
        true
    } else if a[0] != b[0] {
        (a[0] as u32) < (b[0] as u32)
    } else {
        str_lt(a.drop_first(), b.drop_first())
    }
}

pub(crate) proof fn lemma_str_lt_irreflexive(a: Seq<char>)
    ensures
        !str_lt(a, a),
    decreases a.len(),
{
    if a.len() > 0 {
        lemma_str_lt_irreflexive(a.drop_first());
    }
}

pub(crate) proof fn lemma_str_lt_total(a: Seq<char>, b: Seq<char>)
    requires
        a != b,
    ensures
        str_lt(a, b) || str_lt(b, a),
    decreases a.len(),
{
    if a.len() > 0 && b.len() > 0 && a[0] == b[0] {
        if a.drop_first() == b.drop_first() {
            assert(a =~= seq![a[0]] + a.drop_first());
            assert(b =~= seq![b[0]] + b.drop_first());
        }
        lemma_str_lt_total(a.drop_first(), b.drop_first());
    } else if a.len() > 0 && b.len() > 0 {
        vstd::utf8::char_u32_cast(a[0], a[0] as u32);
        vstd::utf8::char_u32_cast(b[0], b[0] as u32);
    } else if a.len() == 0 && b.len() == 0 {
        assert(a =~= b);
    }
}

pub(crate) proof fn lemma_str_lt_transitive(a: Seq<char>, b: Seq<char>, c: Seq<char>)
    requires
        str_lt(a, b),
        str_lt(b, c),
    ensures
        str_lt(a, c),
    decreases a.len(),
{
    if a.len() > 0 && b.len() > 0 && c.len() > 0 && a[0] == b[0] && b[0] == c[0] {
        lemma_str_lt_transitive(a.drop_first(), b.drop_first(), c.drop_first());
    }
}

/// The indices whose item was published on or after `cutoff`.
pub open spec fn published_since(s: Seq<usize>, items: Seq<FeedItem>, cutoff: Seq<char>) -> Seq<usize>
    decreases s.len(),
{
    if s.len() == 0 {
        s
    } else {
        let prev = published_since(s.drop_last(), items, cutoff);
        if !str_lt(items[s.last() as int].published_at@, cutoff) {
            prev.push(s.last())
        } else {
            prev
        }
    }
}

/// The Trending view under a given cutoff date.
pub open spec fn trending_spec(s: Seq<usize>, items: Seq<FeedItem>, cutoff: Seq<char>) -> Seq<usize> {
    sort_by_upvotes_spec(published_since(s, items, cutoff), items)
}

// ── Lemmas ──────────────────────────────────────────────────────────────

proof fn lemma_swap_multiset(s: Seq<usize>, i: int, j: int)
    requires
        0 <= i < s.len(),
        0 <= j < s.len(),
    ensures
        swap_spec(s, i, j).to_multiset() == s.to_multiset(),
        swap_spec(s, i, j).len() == s.len(),
{
    broadcast use vstd::multiset::group_multiset_axioms, vstd::seq_lib::to_multiset_contains;

    let m = s.to_multiset();
    let t = s.update(i, s[j]);
    assert(s.contains(s[i]));
    assert(s.contains(s[j]));
    assert(m.count(s[i]) > 0 && m.count(s[j]) > 0);
    let m1 = m.insert(s[j]).remove(s[i]);
    assert(t.to_multiset() == m1);
    assert(t[j] == s[j]);
    let m2 = m1.insert(s[i]).remove(s[j]);
    assert(t.update(j, s[i]).to_multiset() == m2);
    assert forall|x: usize| #[trigger] m2.count(x) == m.count(x) by {
        if x == s[i] && x == s[j] {
        } else if x == s[i] {
        } else if x == s[j] {
        } else {
        }
    }
    assert(m2 =~= m);
}

pub(crate) proof fn lemma_shuffle_multiset(s: Seq<usize>, i: int, state: u64)
    ensures
        shuffle_from(s, i, state).to_multiset() == s.to_multiset(),
        shuffle_from(s, i, state).len() == s.len(),
    decreases i,
{
    if !(i < 1 || i >= s.len()) {
        let st = lcg_next(state);
        let j = ((st >> 33u64) as int) % (i + 1);
        lemma_swap_multiset(s, i, j);
        lemma_shuffle_multiset(swap_spec(s, i, j), i - 1, st);
    }
}

proof fn lemma_insert_pos(s: Seq<usize>, items: Seq<FeedItem>, k: u32, p: int)
    requires
        0 <= p <= s.len(),
    ensures
        p <= insert_pos(s, items, k, p) <= s.len(),
        forall|q: int| p <= q < insert_pos(s, items, k, p) ==> up(items, #[trigger] s[q]) >= k,
        insert_pos(s, items, k, p) < s.len() ==> up(items, s[insert_pos(s, items, k, p)]) < k,
    decreases s.len() - p,
{
    if p < s.len() && up(items, s[p]) >= k {
        lemma_insert_pos(s, items, k, p + 1);
    }
}

proof fn lemma_insert_desc_sorted(s: Seq<usize>, items: Seq<FeedItem>, x: usize)
    requires
        sorted_desc(s, items),
    ensures
        sorted_desc(insert_desc(s, items, x), items),
        insert_desc(s, items, x).to_multiset() == s.to_multiset().insert(x),
{
    let k = up(items, x);
    let r = insert_pos(s, items, k, 0);
    lemma_insert_pos(s, items, k, 0);
    let t = s.insert(r, x);
    assert forall|i: int, j: int| 0 <= i < j < t.len() implies up(items, #[trigger] t[i]) >= up(
        items,
        #[trigger] t[j],
    ) by {
        if j < r {
            assert(t[i] == s[i] && t[j] == s[j]);
        } else if j == r {
            assert(t[i] == s[i]);
        } else if i < r {
            assert(t[i] == s[i] && t[j] == s[j - 1]);
            assert(up(items, s[j - 1]) <= up(items, s[r]));
        } else if i == r {
            assert(t[j] == s[j - 1]);
            if j - 1 > r {
                assert(up(items, s[j - 1]) <= up(items, s[r]));
            }
        } else {
            assert(t[i] == s[i - 1] && t[j] == s[j - 1]);
        }
    }
}

pub(crate) proof fn lemma_sort_by_upvotes(s: Seq<usize>, items: Seq<FeedItem>)
    ensures
        sorted_desc(sort_by_upvotes_spec(s, items), items),
        sort_by_upvotes_spec(s, items).to_multiset() == s.to_multiset(),
    decreases s.len(),
{
    if s.len() > 0 {
        lemma_sort_by_upvotes(s.drop_last(), items);
        lemma_insert_desc_sorted(sort_by_upvotes_spec(s.drop_last(), items), items, s.last());
        assert(s.drop_last().push(s.last()) == s);
    }
}

// ── Executable orderings ────────────────────────────────────────────────

fn shuffle(indices: &mut Vec<usize>, seed: u64)
    ensures
        final(indices)@ == shuffle_spec(old(indices)@, seed),
{
    let n = indices.len();
    if n < 2 {
        return;
    }
    let mut state: u64 = seed | 1;
    let mut i: usize = n - 1;
    while i >= 1
        invariant
            n == indices@.len(),
            i < n,
            shuffle_spec(old(indices)@, seed) == shuffle_from(indices@, i as int, state),
        decreases i,
    {
        state = state.wrapping_mul(LCG_MUL).wrapping_add(LCG_INC);
        assert(state >> 33u64 < 0x8000_0000u64) by (bit_vector);
        let r = (state >> 33) as usize;
        let j = r % (i + 1);
        let a = indices[i];
        let b = indices[j];
        indices.set(i, b);
        indices.set(j, a);
        i = i - 1;
    }
}

/// Strictly-less on strings (`str`'s `<`).
pub(crate) fn str_less(a: &str, b: &str) -> (r: bool)
    ensures
        r == str_lt(a@, b@),
{
    let av = chars_of(a);
    let bv = chars_of(b);
    let mut k: usize = 0;
    assert(av@.skip(0) == av@ && bv@.skip(0) == bv@);
    while k < av.len() && k < bv.len() && av[k] == bv[k]
        invariant
            k <= av@.len(),
            k <= bv@.len(),
            str_lt(a@, b@) == str_lt(av@.skip(k as int), bv@.skip(k as int)),
            av@ == a@,
            bv@ == b@,
        decreases av@.len() - k,
    {
        assert(av@.skip(k as int).drop_first() == av@.skip(k + 1));
        assert(bv@.skip(k as int).drop_first() == bv@.skip(k + 1));
        k += 1;
    }
    if k == bv.len() {
        false
    } else if k == av.len() {
        true
    } else {
        (av[k] as u32) < (bv[k] as u32)
    }
}

fn sort_by_upvotes(indices: &mut Vec<usize>, items: &[FeedItem])
    requires
        in_range(old(indices)@, items@),
    ensures
        final(indices)@ == sort_by_upvotes_spec(old(indices)@, items@),
{
    let mut src: Vec<usize> = Vec::new();
    std::mem::swap(&mut src, indices);
    let mut out: Vec<usize> = Vec::new();
    let n = src.len();
    let mut k: usize = 0;
    while k < n
        invariant
            n == src@.len(),
            k <= n,
            in_range(src@, items@),
            in_range(out@, items@),
            out@ == sort_by_upvotes_spec(src@.take(k as int), items@),
        decreases n - k,
    {
        let x = src[k];
        let key = items[x].upvote_count;
        let mut p: usize = 0;
        while p < out.len() && !(items[out[p]].upvote_count < key)
            invariant
                p <= out@.len(),
                in_range(out@, items@),
                x < items@.len(),
                key == up(items@, x),
                insert_pos(out@, items@, key, 0) == insert_pos(out@, items@, key, p as int),
            decreases out@.len() - p,
        {
            p += 1;
        }
        proof {
            assert(src@.take(k + 1).drop_last() == src@.take(k as int));
            assert(src@.take(k + 1).last() == x);
        }
        out.insert(p, x);
        k += 1;
    }
    assert(src@.take(n as int) == src@);
    *indices = out;
}

fn retain_since(indices: &mut Vec<usize>, items: &[FeedItem], cutoff: &str)
    requires
        in_range(old(indices)@, items@),
    ensures
        final(indices)@ == published_since(old(indices)@, items@, cutoff@),
        in_range(final(indices)@, items@),
{
    let mut src: Vec<usize> = Vec::new();
    std::mem::swap(&mut src, indices);
    let mut out: Vec<usize> = Vec::new();
    let n = src.len();
    let mut k: usize = 0;
    while k < n
        invariant
            n == src@.len(),
            k <= n,
            in_range(src@, items@),
            in_range(out@, items@),
            out@ == published_since(src@.take(k as int), items@, cutoff@),
        decreases n - k,
    {
        let x = src[k];
        proof {
            assert(src@.take(k + 1).drop_last() == src@.take(k as int));
            assert(src@.take(k + 1).last() == x);
        }
        if !str_less(items[x].published_at.as_str(), cutoff) {
            out.push(x);
        }
        k += 1;
    }
    assert(src@.take(n as int) == src@);
    *indices = out;
}

/// The Trending view under a given cutoff date: the items published on or
/// after `cutoff`, most upvoted first.
pub fn trending_since(indices: &mut Vec<usize>, items: &[FeedItem], cutoff: &str)
    requires
        in_range(old(indices)@, items@),
    ensures
        final(indices)@ == trending_spec(old(indices)@, items@, cutoff@),
        sorted_desc(final(indices)@, items@),
{
    retain_since(indices, items, cutoff);
    let ghost kept = indices@;
    sort_by_upvotes(indices, items);
    proof {
        lemma_sort_by_upvotes(kept, items@);
    }
}

/// The popular view: most upvoted first, ties kept in input order.
pub fn popular(indices: &mut Vec<usize>, items: &[FeedItem])
    requires
        in_range(old(indices)@, items@),
    ensures
        final(indices)@ == sort_by_upvotes_spec(old(indices)@, items@),
        sorted_desc(final(indices)@, items@),
        final(indices)@.to_multiset() == old(indices)@.to_multiset(),
{
    sort_by_upvotes(indices, items);
    proof {
        lemma_sort_by_upvotes(old(indices)@, items@);
    }
}

/// The session shuffle: a deterministic permutation keyed on `seed`.
pub fn shuffled(indices: &mut Vec<usize>, seed: u64)
    ensures
        final(indices)@ == shuffle_spec(old(indices)@, seed),
        final(indices)@.to_multiset() == old(indices)@.to_multiset(),
{
    shuffle(indices, seed);
    proof {
        lemma_shuffle_multiset(old(indices)@, old(indices)@.len() - 1, seed | 1u64);
    }
}

/// The cutoff date of the Trending view: 14 days before now, ISO
/// `YYYY-MM-DD` (which compares correctly as a string); `None` when the
/// clock gives no date.
pub(crate) fn trending_cutoff() -> (s: Option<String>)
    ensures
        s matches Some(d) ==> iso_date_shape(d@),
{
    utc_date_days_ago(14)
}

/// The Trending window keeps only entries of its input.
pub(crate) proof fn lemma_published_since_subset(s: Seq<usize>, items: Seq<FeedItem>, cutoff: Seq<char>)
    ensures
        forall|x: usize| #[trigger] published_since(s, items, cutoff).contains(x) ==> s.contains(x),
    decreases s.len(),
{
    if s.len() > 0 {
        let d = s.drop_last();
        lemma_published_since_subset(d, items, cutoff);
        assert forall|x: usize| #[trigger] published_since(s, items, cutoff).contains(x) implies s.contains(x) by {
            let p = published_since(d, items, cutoff);
            if p.contains(x) {
                let i = choose|i: int| 0 <= i < d.len() && d[i] == x;
                assert(s[i] == x);
            } else {
                assert(s[s.len() - 1] == x);
            }
        }
    }
}

} // verus!
