//! What the fuzzy-ranking engine matches against: four text columns per
//! item (title, authors, abstract, and all three combined, title first so
//! that a title hit ranks above an abstract-only hit), and the pattern
//! each query bucket sets on its column.

use vstd::prelude::*;

use crate::models::FeedItem;
use crate::search::Query;
use crate::text::{join_strings, join_with, to_owned_string, views};

verus! {

/// Column of the title.
pub const COL_TITLE: u32 = 0;
/// Column of the space-joined authors.
pub const COL_AUTHORS: u32 = 1;
/// Column of the abstract.
pub const COL_ABSTRACT: u32 = 2;
/// Column of title, authors and abstract, one per line.
pub const COL_COMBINED: u32 = 3;
/// Number of match columns.
pub const COLUMNS: u32 = 4;

/// The four column texts of an item.
pub open spec fn item_columns_spec(item: FeedItem) -> Seq<Seq<char>> {
    let authors = join_with(views(item.authors@), " "@);
    seq![
        item.title@,
        authors,
        item.summary_short@,
        item.title@ + "\n"@ + authors + "\n"@ + item.summary_short@,
    ]
}

/// The column texts the engine indexes for `item`, in column order.
pub fn item_columns(item: &FeedItem) -> (r: Vec<String>)
    ensures
        views(r@) == item_columns_spec(*item),
{
    let authors = join_strings(&item.authors, " ");
    let mut combined = to_owned_string(item.title.as_str());
    combined.append("\n");
    combined.append(authors.as_str());
    combined.append("\n");
    combined.append(item.summary_short.as_str());
    let r = vec![
        to_owned_string(item.title.as_str()),
        authors,
        to_owned_string(item.summary_short.as_str()),
        combined,
    ];
    assert(views(r@) =~= item_columns_spec(*item));
    r
}

/// The pattern of each column for a query: the title, author, abstract
/// and free terms, each bucket space-joined.
pub open spec fn query_columns_spec(q: Query) -> Seq<Seq<char>> {
    seq![
        join_with(views(q.title@), " "@),
        join_with(views(q.author@), " "@),
        join_with(views(q.summary@), " "@),
        join_with(views(q.free@), " "@),
    ]
}

/// The column patterns of a query, in column order.
pub fn query_columns(q: &Query) -> (r: Vec<String>)
    ensures
        views(r@) == query_columns_spec(*q),
{
    let r = vec![
        join_strings(&q.title, " "),
        join_strings(&q.author, " "),
        join_strings(&q.summary, " "),
        join_strings(&q.free, " "),
    ];
    assert(views(r@) =~= query_columns_spec(*q));
    r
}

} // verus!
