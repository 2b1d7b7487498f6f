# trench

The state and logic of a terminal reader for research feeds (arXiv,
Hugging Face papers, blogs, RSS): the item corpus with its dedup
indices, the feed tabs and their cursors, filters, sort orders, the
Subject Browser rail, the notes pane, the activity log, ingestion
merging, arXiv request building and Atom parsing — written in Verus,
with every function of `src/` carrying a contract that Verus proves.

## Layout

- `src/` — the verified library.
  - `item_store.rs`, `workspace.rs`, `merge.rs`, `refresh.rs` — the corpus,
    its URL / arXiv-id indices, and how fetched, enriched and discovered
    items merge into it.
  - `feed.rs`, `feed_order.rs`, `visible.rs`, `library_select.rs`,
    `source_names.rs`, `search.rs` — the feed pane: tabs, cursors, the
    visible list and its sort orders, bulk selection, filter panel rows,
    query parsing.
  - `dispatch.rs`, `leader.rs`, `mouse.rs`, `feed_keys.rs`,
    `sources_popup.rs` — input: the top-level key router, the Ctrl+T
    leader commands, mouse events, the feed and History keys, and the
    Sources popup. Each changes the state it owns and names the work left
    to the caller.
  - `state/` — the models of the panes (browse rail, discovery, filters,
    notes, timing gates); `primitives/` — list cursors, scroll state,
    text input, async load state.
  - `arxiv.rs`, `atom.rs`, `registry.rs`, `ingestion.rs` — request URLs,
    the Atom response fold, the source registry, fetch messages.
  - `collections.rs`, `text.rs` — string-keyed maps and sets, and the
    string functions the rest is built on. The maps and sets keyed by
    `String` are small vectors of entries with a `Map`/`Set` view proved
    for every operation: vstd's specifications of `HashMap` and `HashSet`
    let `String` keys through but prove nothing about what such a map
    holds after an insert, so lookups in the item indices, the
    persisted workflow states and the filter sets could not be reasoned
    about through them.
  - `sys.rs` — the clock and channels, behind trusted wrappers.
- `tests/` — tests run against the compiled library.
- `app/` — the executable around the library: process and file I/O, the
  fuzzy-ranking worker, serde copies of persisted types.

Verify with `verus` on `src/lib.rs`; every item outside `src/` is
ordinary Rust.
