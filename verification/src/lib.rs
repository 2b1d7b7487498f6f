//! Verified core of the trench research-feed reader.
pub mod arxiv;
pub mod atom;
pub mod bench;
pub mod collections;
pub mod commands;
pub mod config_migration;
pub mod dispatch;
pub mod feed;
pub mod feed_keys;
pub mod feed_order;
pub mod fixtures;
pub mod history;
pub mod ingestion;
pub mod item_store;
pub mod leader;
pub mod library_select;
pub mod merge;
pub mod messages;
pub mod models;
pub mod mouse;
pub mod primitives;
pub mod refresh;
pub mod registry;
pub mod search;
pub mod search_columns;
pub mod source_names;
pub mod sources_popup;
pub mod state;
pub mod sys;
pub mod taxonomy;
pub mod text;
pub mod workspace;
pub mod util;
pub mod visible;
