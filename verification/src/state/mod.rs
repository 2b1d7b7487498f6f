//! Sub-state models of the application, grouped by concern.

pub mod browse;
pub mod notes;
pub mod simple;
pub mod timing;
pub mod feed;
pub mod discovery;
