//! Branch staleness exporter: turns upstream branch-metadata replies into
//! ages in days, keeps them as labelled gauges, and renders the gauges in
//! the text exposition format on every scrape.
//!
//! - `time`: instants and the day difference between them.
//! - `target`: tracked (owner, repository, branch) triples and their URLs.
//! - `fetch`: what one upstream reply means for one target.
//! - `store`: the gauges and their exposition text.
//! - `collect`: one collection cycle and the scrape answer.
pub mod time;
pub mod target;
pub mod fetch;
pub mod store;
pub mod collect;
