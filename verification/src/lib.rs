//! Interactive dashboard core for live network service discovery.
//!
//! The crate is organised around four pieces: an ordered collection with
//! unique-by-identity insertion, a live text-pattern filter and a wraparound
//! cursor over the filtered view; the search-buffer editor driving that
//! filter; the category -> instance-collection map; and the background event
//! folder plus the foreground key router that compose the collections.

pub mod aggregator;
pub mod app;
pub mod info;
pub mod instances;
pub mod key;
pub mod list;
pub mod pattern;
pub mod search;
pub mod widget;
