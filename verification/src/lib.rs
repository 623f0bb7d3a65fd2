//! Several torrent search engines behind one feed protocol.
//!
//! A request is a search for some words or the feed of a category. It goes
//! to an adapter for each site; each adapter turns the pages or records of
//! its site into entries of one shape, and into errors where a row, a page
//! or a request fails; the batches of all adapters are merged, and the
//! entries are written as an XML feed.
//!
//! Nothing here opens a connection. An adapter says which address to ask
//! for and what the answer gives; the asking is left to the caller.
//!
//! - [`prelude`]: categories, entries, errors and batches.
//! - [`numeric`], [`text`], [`time`], [`size`], [`url`]: counts, numbers,
//!   dates, sizes and addresses as the sites write them.
//! - [`page`]: what is read from an HTML page.
//! - [`i1337x`], [`bitsearch`], [`thepiratebay`]: the adapters.
//! - [`manager`]: the adapters of a server, and the joining of their
//!   answers.
//! - [`xml`], [`torznab`], [`capabilities`]: the documents of the protocol.
//! - [`occurrences`], [`items`]: that a feed holds one item for each entry.
//! - [`handler`], [`cache`]: what a request asks for, and the settings of
//!   the cache.

pub mod bitsearch;
pub mod cache;
pub mod capabilities;
pub mod handler;
pub mod i1337x;
pub mod items;
pub mod manager;
pub mod numeric;
pub mod occurrences;
pub mod page;
pub mod prelude;
pub mod size;
pub mod text;
pub mod thepiratebay;
pub mod time;
pub mod torznab;
pub mod url;
pub mod xml;
