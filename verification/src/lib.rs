//! Typed access to a version-pinned registry of chains and of the paths
//! between them, without any I/O of its own.
//!
//! The registry is a tree of JSON files behind two HTTP endpoints: one
//! lists directories, the other serves raw files. This library decides
//! everything about reading it and sends nothing: each operation of the
//! [`registry::Registry`] names the request to send, and is finished with a
//! [`fetch::Reply`] that says what came back. A missing resource is an
//! absence (`Ok(None)`); a failed request, an unexpected status or content
//! that does not decode is an error.
//!
//! * [`registry`]: which revision is read and where, and the five
//!   operations of the client;
//! * [`locator`]: the address of every resource; the path between two
//!   chains has the same address whichever chain is named first;
//! * [`fetch`]: requests, replies and what a reply means;
//! * [`listing`]: which entries of a directory listing are chains and
//!   which are paths;
//! * [`paths`], [`chain`], [`assets`]: the records of the registry, and the
//!   tags by which paths are selected;
//! * [`cache`]: all paths in memory, found by their two chains and
//!   selected by tag;
//! * [`builder`]: the state machine that fills a cache, batch by batch;
//! * [`get`]: the operations against the public registry at a fixed
//!   revision;
//! * [`text`]: the order of strings and the other text primitives that the
//!   naming rules rest on.
//!
//! What the functions return is stated in their contracts, over the
//! sequences of characters that strings hold and over the mathematical
//! content of the records, and is proved.

pub mod assets;
pub mod builder;
pub mod cache;
pub mod chain;
pub mod fetch;
pub mod get;
pub mod listing;
pub mod locator;
pub mod paths;
pub mod registry;
pub mod text;
