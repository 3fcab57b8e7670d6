//! Conversion of a tree of Notion blocks into a tree of markup components.
//!
//! The library does no input or output. The block tree is handed over as plain
//! values, together with what the network answered for it: the children of
//! each block, or the failure to list them, and the pages behind bookmarks and
//! links, or `None` where a page could not be fetched.
//!
//! - [`block`] holds the input, [`component`] the output, each with its
//!   mathematical view.
//! - [`rules`] says what the conversion yields, over those views.
//! - [`client`] is the converter: executable code, proved to yield what the
//!   rules say.
//! - [`enrich`] reads favicons and bookmark previews out of fetched pages,
//!   and [`keyboard`] tells keyboard keys from other code-styled text.
//! - [`plan`] says what has to be fetched for a block before it is converted.
//! - [`laws`] and [`placeholders`] prove what holds of every conversion: the
//!   output is well formed, order is kept, list items of different styles
//!   never share a list, a component of its own keeps its neighbours apart,
//!   and switching placeholders off removes the placeholders alone.

pub mod block;
pub mod client;
pub mod component;
pub mod enrich;
pub mod error;
pub mod keyboard;
pub mod laws;
pub mod placeholders;
pub mod plan;
pub mod rules;
pub mod text;
pub mod views;
