//! Structured search queries against an academic search service: a query is
//! rendered into its request URL, and a fetched listing page is turned into
//! typed result records. Fetching the page is left to the caller.

pub mod args;
pub mod author;
pub mod citations;
pub mod encode;
pub mod error;
pub mod extract;
pub mod pattern;
pub mod pipeline;
pub mod result;
pub mod select;
pub mod text;

pub use crate::args::{Args, ScholarArgs, Services};
pub use crate::error::Error;
pub use crate::result::ScholarResult;
