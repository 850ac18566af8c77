//! Streams the entries of archive files into row groups of four parallel
//! columns: `name`, `source`, `body` and `hash`.
//!
//! The crate holds the rules of the conversion: which entries become records,
//! what a record holds under each column toggle, how records are cut into row
//! groups and laid out as columnar batches, and what the single writer does
//! when a flush ends or the run is cancelled. Reading archives and writing
//! the output are left to the caller.

pub mod error;
pub mod config;
pub mod digest;
pub mod selector;
pub mod limits;
pub mod filter;
pub mod record;
pub mod rowgroup;
pub mod columnar;
pub mod arrival;
pub mod layout;
pub mod pipeline;
pub mod producer;
pub mod consumer;
