//! Core engine of a terminal log browser: composable line filters, a paged
//! reader that merges and orders lines from several sources, a live-tail
//! line reassembler with per-source cursors, and the session state machine
//! that arbitrates between the two pipelines.

pub mod filters;
pub mod logline;
pub mod registry;
pub mod batch;
pub mod pager;
pub mod tail;
pub mod session;
