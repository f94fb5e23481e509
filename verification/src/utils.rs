//! Shared plumbing: the process-outcome model, the resolved configuration,
//! privilege checking, progress rendering and the top-level report type.

pub mod error;
pub mod is_root;
pub mod options;
pub mod response;
pub mod ui;
