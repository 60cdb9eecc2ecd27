//! The decisions of a remote compilation gateway: which paths a request may
//! touch, which tool runs with which arguments, and how a finished run is
//! reported back to the caller.

pub mod jobs;
pub mod paths;
pub mod sanitize;
pub mod status;
pub mod text;
