//! The parts of the workflow executor service that decide rather than do:
//! its configuration, the kinds of event it streams and what it records of
//! DoDAF mappings.
pub mod daemon;
pub mod dodaf_tracker;
pub mod event_stream;
