//! Business process, decision and architecture modelling library.
pub mod entries;
pub mod error;
pub mod dev_logger;
pub mod escape;
pub mod outside;
pub mod text;
pub mod bpmn;
pub mod dmn;
pub mod documentation;
pub mod dodaf;
pub mod executor;
