//! Screenshot capture: request types and the decisions of the capture pipeline.
pub mod plan;
pub mod types;
pub mod uri;
