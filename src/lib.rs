//! Nested product documents, the step that attaches an uploaded image to
//! them, and the decisions taken around storing them.

pub mod models;
pub mod object_id;
pub mod handlers;
