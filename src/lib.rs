//! Builder for the textual queries of a read-only data API, and the request
//! that carries one.
pub mod laws;
pub mod request;
pub mod request_builder;
pub mod text;
