//! A minimal static-content responder: the request resolver, the response
//! builder, the status and content-kind tables, and the dispatch queue that
//! decides how a fixed pool of workers takes jobs and shuts down.
pub mod dispatch;
pub mod http;
pub mod resolve;
pub mod response;
pub mod text;

pub use http::{HttpContentType, HttpStatusCode};
