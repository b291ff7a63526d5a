//! Tracing of plain HTTP requests: the factory that describes a request's
//! span and the recorder that writes the response's outcome to it.

pub mod http;
pub mod request;
pub mod server_make_span;
pub mod server_on_response;
