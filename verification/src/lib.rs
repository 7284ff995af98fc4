//! A minimal HTTP/1.1 server core: a request parser, a response
//! builder/serializer with optional gzip compression, and a route
//! dispatcher.  The surrounding process supplies connection bytes and
//! file storage; everything here is pure computation over in-memory data.

pub mod laws;
pub mod request;
pub mod response;
pub mod router;
pub mod text;
