//! Request-handling core of a small static-site server.
//!
//! The crate decides, for every request, what the server answers: a fixed
//! liveness reply, a file of the asset directory, or the not-found page. It
//! performs no input or output itself. A caller hands it the request line,
//! performs the one file lookup it may ask for, and sends the reply it gets
//! back.

pub mod asset;
pub mod config;
pub mod decode;
pub mod handler;
pub mod laws;
pub mod media;
pub mod pipeline;
pub mod response;
pub mod text;
