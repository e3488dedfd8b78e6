//! A client for the action API of a CKAN server, and the decoding of the
//! replies that such a server sends.

pub mod client;
pub mod json;
pub mod response;

pub use client::{Action, CKAN};
pub use response::{Envelope, Fail, Payload, Response, Success};
