//! A declarative request-definition layer for HTTP API clients.
//!
//! A caller describes one API operation as a value implementing the
//! [`request::Request`] capability (endpoint, method, optional parameters and
//! body).  The library builds a transport-level request from that
//! description, classifies a completed transport response as success or
//! failure, and decodes the body into a typed result or a structured
//! [`error::Error`].  The network transport itself is an external
//! collaborator: dispatching a [`request::BuiltRequest`] and collecting the
//! raw response belong to the surrounding application.

pub mod error;
pub mod json;
pub mod parameters;
pub mod request;
pub mod wire;
