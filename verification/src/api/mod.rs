//! The HTTP layer's own decisions: the shapes of requests and answers, the
//! answer to every error, and where a stored person can be found.

pub mod dto;
pub mod error;
pub mod http;
