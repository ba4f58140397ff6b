//! A small service that keeps a register of persons: the validation of what
//! clients send, the rules by which a patch changes a stored person, an
//! in-memory register, the decisions of the service layer and the answers
//! that the HTTP layer gives, all with verified contracts.

pub mod api;
pub mod config;
pub mod domain;
pub mod repository;
pub mod service;
pub mod text;
