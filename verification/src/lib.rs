//! A bridge that routes "invoke this method by name with these bytes" calls
//! onto typed messaging operations.

pub mod consumer;
pub mod dispatch;
pub mod error;
pub mod handler;
pub mod message;
pub mod method;
pub mod trace;
