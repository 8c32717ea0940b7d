//! Plain counterparts of the messages exchanged with the service.

pub mod common;
pub mod milvus;
