//! Protocol core of a client for the Milvus vector database.
//!
//! The crate holds the part of a collection-lifecycle client that decides:
//! which request each operation sends, and what each reply means for the
//! caller. It performs no network exchange itself. A caller builds a request
//! with one of the `*_request` methods of [`client::Client`], carries it to the
//! service over the channel the client holds, and hands the reply to the
//! method named after the operation, which turns it into a value or an error.

pub mod client;
pub mod collection;
pub mod error;
pub mod proto;
pub mod transport;
pub mod utils;
