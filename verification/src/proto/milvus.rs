//! Requests and replies of the collection-lifecycle calls.

use vstd::prelude::*;
use crate::proto::common::{MsgBase, ResponseStatus};

verus! {

/// Asks the service to create a collection.
#[derive(Debug)]
pub struct CreateCollectionRequest {
    pub base: Option<MsgBase>,
    pub db_name: String,
    pub collection_name: String,
    /// The collection's definition in its wire encoding.
    pub schema: Vec<u8>,
    pub shards_num: i32,
    /// Number of a [`crate::proto::common::ConsistencyLevel`].
    pub consistency_level: i32,
}

/// Asks the service to drop a collection.
#[derive(Debug)]
pub struct DropCollectionRequest {
    pub base: Option<MsgBase>,
    pub db_name: String,
    pub collection_name: String,
}

/// Asks the service whether a collection exists.
#[derive(Debug)]
pub struct HasCollectionRequest {
    pub base: Option<MsgBase>,
    pub db_name: String,
    pub collection_name: String,
    pub time_stamp: u64,
}

/// Reply that carries a yes or no beside the verdict.
#[derive(Debug)]
pub struct BoolResponse {
    pub status: Option<ResponseStatus>,
    pub value: bool,
}

/// A request to create a collection, its strings and bytes as sequences.
pub struct CreateCollectionRequestView {
    pub base: Option<MsgBase>,
    pub db_name: Seq<char>,
    pub collection_name: Seq<char>,
    pub schema: Seq<u8>,
    pub shards_num: i32,
    pub consistency_level: i32,
}

impl View for CreateCollectionRequest {
    type V = CreateCollectionRequestView;

    open spec fn view(&self) -> CreateCollectionRequestView {
        CreateCollectionRequestView {
            base: self.base,
            db_name: self.db_name@,
            collection_name: self.collection_name@,
            schema: self.schema@,
            shards_num: self.shards_num,
            consistency_level: self.consistency_level,
        }
    }
}

/// A request to drop a collection, its strings as sequences.
pub struct DropCollectionRequestView {
    pub base: Option<MsgBase>,
    pub db_name: Seq<char>,
    pub collection_name: Seq<char>,
}

impl View for DropCollectionRequest {
    type V = DropCollectionRequestView;

    open spec fn view(&self) -> DropCollectionRequestView {
        DropCollectionRequestView {
            base: self.base,
            db_name: self.db_name@,
            collection_name: self.collection_name@,
        }
    }
}

/// A request for the existence of a collection, its strings as sequences.
pub struct HasCollectionRequestView {
    pub base: Option<MsgBase>,
    pub db_name: Seq<char>,
    pub collection_name: Seq<char>,
    pub time_stamp: u64,
}

impl View for HasCollectionRequest {
    type V = HasCollectionRequestView;

    open spec fn view(&self) -> HasCollectionRequestView {
        HasCollectionRequestView {
            base: self.base,
            db_name: self.db_name@,
            collection_name: self.collection_name@,
            time_stamp: self.time_stamp,
        }
    }
}

} // verus!
