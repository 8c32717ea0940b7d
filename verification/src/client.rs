//! The client: one connection to the service, and what each
//! collection-lifecycle operation sends and makes of the reply.

use vstd::prelude::*;
use std::sync::Arc;
use tonic::transport::Channel;
use crate::collection::{Collection, CollectionView};
use crate::error::ClientError;
use crate::proto::common::{ErrorCode, MsgType, ResponseStatus};
use crate::proto::milvus::{
    BoolResponse,
    CreateCollectionRequest,
    CreateCollectionRequestView,
    DropCollectionRequest,
    DropCollectionRequestView,
    HasCollectionRequest,
    HasCollectionRequestView,
};
use crate::transport::share;
use crate::utils::{new_msg, spec_new_msg};

pub use crate::proto::common::ConsistencyLevel;

verus! {

/// A connected client. It exists only once a connection has come about, so
/// every operation on it has a channel to go over.
#[derive(Debug)]
pub struct Client {
    channel: Arc<Channel>,
}

impl View for Client {
    type V = Channel;

    /// The connection that the client owns.
    closed spec fn view(&self) -> Channel {
        *self.channel
    }
}

impl Clone for Client {
    /// A second client on the same connection.
    fn clone(&self) -> (other: Client)
        ensures
            other@ == self@,
    {
        Client { channel: share(&self.channel) }
    }
}

impl Client {
    /// The request that asks for the collection `name` to be created with
    /// the encoded definition `schema`.
    pub open spec fn spec_create_collection_request(
        name: Seq<char>,
        schema: Seq<u8>,
        shards_num: i32,
        consistency_level: ConsistencyLevel,
    ) -> CreateCollectionRequestView {
        CreateCollectionRequestView {
            base: Some(spec_new_msg(MsgType::CreateCollection)),
            db_name: Seq::empty(),
            collection_name: name,
            schema,
            shards_num,
            consistency_level: consistency_level.spec_code(),
        }
    }

    /// The request that asks for the collection `name` to be dropped.
    pub open spec fn spec_drop_collection_request(name: Seq<char>) -> DropCollectionRequestView {
        DropCollectionRequestView {
            base: Some(spec_new_msg(MsgType::DropCollection)),
            db_name: Seq::empty(),
            collection_name: name,
        }
    }

    /// The request that asks whether the collection `name` exists.
    pub open spec fn spec_has_collection_request(name: Seq<char>) -> HasCollectionRequestView {
        HasCollectionRequestView {
            base: Some(spec_new_msg(MsgType::HasCollection)),
            db_name: Seq::empty(),
            collection_name: name,
            time_stamp: 0,
        }
    }

    /// What the reply to a call that only acknowledges means: the failure of
    /// the exchange where there was one, else what the verdict reports.
    pub open spec fn spec_acknowledged(reply: Result<ResponseStatus, tonic::Status>) -> Result<
        (),
        ClientError,
    > {
        match reply {
            Ok(status) => status.outcome(),
            Err(cause) => Err(ClientError::Communication(cause)),
        }
    }

    /// What the reply to an existence query means: the failure of the
    /// exchange where there was one; a protocol violation where the reply
    /// carries no verdict; else the flag under a verdict of success, and
    /// what the verdict reports under any other.
    pub open spec fn spec_has_collection(reply: Result<BoolResponse, tonic::Status>) -> Result<
        bool,
        ClientError,
    > {
        match reply {
            Ok(response) => match response.status {
                Some(status) => match status.outcome() {
                    Ok(_) => Ok(response.value),
                    Err(e) => Err(e),
                },
                None => Err(ClientError::Unknown),
            },
            Err(cause) => Err(ClientError::Communication(cause)),
        }
    }

    /// The handle for the collection `name` on this client's connection.
    pub open spec fn spec_handle(&self, name: Seq<char>) -> CollectionView {
        CollectionView { channel: self@, name }
    }

    /// Whether `r` is what a create request for `name` comes to under
    /// `reply`: the handle for `name` where the reply acknowledges with
    /// success, else the error that the reply amounts to.
    pub open spec fn spec_create_collection(
        &self,
        name: Seq<char>,
        reply: Result<ResponseStatus, tonic::Status>,
        r: Result<Collection, ClientError>,
    ) -> bool {
        match Self::spec_acknowledged(reply) {
            Ok(_) => r matches Ok(handle) && handle@ == self.spec_handle(name),
            Err(e) => r matches Err(e2) && e2 == e,
        }
    }

    /// Whether `r` is what a lookup of `name` comes to under `reply`. The
    /// lookup is the existence query and nothing else: a handle for `name`
    /// where the query answers yes, `None` where it answers no, and the
    /// query's own error where it fails.
    pub open spec fn spec_get_collection(
        &self,
        name: Seq<char>,
        reply: Result<BoolResponse, tonic::Status>,
        r: Result<Option<Collection>, ClientError>,
    ) -> bool {
        match Self::spec_has_collection(reply) {
            Ok(true) => r matches Ok(Some(handle)) && handle@ == self.spec_handle(name),
            Ok(false) => r matches Ok(None),
            Err(e) => r matches Err(e2) && e2 == e,
        }
    }

    /// Makes a client of the outcome of a connection attempt: a client that
    /// owns the channel where one was established, else the failure of the
    /// transport as a connection error.
    pub fn new(attempt: Result<Channel, tonic::transport::Error>) -> (r: Result<Client, ClientError>)
        ensures
            match attempt {
                Ok(channel) => r matches Ok(client) && client@ == channel,
                Err(cause) => r matches Err(ClientError::Connection(e)) && e == cause,
            },
    {
        match attempt {
            Ok(channel) => Ok(Client { channel: Arc::new(channel) }),
            Err(cause) => Err(ClientError::Connection(cause)),
        }
    }

    /// The connection that the client owns.
    pub fn channel(&self) -> (channel: &Arc<Channel>)
        ensures
            **channel == self@,
    {
        &self.channel
    }

    /// Builds the request that creates the collection `name`. `schema` is
    /// the outcome of encoding the collection's definition: where the
    /// encoding failed there is no request, and so nothing to send.
    pub fn create_collection_request(
        &self,
        name: &str,
        schema: Result<Vec<u8>, prost::EncodeError>,
        shards_num: i32,
        consistency_level: ConsistencyLevel,
    ) -> (r: Result<CreateCollectionRequest, ClientError>)
        ensures
            match schema {
                Ok(bytes) => r matches Ok(request) && request@
                    == Self::spec_create_collection_request(
                    name@,
                    bytes@,
                    shards_num,
                    consistency_level,
                ),
                Err(cause) => r matches Err(ClientError::Encoding(e)) && e == cause,
            },
            r is Ok <==> schema is Ok,
    {
        match schema {
            Ok(bytes) => Ok(
                CreateCollectionRequest {
                    base: Some(new_msg(MsgType::CreateCollection)),
                    db_name: String::new(),
                    collection_name: name.to_owned(),
                    schema: bytes,
                    shards_num,
                    consistency_level: consistency_level.code(),
                },
            ),
            Err(cause) => Err(ClientError::Encoding(cause)),
        }
    }

    /// Makes of the reply to a create request the handle for the created
    /// collection, or the error that the reply amounts to.
    pub fn create_collection(&self, name: &str, reply: Result<ResponseStatus, tonic::Status>) -> (r:
        Result<Collection, ClientError>)
        ensures
            self.spec_create_collection(name@, reply, r),
            r is Ok <==> (reply matches Ok(status) && status.error_code
                == ErrorCode::Success.spec_code()),
    {
        match reply {
            Ok(status) => match status.into_result() {
                Ok(_) => Ok(Collection::new(share(&self.channel), name.to_owned())),
                Err(e) => Err(e),
            },
            Err(cause) => Err(ClientError::Communication(cause)),
        }
    }

    /// Builds the request that drops the collection `name`.
    pub fn drop_collection_request(&self, name: &str) -> (request: DropCollectionRequest)
        ensures
            request@ == Self::spec_drop_collection_request(name@),
    {
        DropCollectionRequest {
            base: Some(new_msg(MsgType::DropCollection)),
            db_name: String::new(),
            collection_name: name.to_owned(),
        }
    }

    /// Makes of the reply to a drop request success, or the error that the
    /// reply amounts to.
    pub fn drop_collection(&self, reply: Result<ResponseStatus, tonic::Status>) -> (r: Result<
        (),
        ClientError,
    >)
        ensures
            r == Self::spec_acknowledged(reply),
    {
        match reply {
            Ok(status) => status.into_result(),
            Err(cause) => Err(ClientError::Communication(cause)),
        }
    }

    /// Builds the request that asks whether the collection `name` exists.
    pub fn has_collection_request(&self, name: &str) -> (request: HasCollectionRequest)
        ensures
            request@ == Self::spec_has_collection_request(name@),
    {
        HasCollectionRequest {
            base: Some(new_msg(MsgType::HasCollection)),
            db_name: String::new(),
            collection_name: name.to_owned(),
            time_stamp: 0,
        }
    }

    /// Makes of the reply to an existence query the answer, or the error that
    /// the reply amounts to.
    pub fn has_collection(&self, reply: Result<BoolResponse, tonic::Status>) -> (r: Result<
        bool,
        ClientError,
    >)
        ensures
            r == Self::spec_has_collection(reply),
    {
        match reply {
            Ok(response) => match response.status {
                Some(status) => match status.into_result() {
                    Ok(_) => Ok(response.value),
                    Err(e) => Err(e),
                },
                None => Err(ClientError::Unknown),
            },
            Err(cause) => Err(ClientError::Communication(cause)),
        }
    }

    /// Makes of the reply to an existence query for the collection `name` a
    /// handle for it where it exists and `None` where it does not; an error
    /// of the query comes back as it is.
    pub fn get_collection(&self, name: &str, reply: Result<BoolResponse, tonic::Status>) -> (r:
        Result<Option<Collection>, ClientError>)
        ensures
            self.spec_get_collection(name@, reply, r),
    {
        match self.has_collection(reply) {
            Ok(true) => Ok(Some(Collection::new(share(&self.channel), name.to_owned()))),
            Ok(false) => Ok(None),
            Err(e) => Err(e),
        }
    }

    /// An acknowledgement succeeds on one kind of reply alone: one that
    /// arrived and whose verdict carries the code `Success`.
    pub proof fn lemma_acknowledged_on_success_alone(reply: Result<ResponseStatus, tonic::Status>)
        ensures
            Self::spec_acknowledged(reply) is Ok <==> (reply matches Ok(status)
                && status.error_code == ErrorCode::Success.spec_code()),
    {
    }

    /// An existence query is answered on one kind of reply alone: one that
    /// arrived, carries a verdict, and whose verdict has the code `Success`.
    /// The answer is then the reply's flag.
    pub proof fn lemma_answered_on_success_alone(reply: Result<BoolResponse, tonic::Status>)
        ensures
            Self::spec_has_collection(reply) is Ok <==> (reply matches Ok(response)
                && response.status matches Some(status) && status.error_code
                == ErrorCode::Success.spec_code()),
            Self::spec_has_collection(reply) matches Ok(answer) ==> (reply matches Ok(response)
                && answer == response.value),
    {
    }

    /// A reply to an existence query that carries no verdict is a protocol
    /// violation, whatever its flag says.
    pub proof fn lemma_missing_verdict_is_unknown(value: bool)
        ensures
            Self::spec_has_collection(Ok(BoolResponse { status: None, value })) == Err::<
                bool,
                ClientError,
            >(ClientError::Unknown),
    {
    }

    /// A lookup follows the existence query: it yields a handle, bound to the
    /// name that was looked up, exactly where the query answers yes; `None`
    /// exactly where the query answers no; and fails exactly where the query
    /// fails, with the query's own error.
    pub proof fn lemma_lookup_follows_query(
        &self,
        name: Seq<char>,
        reply: Result<BoolResponse, tonic::Status>,
        found: Result<Option<Collection>, ClientError>,
    )
        requires
            self.spec_get_collection(name, reply, found),
        ensures
            found matches Ok(Some(_)) <==> Self::spec_has_collection(reply) == Ok::<
                bool,
                ClientError,
            >(true),
            found matches Ok(None) <==> Self::spec_has_collection(reply) == Ok::<
                bool,
                ClientError,
            >(false),
            found matches Ok(Some(handle)) ==> handle@.name == name && handle@.channel == self@,
            found matches Err(e) ==> Self::spec_has_collection(reply) == Err::<bool, ClientError>(e),
            found is Err <==> Self::spec_has_collection(reply) is Err,
    {
    }

    /// A create request for a name, followed by a drop request for the same
    /// name: where the service acknowledges both with success, the first
    /// yields the handle for the name and the second yields success. Both
    /// requests carry that one name.
    pub proof fn lemma_create_then_drop(
        &self,
        name: Seq<char>,
        schema: Seq<u8>,
        shards_num: i32,
        consistency_level: ConsistencyLevel,
        created: ResponseStatus,
        dropped: ResponseStatus,
        first: Result<Collection, ClientError>,
        second: Result<(), ClientError>,
    )
        requires
            created.error_code == ErrorCode::Success.spec_code(),
            dropped.error_code == ErrorCode::Success.spec_code(),
            self.spec_create_collection(name, Ok(created), first),
            second == Self::spec_acknowledged(Ok(dropped)),
        ensures
            first matches Ok(handle) && handle@ == self.spec_handle(name),
            second == Ok::<(), ClientError>(()),
            Self::spec_create_collection_request(
                name,
                schema,
                shards_num,
                consistency_level,
            ).collection_name == Self::spec_drop_collection_request(name).collection_name,
    {
    }
}

} // verus!
