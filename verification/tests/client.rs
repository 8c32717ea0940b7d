use std::sync::Arc;

use milvus::client::{Client, ConsistencyLevel};
use milvus::collection::Collection;
use milvus::error::ClientError;
use milvus::proto::common::{ErrorCode, MsgBase, ResponseStatus};
use milvus::proto::milvus::BoolResponse;
use prost::Message;
use tokio::runtime::{Builder, Runtime};
use tonic::transport::Endpoint;
use tonic::Code;

/// A client on a channel that has not yet dialled, and the runtime that the
/// channel's worker belongs to.
fn connected() -> (Runtime, Client) {
    let runtime = Builder::new_current_thread().enable_all().build().unwrap();
    let channel = {
        let _context = runtime.enter();
        Endpoint::from_static("http://127.0.0.1:19530").connect_lazy()
    };
    let client = Client::new(Ok(channel)).unwrap();
    (runtime, client)
}

fn status(error_code: i32, reason: &str) -> ResponseStatus {
    ResponseStatus { error_code, reason: reason.to_string() }
}

fn flag(error_code: i32, reason: &str, value: bool) -> BoolResponse {
    BoolResponse { status: Some(status(error_code, reason)), value }
}

fn encode_failure() -> prost::EncodeError {
    let mut room = [0u8; 1];
    let mut buffer = &mut room[..];
    String::from("does not fit").encode(&mut buffer).unwrap_err()
}

#[test]
fn has_collection_returns_the_flag_on_success() {
    let (_runtime, client) = connected();
    assert!(matches!(client.has_collection(Ok(flag(0, "", true))), Ok(true)));
    assert!(matches!(client.has_collection(Ok(flag(0, "", false))), Ok(false)));
}

#[test]
fn has_collection_without_status_is_unknown_whatever_the_flag() {
    let (_runtime, client) = connected();
    for value in [true, false] {
        let reply = BoolResponse { status: None, value };
        assert!(matches!(client.has_collection(Ok(reply)), Err(ClientError::Unknown)));
    }
}

#[test]
fn has_collection_attaches_the_code_of_a_failure() {
    let (_runtime, client) = connected();
    for value in [true, false] {
        match client.has_collection(Ok(flag(3, "not for you", value))) {
            Err(ClientError::Remote(code, reason)) => {
                assert_eq!(code, ErrorCode::PermissionDenied);
                assert_eq!(reason, "not for you");
            }
            other => panic!("{:?}", other),
        }
    }
}

#[test]
fn has_collection_with_a_number_that_is_no_code_is_unknown() {
    let (_runtime, client) = connected();
    for number in [-1, 6, 27, 1001] {
        let got = client.has_collection(Ok(flag(number, "?", true)));
        assert!(matches!(got, Err(ClientError::Unknown)));
    }
}

#[test]
fn has_collection_hands_on_a_failed_exchange() {
    let (_runtime, client) = connected();
    let cause = tonic::Status::new(Code::Unavailable, "connection reset");
    match client.has_collection(Err(cause)) {
        Err(ClientError::Communication(got)) => {
            assert_eq!(got.code(), Code::Unavailable);
            assert_eq!(got.message(), "connection reset");
        }
        other => panic!("{:?}", other),
    }
}

#[test]
fn has_collection_request_asks_for_the_name() {
    let (_runtime, client) = connected();
    let request = client.has_collection_request("books");
    assert_eq!(
        request.base,
        Some(MsgBase { msg_type: 102, msg_id: 0, timestamp: 0, source_id: 0 })
    );
    assert_eq!(request.db_name, "");
    assert_eq!(request.collection_name, "books");
    assert_eq!(request.time_stamp, 0);
}

#[test]
fn get_collection_gives_a_handle_where_the_collection_exists() {
    let (_runtime, client) = connected();
    let handle = client.get_collection("x", Ok(flag(0, "", true))).unwrap().unwrap();
    assert_eq!(handle.name(), "x");
    assert!(Arc::ptr_eq(handle.channel(), client.channel()));
}

#[test]
fn get_collection_gives_none_where_the_collection_does_not_exist() {
    let (_runtime, client) = connected();
    assert!(matches!(client.get_collection("x", Ok(flag(0, "", false))), Ok(None)));
}

#[test]
fn get_collection_hands_on_the_errors_of_the_query() {
    let (_runtime, client) = connected();

    let cause = tonic::Status::new(Code::DeadlineExceeded, "too slow");
    match client.get_collection("x", Err(cause)) {
        Err(ClientError::Communication(got)) => {
            assert_eq!(got.code(), Code::DeadlineExceeded);
            assert_eq!(got.message(), "too slow");
        }
        other => panic!("{:?}", other),
    }

    match client.get_collection("x", Ok(flag(1, "boom", true))) {
        Err(ClientError::Remote(code, reason)) => {
            assert_eq!(code, ErrorCode::UnexpectedError);
            assert_eq!(reason, "boom");
        }
        other => panic!("{:?}", other),
    }

    let silent = BoolResponse { status: None, value: true };
    assert!(matches!(client.get_collection("x", Ok(silent)), Err(ClientError::Unknown)));
    assert!(matches!(client.get_collection("x", Ok(flag(6, "", true))), Err(ClientError::Unknown)));
}

#[test]
fn get_collection_agrees_with_has_collection() {
    let (_runtime, client) = connected();
    let replies = [(0, true), (0, false), (4, true), (4, false), (6, true), (1000, false)];
    for (number, value) in replies {
        let has = client.has_collection(Ok(flag(number, "r", value)));
        let get = client.get_collection("x", Ok(flag(number, "r", value)));
        match (has, get) {
            (Ok(true), Ok(Some(handle))) => assert_eq!(handle.name(), "x"),
            (Ok(false), Ok(None)) => {}
            (Err(ClientError::Remote(a, ra)), Err(ClientError::Remote(b, rb))) => {
                assert_eq!(a, b);
                assert_eq!(ra, rb);
            }
            (Err(ClientError::Unknown), Err(ClientError::Unknown)) => {}
            other => panic!("{:?}", other),
        }
    }
}

#[test]
fn a_handle_shares_the_connection_of_its_client() {
    let (_runtime, client) = connected();
    assert_eq!(Arc::strong_count(client.channel()), 1);
    let first = client.get_collection("a", Ok(flag(0, "", true))).unwrap().unwrap();
    assert_eq!(Arc::strong_count(client.channel()), 2);
    let second = client.create_collection("b", Ok(status(0, ""))).unwrap();
    assert_eq!(Arc::strong_count(client.channel()), 3);
    assert!(Arc::ptr_eq(first.channel(), second.channel()));
    drop(first);
    drop(second);
    assert_eq!(Arc::strong_count(client.channel()), 1);
}

#[test]
fn a_cloned_client_is_on_the_same_connection() {
    let (_runtime, client) = connected();
    let other = client.clone();
    assert!(Arc::ptr_eq(client.channel(), other.channel()));
    assert_eq!(Arc::strong_count(client.channel()), 2);
}

#[test]
fn create_collection_request_carries_what_it_was_given() {
    let (_runtime, client) = connected();
    let schema = String::from("a schema").encode_to_vec();
    assert_eq!(schema, b"\x0a\x08a schema".to_vec());
    let request = client
        .create_collection_request("books", Ok(schema.clone()), 2, ConsistencyLevel::Bounded)
        .unwrap();
    assert_eq!(
        request.base,
        Some(MsgBase { msg_type: 100, msg_id: 0, timestamp: 0, source_id: 0 })
    );
    assert_eq!(request.db_name, "");
    assert_eq!(request.collection_name, "books");
    assert_eq!(request.schema, schema);
    assert_eq!(request.shards_num, 2);
    assert_eq!(request.consistency_level, 2);
}

#[test]
fn create_collection_request_passes_each_consistency_level_as_its_number() {
    let (_runtime, client) = connected();
    let levels = [
        (ConsistencyLevel::Strong, 0),
        (ConsistencyLevel::Session, 1),
        (ConsistencyLevel::Bounded, 2),
        (ConsistencyLevel::Eventually, 3),
        (ConsistencyLevel::Customized, 4),
    ];
    for (level, number) in levels {
        let request = client.create_collection_request("c", Ok(vec![1, 2, 3]), 1, level).unwrap();
        assert_eq!(request.consistency_level, number);
    }
}

#[test]
fn create_collection_request_checks_neither_name_nor_shards() {
    let (_runtime, client) = connected();
    let request =
        client.create_collection_request("", Ok(Vec::new()), -7, ConsistencyLevel::Strong).unwrap();
    assert_eq!(request.collection_name, "");
    assert_eq!(request.schema, Vec::<u8>::new());
    assert_eq!(request.shards_num, -7);
}

#[test]
fn create_collection_sends_nothing_when_the_schema_does_not_encode() {
    let (_runtime, client) = connected();
    let failure = encode_failure();
    match client.create_collection_request("books", Err(failure), 2, ConsistencyLevel::Strong) {
        Err(ClientError::Encoding(got)) => {
            assert_eq!(got, failure);
            assert_eq!(got.required_capacity(), 14);
            assert_eq!(got.remaining(), 1);
        }
        other => panic!("{:?}", other),
    }
}

#[test]
fn create_collection_gives_a_handle_on_success() {
    let (_runtime, client) = connected();
    let handle = client.create_collection("books", Ok(status(0, ""))).unwrap();
    assert_eq!(handle.name(), "books");
    assert!(Arc::ptr_eq(handle.channel(), client.channel()));
}

#[test]
fn create_collection_twice_fails_the_second_time() {
    let (_runtime, client) = connected();
    assert!(client.create_collection("books", Ok(status(0, ""))).is_ok());
    match client.create_collection("books", Ok(status(1, "collection already exists"))) {
        Err(ClientError::Remote(code, reason)) => {
            assert_eq!(code, ErrorCode::UnexpectedError);
            assert_eq!(reason, "collection already exists");
        }
        other => panic!("{:?}", other),
    }
}

#[test]
fn create_collection_reports_protocol_and_transport_failures() {
    let (_runtime, client) = connected();
    assert!(matches!(client.create_collection("c", Ok(status(6, ""))), Err(ClientError::Unknown)));
    let cause = tonic::Status::new(Code::Internal, "stream closed");
    match client.create_collection("c", Err(cause)) {
        Err(ClientError::Communication(got)) => {
            assert_eq!(got.code(), Code::Internal);
            assert_eq!(got.message(), "stream closed");
        }
        other => panic!("{:?}", other),
    }
}

#[test]
fn drop_collection_request_names_the_collection() {
    let (_runtime, client) = connected();
    let request = client.drop_collection_request("books");
    assert_eq!(
        request.base,
        Some(MsgBase { msg_type: 101, msg_id: 0, timestamp: 0, source_id: 0 })
    );
    assert_eq!(request.db_name, "");
    assert_eq!(request.collection_name, "books");
}

#[test]
fn drop_collection_succeeds_on_success_alone() {
    let (_runtime, client) = connected();
    assert!(matches!(client.drop_collection(Ok(status(0, ""))), Ok(())));
    match client.drop_collection(Ok(status(4, "no such collection"))) {
        Err(ClientError::Remote(code, reason)) => {
            assert_eq!(code, ErrorCode::CollectionNotExists);
            assert_eq!(reason, "no such collection");
        }
        other => panic!("{:?}", other),
    }
    assert!(matches!(client.drop_collection(Ok(status(27, ""))), Err(ClientError::Unknown)));
    let cause = tonic::Status::new(Code::Cancelled, "gone");
    match client.drop_collection(Err(cause)) {
        Err(ClientError::Communication(got)) => assert_eq!(got.code(), Code::Cancelled),
        other => panic!("{:?}", other),
    }
}

#[test]
fn create_then_drop_both_succeed_when_both_replies_do() {
    let (_runtime, client) = connected();
    let name = "short lived";
    let created = client
        .create_collection_request(name, Ok(vec![0x0a, 0x00]), 1, ConsistencyLevel::Session)
        .unwrap();
    let handle = client.create_collection(name, Ok(status(0, ""))).unwrap();
    let dropped = client.drop_collection_request(name);
    let outcome = client.drop_collection(Ok(status(0, "")));
    assert_eq!(handle.name(), name);
    assert!(matches!(outcome, Ok(())));
    assert_eq!(created.collection_name, dropped.collection_name);
}

#[test]
fn a_failed_call_leaves_the_client_usable() {
    let (_runtime, client) = connected();
    let cause = tonic::Status::new(Code::Unavailable, "down");
    assert!(client.has_collection(Err(cause)).is_err());
    assert!(matches!(client.has_collection(Ok(flag(0, "", true))), Ok(true)));
    assert!(client.drop_collection(Ok(status(0, ""))).is_ok());
}

#[test]
fn a_handle_made_by_hand_holds_what_it_was_given() {
    let (_runtime, client) = connected();
    let handle = Collection::new(Arc::clone(client.channel()), String::from("by hand"));
    assert_eq!(handle.name(), "by hand");
    assert!(Arc::ptr_eq(handle.channel(), client.channel()));
}

#[test]
fn names_pass_through_untouched() {
    let (_runtime, client) = connected();
    for name in ["", " ", "books", "b\u{00fc}cher", "a/b c\\n"] {
        assert_eq!(client.has_collection_request(name).collection_name, name);
        assert_eq!(client.drop_collection_request(name).collection_name, name);
        let created = client.create_collection(name, Ok(status(0, ""))).unwrap();
        assert_eq!(created.name(), name);
        let found = client.get_collection(name, Ok(flag(0, "", true))).unwrap().unwrap();
        assert_eq!(found.name(), name);
    }
}
