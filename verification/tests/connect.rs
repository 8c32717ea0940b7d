use std::time::Duration;

use milvus::client::Client;
use milvus::error::ClientError;
use tokio::runtime::Builder;
use tonic::transport::Endpoint;

#[test]
fn a_malformed_endpoint_is_a_connection_error() {
    let attempt = Endpoint::from_shared("not an address").map(|endpoint| {
        let runtime = Builder::new_current_thread().enable_all().build().unwrap();
        let _context = runtime.enter();
        endpoint.connect_lazy()
    });
    assert!(attempt.is_err());
    match Client::new(attempt) {
        Err(ClientError::Connection(cause)) => assert_eq!(cause.to_string(), "invalid URI"),
        other => panic!("{:?}", other),
    }
}

#[test]
fn an_unreachable_endpoint_is_a_connection_error() {
    let runtime = Builder::new_current_thread().enable_all().build().unwrap();
    let endpoint =
        Endpoint::from_static("http://127.0.0.1:1").connect_timeout(Duration::from_secs(5));
    let attempt = runtime.block_on(endpoint.connect());
    match Client::new(attempt) {
        Err(ClientError::Connection(cause)) => assert_eq!(cause.to_string(), "transport error"),
        other => panic!("{:?}", other),
    }
}

#[test]
fn an_established_channel_makes_a_client() {
    let runtime = Builder::new_current_thread().enable_all().build().unwrap();
    let channel = {
        let _context = runtime.enter();
        Endpoint::from_static("http://127.0.0.1:19530").connect_lazy()
    };
    let client = Client::new(Ok(channel)).unwrap();
    assert_eq!(std::sync::Arc::strong_count(client.channel()), 1);
}
