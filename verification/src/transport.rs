//! What the library has from the transport and codec crates.
//!
//! The library never looks inside a value of these types. It keeps the
//! channel for the caller, who performs the exchanges, and hands failures of
//! the transport and of the codec on as it received them.

use vstd::prelude::*;
use std::sync::Arc;

verus! {

/// `tonic::transport::Channel`, the connection to the service. Nothing is
/// claimed of what it holds.
#[verifier::external_type_specification]
#[verifier::external_body]
pub struct ExChannel(tonic::transport::Channel);

/// `tonic::transport::Error`, the reason why no connection came about.
/// Nothing is claimed of what it holds.
#[verifier::external_type_specification]
#[verifier::external_body]
pub struct ExConnectError(tonic::transport::Error);

/// `tonic::Status`, the reason why an exchange with the service broke down.
/// Nothing is claimed of what it holds.
#[verifier::external_type_specification]
#[verifier::external_body]
pub struct ExRpcStatus(tonic::Status);

/// `prost::EncodeError`, the reason why a message could not be encoded.
/// Nothing is claimed of what it holds.
#[verifier::external_type_specification]
#[verifier::external_body]
pub struct ExEncodeError(prost::EncodeError);

/// `Arc::clone` of std: a second pointer to the channel that `channel` points
/// to. The contract claims that both point to the same channel, which is what
/// std documents of it ("another pointer to the same allocation").
#[verifier::external_body]
pub(crate) fn share(channel: &Arc<tonic::transport::Channel>) -> (shared: Arc<
    tonic::transport::Channel,
>)
    ensures
        shared == *channel,
{
    Arc::clone(channel)
}

} // verus!
