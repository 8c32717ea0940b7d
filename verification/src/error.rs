//! The ways in which an operation of the client fails.

use vstd::prelude::*;
use crate::proto::common::{ErrorCode, ResponseStatus};

verus! {

/// Why an operation did not yield its value.
#[derive(Debug)]
pub enum ClientError {
    /// No connection to the service came about.
    Connection(tonic::transport::Error),
    /// The exchange with the service broke down before a reply arrived.
    Communication(tonic::Status),
    /// The service replied and reported a failure: its code and its
    /// explanation, as they came.
    Remote(ErrorCode, String),
    /// A message could not be put into its wire encoding, so nothing was sent.
    Encoding(prost::EncodeError),
    /// The reply broke the protocol: it carried no verdict, or a code that
    /// the enumeration does not have.
    Unknown,
}

impl ResponseStatus {
    /// What a verdict means for the call: success for the code `Success`,
    /// the service's failure for every other code of the enumeration, a
    /// protocol violation for a number that is no code.
    pub open spec fn outcome(self) -> Result<(), ClientError> {
        match ErrorCode::spec_from_i32(self.error_code) {
            Some(ErrorCode::Success) => Ok(()),
            Some(code) => Err(ClientError::Remote(code, self.reason)),
            None => Err(ClientError::Unknown),
        }
    }

    /// Turns the verdict into the success or the failure that it reports.
    pub fn into_result(self) -> (r: Result<(), ClientError>)
        ensures
            r == self.outcome(),
            r is Ok <==> self.error_code == ErrorCode::Success.spec_code(),
    {
        match ErrorCode::from_i32(self.error_code) {
            Some(ErrorCode::Success) => Ok(()),
            Some(code) => Err(ClientError::Remote(code, self.reason)),
            None => Err(ClientError::Unknown),
        }
    }

    /// Of all numbers, that of `Success` alone reports success. Every other
    /// number reports a failure: the service's own where the number is a code,
    /// a protocol violation where it is none.
    pub proof fn lemma_only_success_succeeds(self)
        ensures
            self.outcome() is Ok <==> self.error_code == ErrorCode::Success.spec_code(),
            self.outcome() matches Err(e) ==> (e is Remote || e is Unknown),
            self.outcome() matches Err(e) ==> (e is Unknown <==> !ErrorCode::spec_is_valid(
                self.error_code,
            )),
            self.outcome() matches Err(ClientError::Remote(code, reason)) ==> {
                &&& code.spec_code() == self.error_code
                &&& code != ErrorCode::Success
                &&& reason == self.reason
            },
    {
    }
}

} // verus!
