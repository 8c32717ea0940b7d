//! Enumerations and messages shared by every call.

use vstd::prelude::*;

verus! {

/// Result code that the service attaches to every reply.
///
/// `Success` is the only code that reports a call as carried out.
#[derive(Clone, Copy, Debug, PartialEq, Eq, Structural)]
pub enum ErrorCode {
    Success,
    UnexpectedError,
    ConnectFailed,
    PermissionDenied,
    CollectionNotExists,
    IllegalArgument,
    IllegalDimension,
    IllegalIndexType,
    IllegalCollectionName,
    IllegalTopk,
    IllegalRowRecord,
    IllegalVectorId,
    IllegalSearchResult,
    FileNotFound,
    MetaFailed,
    CacheFailed,
    CannotCreateFolder,
    CannotCreateFile,
    CannotDeleteFolder,
    CannotDeleteFile,
    BuildIndexError,
    IllegalNlist,
    IllegalMetricType,
    OutOfMemory,
    IndexNotExist,
    EmptyCollection,
    DdRequestRace,
}

impl ErrorCode {
    /// The number that stands for this code on the wire.
    pub open spec fn spec_code(self) -> i32 {
        match self {
            ErrorCode::Success => 0,
            ErrorCode::UnexpectedError => 1,
            ErrorCode::ConnectFailed => 2,
            ErrorCode::PermissionDenied => 3,
            ErrorCode::CollectionNotExists => 4,
            ErrorCode::IllegalArgument => 5,
            ErrorCode::IllegalDimension => 7,
            ErrorCode::IllegalIndexType => 8,
            ErrorCode::IllegalCollectionName => 9,
            ErrorCode::IllegalTopk => 10,
            ErrorCode::IllegalRowRecord => 11,
            ErrorCode::IllegalVectorId => 12,
            ErrorCode::IllegalSearchResult => 13,
            ErrorCode::FileNotFound => 14,
            ErrorCode::MetaFailed => 15,
            ErrorCode::CacheFailed => 16,
            ErrorCode::CannotCreateFolder => 17,
            ErrorCode::CannotCreateFile => 18,
            ErrorCode::CannotDeleteFolder => 19,
            ErrorCode::CannotDeleteFile => 20,
            ErrorCode::BuildIndexError => 21,
            ErrorCode::IllegalNlist => 22,
            ErrorCode::IllegalMetricType => 23,
            ErrorCode::OutOfMemory => 24,
            ErrorCode::IndexNotExist => 25,
            ErrorCode::EmptyCollection => 26,
            ErrorCode::DdRequestRace => 1000,
        }
    }

    /// The code whose number is `value`; `None` where the enumeration has no
    /// code of that number.
    pub open spec fn spec_from_i32(value: i32) -> Option<ErrorCode> {
        match value {
            0 => Some(ErrorCode::Success),
            1 => Some(ErrorCode::UnexpectedError),
            2 => Some(ErrorCode::ConnectFailed),
            3 => Some(ErrorCode::PermissionDenied),
            4 => Some(ErrorCode::CollectionNotExists),
            5 => Some(ErrorCode::IllegalArgument),
            7 => Some(ErrorCode::IllegalDimension),
            8 => Some(ErrorCode::IllegalIndexType),
            9 => Some(ErrorCode::IllegalCollectionName),
            10 => Some(ErrorCode::IllegalTopk),
            11 => Some(ErrorCode::IllegalRowRecord),
            12 => Some(ErrorCode::IllegalVectorId),
            13 => Some(ErrorCode::IllegalSearchResult),
            14 => Some(ErrorCode::FileNotFound),
            15 => Some(ErrorCode::MetaFailed),
            16 => Some(ErrorCode::CacheFailed),
            17 => Some(ErrorCode::CannotCreateFolder),
            18 => Some(ErrorCode::CannotCreateFile),
            19 => Some(ErrorCode::CannotDeleteFolder),
            20 => Some(ErrorCode::CannotDeleteFile),
            21 => Some(ErrorCode::BuildIndexError),
            22 => Some(ErrorCode::IllegalNlist),
            23 => Some(ErrorCode::IllegalMetricType),
            24 => Some(ErrorCode::OutOfMemory),
            25 => Some(ErrorCode::IndexNotExist),
            26 => Some(ErrorCode::EmptyCollection),
            1000 => Some(ErrorCode::DdRequestRace),
            _ => None,
        }
    }

    /// Whether the enumeration has a code of the number `value`.
    pub open spec fn spec_is_valid(value: i32) -> bool {
        Self::spec_from_i32(value) is Some
    }

    /// Reading a code's number back gives the code again, so no two codes
    /// share a number.
    pub proof fn lemma_from_i32_of_code(c: ErrorCode)
        ensures
            Self::spec_from_i32(c.spec_code()) == Some(c),
    {
    }

    /// A number is read as a code exactly when that code has the number.
    pub proof fn lemma_from_i32_inverts_code(value: i32, c: ErrorCode)
        ensures
            Self::spec_from_i32(value) == Some(c) <==> c.spec_code() == value,
    {
    }

    /// The numbers that are read as no code are those that no code has.
    pub proof fn lemma_unknown_number(value: i32)
        ensures
            Self::spec_from_i32(value) is None <==> forall|c: ErrorCode|
                #[trigger] c.spec_code() != value,
    {
        match Self::spec_from_i32(value) {
            Some(c) => {
                Self::lemma_from_i32_inverts_code(value, c);
            },
            None => {
                assert forall|c: ErrorCode| #[trigger] c.spec_code() != value by {
                    Self::lemma_from_i32_inverts_code(value, c);
                }
            },
        }
    }

    /// The number that stands for this code on the wire.
    #[verifier::when_used_as_spec(spec_code)]
    pub fn code(self) -> (n: i32)
        ensures
            n == self.spec_code(),
    {
        match self {
            ErrorCode::Success => 0,
            ErrorCode::UnexpectedError => 1,
            ErrorCode::ConnectFailed => 2,
            ErrorCode::PermissionDenied => 3,
            ErrorCode::CollectionNotExists => 4,
            ErrorCode::IllegalArgument => 5,
            ErrorCode::IllegalDimension => 7,
            ErrorCode::IllegalIndexType => 8,
            ErrorCode::IllegalCollectionName => 9,
            ErrorCode::IllegalTopk => 10,
            ErrorCode::IllegalRowRecord => 11,
            ErrorCode::IllegalVectorId => 12,
            ErrorCode::IllegalSearchResult => 13,
            ErrorCode::FileNotFound => 14,
            ErrorCode::MetaFailed => 15,
            ErrorCode::CacheFailed => 16,
            ErrorCode::CannotCreateFolder => 17,
            ErrorCode::CannotCreateFile => 18,
            ErrorCode::CannotDeleteFolder => 19,
            ErrorCode::CannotDeleteFile => 20,
            ErrorCode::BuildIndexError => 21,
            ErrorCode::IllegalNlist => 22,
            ErrorCode::IllegalMetricType => 23,
            ErrorCode::OutOfMemory => 24,
            ErrorCode::IndexNotExist => 25,
            ErrorCode::EmptyCollection => 26,
            ErrorCode::DdRequestRace => 1000,
        }
    }

    /// Reads a number off the wire as a code; `None` where the enumeration
    /// has no code of that number.
    #[verifier::when_used_as_spec(spec_from_i32)]
    pub fn from_i32(value: i32) -> (r: Option<ErrorCode>)
        ensures
            r == Self::spec_from_i32(value),
            r matches Some(c) ==> c.spec_code() == value,
            r is None ==> forall|c: ErrorCode| #[trigger] c.spec_code() != value,
    {
        proof {
            Self::lemma_unknown_number(value);
        }
        match value {
            0 => Some(ErrorCode::Success),
            1 => Some(ErrorCode::UnexpectedError),
            2 => Some(ErrorCode::ConnectFailed),
            3 => Some(ErrorCode::PermissionDenied),
            4 => Some(ErrorCode::CollectionNotExists),
            5 => Some(ErrorCode::IllegalArgument),
            7 => Some(ErrorCode::IllegalDimension),
            8 => Some(ErrorCode::IllegalIndexType),
            9 => Some(ErrorCode::IllegalCollectionName),
            10 => Some(ErrorCode::IllegalTopk),
            11 => Some(ErrorCode::IllegalRowRecord),
            12 => Some(ErrorCode::IllegalVectorId),
            13 => Some(ErrorCode::IllegalSearchResult),
            14 => Some(ErrorCode::FileNotFound),
            15 => Some(ErrorCode::MetaFailed),
            16 => Some(ErrorCode::CacheFailed),
            17 => Some(ErrorCode::CannotCreateFolder),
            18 => Some(ErrorCode::CannotCreateFile),
            19 => Some(ErrorCode::CannotDeleteFolder),
            20 => Some(ErrorCode::CannotDeleteFile),
            21 => Some(ErrorCode::BuildIndexError),
            22 => Some(ErrorCode::IllegalNlist),
            23 => Some(ErrorCode::IllegalMetricType),
            24 => Some(ErrorCode::OutOfMemory),
            25 => Some(ErrorCode::IndexNotExist),
            26 => Some(ErrorCode::EmptyCollection),
            1000 => Some(ErrorCode::DdRequestRace),
            _ => None,
        }
    }

    /// Whether the enumeration has a code of the number `value`.
    #[verifier::when_used_as_spec(spec_is_valid)]
    pub fn is_valid(value: i32) -> (b: bool)
        ensures
            b == Self::spec_is_valid(value),
    {
        Self::from_i32(value).is_some()
    }
}

/// Tag in a request's header that names the call the request belongs to.
#[derive(Clone, Copy, Debug, PartialEq, Eq, Structural)]
pub enum MsgType {
    CreateCollection,
    DropCollection,
    HasCollection,
}

impl MsgType {
    /// The number that stands for this tag on the wire.
    pub open spec fn spec_code(self) -> i32 {
        match self {
            MsgType::CreateCollection => 100,
            MsgType::DropCollection => 101,
            MsgType::HasCollection => 102,
        }
    }

    /// The number that stands for this tag on the wire.
    #[verifier::when_used_as_spec(spec_code)]
    pub fn code(self) -> (n: i32)
        ensures
            n == self.spec_code(),
    {
        match self {
            MsgType::CreateCollection => 100,
            MsgType::DropCollection => 101,
            MsgType::HasCollection => 102,
        }
    }
}

/// How fresh the data must be that later reads of a collection see.
#[derive(Clone, Copy, Debug, PartialEq, Eq, Structural)]
pub enum ConsistencyLevel {
    Strong,
    Session,
    Bounded,
    Eventually,
    Customized,
}

impl ConsistencyLevel {
    /// The number that stands for this level on the wire.
    pub open spec fn spec_code(self) -> i32 {
        match self {
            ConsistencyLevel::Strong => 0,
            ConsistencyLevel::Session => 1,
            ConsistencyLevel::Bounded => 2,
            ConsistencyLevel::Eventually => 3,
            ConsistencyLevel::Customized => 4,
        }
    }

    /// The number that stands for this level on the wire.
    #[verifier::when_used_as_spec(spec_code)]
    pub fn code(self) -> (n: i32)
        ensures
            n == self.spec_code(),
    {
        match self {
            ConsistencyLevel::Strong => 0,
            ConsistencyLevel::Session => 1,
            ConsistencyLevel::Bounded => 2,
            ConsistencyLevel::Eventually => 3,
            ConsistencyLevel::Customized => 4,
        }
    }
}

/// Header that every request carries.
#[derive(Clone, Copy, Debug, PartialEq, Eq, Structural)]
pub struct MsgBase {
    /// Number of the [`MsgType`] of the call.
    pub msg_type: i32,
    pub msg_id: i64,
    pub timestamp: u64,
    pub source_id: i64,
}

/// Verdict of the service on a call.
#[derive(Debug)]
pub struct ResponseStatus {
    /// Number of an [`ErrorCode`], as it came off the wire.
    pub error_code: i32,
    /// Explanation that the service gives for a failure.
    pub reason: String,
}

} // verus!
