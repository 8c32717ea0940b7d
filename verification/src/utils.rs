//! Helpers shared by the request builders.

use vstd::prelude::*;
use crate::proto::common::{MsgBase, MsgType};

verus! {

/// The header of a request of the call `mtype`: the call's tag, every other
/// field zero.
pub open spec fn spec_new_msg(mtype: MsgType) -> MsgBase {
    MsgBase { msg_type: mtype.spec_code(), msg_id: 0, timestamp: 0, source_id: 0 }
}

/// Builds the header of a request of the call `mtype`.
#[verifier::when_used_as_spec(spec_new_msg)]
pub fn new_msg(mtype: MsgType) -> (base: MsgBase)
    ensures
        base == spec_new_msg(mtype),
{
    MsgBase { msg_type: mtype.code(), msg_id: 0, timestamp: 0, source_id: 0 }
}

} // verus!
