use vstd::prelude::*;

use crate::qos::{CongestionControl, Priority, SampleKind};
use crate::query::ZenohexQueryReplyError;

verus! {

/// One published or retrieved datum, as it is posted to a host process:
/// payload bytes, their encoding, the kind of the sample, and the quality
/// of service it was sent with.
#[derive(Debug)]
pub struct ZenohexSample {
    pub attachment: Option<Vec<u8>>,
    pub congestion_control: CongestionControl,
    pub encoding: String,
    pub express: bool,
    pub key_expr: String,
    pub kind: SampleKind,
    pub payload: Vec<u8>,
    pub priority: Priority,
    pub timestamp: Option<String>,
}

/// One reply to a `get`: either a sample or an error payload.
#[derive(Debug)]
pub enum Reply {
    Sample(ZenohexSample),
    ReplyError(ZenohexQueryReplyError),
}

} // verus!
