//! Broker delivery options: acknowledgement levels and fallback offsets,
//! parsed from the small integer codes the operator supplies.

use vstd::prelude::*;

verus! {

/// How many broker replicas must confirm a write before it counts as sent.
#[derive(Clone, Copy, Debug, PartialEq, Eq, Structural)]
pub enum AckLevel {
    /// No confirmation required.
    NoAck,
    /// The topic leader must confirm.
    Leader,
    /// Every replica must confirm.
    All,
}

/// Where a consumer without a committed offset starts reading.
#[derive(Clone, Copy, Debug, PartialEq, Eq, Structural)]
pub enum OffsetPolicy {
    Earliest,
    Latest,
}

/// Options for the replication pipeline: fallback offset code, consumer
/// group, required-acknowledgement code, and producer ack timeout in
/// milliseconds.
pub struct KafkaConfig {
    pub offset: i8,
    pub group: String,
    pub required_acks: i8,
    pub producer_timeout_ms: u64,
}

/// Maps an acknowledgement code to its level: 0 is none, 1 is leader,
/// -1 is all; every other code is rejected.
pub fn parse_required_acks(required_acks: i8) -> (r: Result<AckLevel, &'static str>)
    ensures
        required_acks == 0 ==> r == Ok::<AckLevel, &'static str>(AckLevel::NoAck),
        required_acks == 1 ==> r == Ok::<AckLevel, &'static str>(AckLevel::Leader),
        required_acks == -1 ==> r == Ok::<AckLevel, &'static str>(AckLevel::All),
        (required_acks != 0 && required_acks != 1 && required_acks != -1) ==> (match r {
            Ok(_) => false,
            Err(e) => e@ == "unknown required acks"@,
        }),
{
    match required_acks {
        0 => Ok(AckLevel::NoAck),
        1 => Ok(AckLevel::Leader),
        -1 => Ok(AckLevel::All),
        _ => Err("unknown required acks"),
    }
}

/// Maps a fallback-offset code to its policy: 0 is earliest, 1 is latest;
/// every other code is rejected.
pub fn parse_offset(fallback_offset: i8) -> (r: Result<OffsetPolicy, &'static str>)
    ensures
        fallback_offset == 0 ==> r == Ok::<OffsetPolicy, &'static str>(OffsetPolicy::Earliest),
        fallback_offset == 1 ==> r == Ok::<OffsetPolicy, &'static str>(OffsetPolicy::Latest),
        (fallback_offset != 0 && fallback_offset != 1) ==> (match r {
            Ok(_) => false,
            Err(e) => e@ == "unknown fallback offset"@,
        }),
{
    match fallback_offset {
        0 => Ok(OffsetPolicy::Earliest),
        1 => Ok(OffsetPolicy::Latest),
        _ => Err("unknown fallback offset"),
    }
}

} // verus!
