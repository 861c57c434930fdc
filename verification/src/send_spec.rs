//! Workload validation: an untrusted request becomes a validated,
//! immutable workload description or is rejected.

use vstd::prelude::*;
use crate::acks::AckLevel;

verus! {

/// Raw request fields for one production workload, exactly as the
/// operator submitted them; nothing about them is checked yet.
pub struct SendCfg {
    pub topic: String,
    pub payload: String,
    pub producer_count: u32,
    pub total_number_of_messages: u32,
    pub requested_required_acks: i8,
}

/// Why a workload request was rejected at creation time.
#[derive(Clone, Copy, Debug, PartialEq, Eq, Structural)]
pub enum ValidationError {
    /// The topic string is empty.
    EmptyTopic,
    /// A producer count of zero would make the partition computation
    /// undefined.
    ZeroProducers,
    /// The acknowledgement code is none of -1, 0 or 1.
    InvalidAcknowledgementLevel,
}

/// A validated workload: non-empty topic, at least one producer, and a
/// recognised acknowledgement level.
#[derive(Debug)]
pub struct SendSpec {
    pub topic: String,
    pub payload: String,
    pub producer_count: u32,
    pub total_number_of_messages: u32,
    pub required_acks: AckLevel,
}

impl SendSpec {
    /// What validation established: the partition computation is defined
    /// and the topic names a real destination.
    pub open spec fn wf(self) -> bool {
        self.topic@.len() > 0 && self.producer_count > 0
    }

    /// Each worker's share of the workload: floor division. When the total
    /// does not divide evenly, the remainder is intentionally dropped, so
    /// the workers together send `producer_count * (total / producer_count)`
    /// messages.
    pub open spec fn assigned_per_worker_spec(self) -> int {
        self.total_number_of_messages as int / self.producer_count as int
    }

    /// Computes each worker's fixed share of the total message count.
    pub fn assigned_per_worker(&self) -> (r: u32)
        requires
            self.wf(),
        ensures
            r == self.assigned_per_worker_spec(),
    {
        self.total_number_of_messages / self.producer_count
    }
}

/// Whether an acknowledgement code is one the broker client understands.
pub open spec fn acks_code_valid(code: i8) -> bool {
    code == -1 || code == 0 || code == 1
}

/// The level a valid acknowledgement code maps to: -1 is all, 0 is none,
/// 1 is leader.
pub open spec fn acks_level_of(code: i8) -> AckLevel {
    if code == -1 {
        AckLevel::All
    } else if code == 0 {
        AckLevel::NoAck
    } else {
        AckLevel::Leader
    }
}

impl SendCfg {
    /// The error an invalid request is rejected with, checked in this
    /// order: empty topic, zero producers, unknown acknowledgement code.
    pub open spec fn rejection(self) -> ValidationError {
        if self.topic@.len() == 0 {
            ValidationError::EmptyTopic
        } else if self.producer_count == 0 {
            ValidationError::ZeroProducers
        } else {
            ValidationError::InvalidAcknowledgementLevel
        }
    }

    /// Whether the raw request describes a well-formed workload.
    pub open spec fn valid(self) -> bool {
        self.topic@.len() > 0 && self.producer_count > 0
            && acks_code_valid(self.requested_required_acks)
    }

    /// Turns the raw request into a validated workload, or rejects it:
    /// the topic must be non-empty, the producer count positive, and the
    /// acknowledgement code one of -1, 0 or 1. No side effects.
    pub fn validate(&self) -> (r: Result<SendSpec, ValidationError>)
        ensures
            self.valid() ==> (match r {
                Ok(spec) => spec.wf()
                    && spec.topic@ == self.topic@
                    && spec.payload@ == self.payload@
                    && spec.producer_count == self.producer_count
                    && spec.total_number_of_messages == self.total_number_of_messages
                    && spec.required_acks == acks_level_of(self.requested_required_acks),
                Err(_) => false,
            }),
            !self.valid() ==> r == Err::<SendSpec, ValidationError>(self.rejection()),
    {
        if self.topic.as_str().unicode_len() == 0 {
            return Err(ValidationError::EmptyTopic);
        }
        if self.producer_count == 0 {
            return Err(ValidationError::ZeroProducers);
        }
        let required_acks: AckLevel = if self.requested_required_acks == -1 {
            AckLevel::All
        } else if self.requested_required_acks == 0 {
            AckLevel::NoAck
        } else if self.requested_required_acks == 1 {
            AckLevel::Leader
        } else {
            return Err(ValidationError::InvalidAcknowledgementLevel);
        };
        Ok(SendSpec {
            topic: self.topic.clone(),
            payload: self.payload.clone(),
            producer_count: self.producer_count,
            total_number_of_messages: self.total_number_of_messages,
            required_acks,
        })
    }
}

} // verus!
