//! The payload of the custom syscall: the computation the kernel runs for a
//! request, and what the kernel makes of what it returns.

use vstd::prelude::*;
use crate::error::SyscallError;
use crate::shared::{
    lemma_padding_keeps_the_bytes,
    result_view,
    zero_padded,
    FixedResult,
    FIXED_BUFFER_LEN,
};

verus! {

/// Why a payload did not deliver.
#[derive(Clone, Copy, Debug, PartialEq, Eq, Structural)]
pub enum PayloadFailure {
    /// The service behind the payload could not be reached.
    Unreachable,
    /// The service answered with something that could not be read.
    MalformedResponse,
}

/// The computation behind the custom syscall. The kernel decides when it
/// runs and what becomes of its answer; what it computes is its own affair.
pub trait Payload: Sized {
    /// Whether `outcome` is an answer the payload may give to the request.
    /// This is the payload's own word on itself: one that says nothing
    /// admits every outcome, one that is the same on every run admits one.
    open spec fn admits(
        &self,
        user_index: i64,
        user_activity_matrix: Seq<u8>,
        k: i64,
        outcome: Result<Seq<u8>, PayloadFailure>,
    ) -> bool {
        true
    }

    /// Whether a run may leave the payload as `after`. Like `admits`, this is
    /// the payload's own word on itself: one that says nothing may become
    /// anything, one that keeps no state of its own stays what it is.
    open spec fn may_become(&self, after: &Self) -> bool {
        true
    }

    /// Computes the answer to one request, as bytes of any length.
    fn run(&mut self, user_index: i64, user_activity_matrix: &[u8; 1000], k: i64) -> (outcome:
        Result<Vec<u8>, PayloadFailure>)
        ensures
            old(self).admits(user_index, user_activity_matrix@, k, outcome_view(outcome)),
            old(self).may_become(final(self)),
    ;
}

/// What a payload returned, with the bytes as a sequence.
pub open spec fn outcome_view(outcome: Result<Vec<u8>, PayloadFailure>) -> Result<
    Seq<u8>,
    PayloadFailure,
> {
    match outcome {
        Ok(bytes) => Ok(bytes@),
        Err(failure) => Err(failure),
    }
}

/// What the custom syscall makes of what its payload returned: an answer
/// that fits is zero-padded to the fixed size, one that does not is an
/// encoding error, and a failure of the payload is a failure of the call.
pub open spec fn spec_conclude(outcome: Result<Seq<u8>, PayloadFailure>) -> Result<
    Seq<u8>,
    SyscallError,
> {
    match outcome {
        Ok(bytes) => if bytes.len() <= FIXED_BUFFER_LEN {
            Ok(zero_padded(bytes))
        } else {
            Err(SyscallError::Encoding)
        },
        Err(_) => Err(SyscallError::CapabilityExecution),
    }
}

/// Turns what a payload returned into the result of the custom syscall. No
/// failure becomes a zeroed success, and no answer is cut short.
pub fn conclude(outcome: Result<Vec<u8>, PayloadFailure>) -> (r: Result<FixedResult, SyscallError>)
    ensures
        result_view(r) == spec_conclude(outcome_view(outcome)),
{
    match outcome {
        Ok(bytes) => FixedResult::from_bytes(bytes.as_slice()),
        Err(_) => Err(SyscallError::CapabilityExecution),
    }
}

/// Whether `r` is what the custom syscall makes of an answer that `payload`
/// admits to the request.
pub open spec fn concludes<P: Payload>(
    payload: P,
    user_index: i64,
    user_activity_matrix: Seq<u8>,
    k: i64,
    r: Result<Seq<u8>, SyscallError>,
) -> bool {
    exists|outcome: Result<Seq<u8>, PayloadFailure>| #[trigger]
        payload.admits(user_index, user_activity_matrix, k, outcome) && r == spec_conclude(
            outcome,
        )
}

/// What the custom syscall returns is whole or a failure: an answer comes
/// out at the fixed size with its bytes in front and zeros behind, a failure
/// of the payload comes out as a failure, and nothing comes out cut short.
pub proof fn lemma_conclude_is_whole_or_fails(outcome: Result<Seq<u8>, PayloadFailure>)
    ensures
        match outcome {
            Ok(bytes) => if bytes.len() <= FIXED_BUFFER_LEN {
                spec_conclude(outcome) matches Ok(fixed) && fixed.len() == FIXED_BUFFER_LEN
                    && fixed.take(bytes.len() as int) == bytes
            } else {
                spec_conclude(outcome) == Err::<Seq<u8>, SyscallError>(SyscallError::Encoding)
            },
            Err(_) => spec_conclude(outcome) == Err::<Seq<u8>, SyscallError>(
                SyscallError::CapabilityExecution,
            ),
        },
{
    match outcome {
        Ok(bytes) => {
            if bytes.len() <= FIXED_BUFFER_LEN {
                lemma_padding_keeps_the_bytes(bytes);
            }
        },
        Err(_) => {},
    }
}

/// What comes of any payload is whole or a failure of a known kind: an
/// answer has the fixed size, and a failure is the payload's or the
/// encoding's.
pub proof fn lemma_concluded_is_whole_or_typed<P: Payload>(
    payload: P,
    user_index: i64,
    user_activity_matrix: Seq<u8>,
    k: i64,
    r: Result<Seq<u8>, SyscallError>,
)
    requires
        concludes(payload, user_index, user_activity_matrix, k, r),
    ensures
        match r {
            Ok(fixed) => fixed.len() == FIXED_BUFFER_LEN,
            Err(e) => e == SyscallError::CapabilityExecution || e == SyscallError::Encoding,
        },
{
    let outcome = choose|outcome: Result<Seq<u8>, PayloadFailure>| #[trigger]
        payload.admits(user_index, user_activity_matrix, k, outcome) && r == spec_conclude(
            outcome,
        );
    lemma_conclude_is_whole_or_fails(outcome);
}

/// A payload that answers one way only gives one result: where it admits
/// a single outcome to a request, the custom syscall has a single result
/// for that request.
pub proof fn lemma_one_answer_one_result<P: Payload>(
    payload: P,
    user_index: i64,
    user_activity_matrix: Seq<u8>,
    k: i64,
    outcome: Result<Seq<u8>, PayloadFailure>,
    r: Result<Seq<u8>, SyscallError>,
)
    requires
        forall|other: Result<Seq<u8>, PayloadFailure>| #[trigger]
            payload.admits(user_index, user_activity_matrix, k, other) ==> other == outcome,
        concludes(payload, user_index, user_activity_matrix, k, r),
    ensures
        r == spec_conclude(outcome),
{
}

/// A payload that gives the same answer to every request: a stand-in for
/// the real computation wherever the mechanism is exercised without it.
#[derive(Debug)]
pub struct ConstantPayload {
    answer: Result<Vec<u8>, PayloadFailure>,
}

impl View for ConstantPayload {
    type V = Result<Seq<u8>, PayloadFailure>;

    closed spec fn view(&self) -> Result<Seq<u8>, PayloadFailure> {
        outcome_view(self.answer)
    }
}

impl ConstantPayload {
    /// A payload that always answers with `bytes`.
    pub fn answering(bytes: Vec<u8>) -> (payload: ConstantPayload)
        ensures
            payload@ == Ok::<Seq<u8>, PayloadFailure>(bytes@),
    {
        ConstantPayload { answer: Ok(bytes) }
    }

    /// A payload that always fails with `failure`.
    pub fn failing(failure: PayloadFailure) -> (payload: ConstantPayload)
        ensures
            payload@ == Err::<Seq<u8>, PayloadFailure>(failure),
    {
        ConstantPayload { answer: Err(failure) }
    }
}

/// A constant payload is the same on every run: it has one answer to every
/// request, so the custom syscall has one result, and a run leaves it what
/// it was.
pub proof fn lemma_constant_payload_is_constant(
    payload: ConstantPayload,
    after: ConstantPayload,
    user_index: i64,
    user_activity_matrix: Seq<u8>,
    k: i64,
    r: Result<Seq<u8>, SyscallError>,
)
    requires
        concludes(payload, user_index, user_activity_matrix, k, r),
        payload.may_become(&after),
    ensures
        r == spec_conclude(payload@),
        after == payload,
{
}

impl Payload for ConstantPayload {
    open spec fn admits(
        &self,
        user_index: i64,
        user_activity_matrix: Seq<u8>,
        k: i64,
        outcome: Result<Seq<u8>, PayloadFailure>,
    ) -> bool {
        outcome == self@
    }

    open spec fn may_become(&self, after: &Self) -> bool {
        *after == *self
    }

    fn run(&mut self, user_index: i64, user_activity_matrix: &[u8; 1000], k: i64) -> (outcome:
        Result<Vec<u8>, PayloadFailure>)
    {
        match &self.answer {
            Ok(bytes) => {
                let mut copy: Vec<u8> = Vec::new();
                let mut i: usize = 0;
                while i < bytes.len()
                    invariant
                        i <= bytes@.len(),
                        copy@ == bytes@.take(i as int),
                    decreases bytes@.len() - i,
                {
                    copy.push(bytes[i]);
                    assert(bytes@.take(i + 1) =~= bytes@.take(i as int).push(bytes@[i as int]));
                    i = i + 1;
                }
                assert(bytes@.take(i as int) =~= bytes@);
                Ok(copy)
            },
            Err(failure) => Err(*failure),
        }
    }
}

} // verus!
