//! The calling convention of the custom syscall: what the guest hands over,
//! and what comes back. Integers and buffers of the fixed size only, and a
//! result code that tells a failure from an answer of zeros.

use vstd::prelude::*;
use crate::error::{SyscallError, RESULT_OK};
use crate::shared::{result_view, FixedResult, InvokeParams, FIXED_BUFFER_LEN};

verus! {

/// The arguments of the adapter, as the guest writes them.
#[derive(Clone, Copy, Debug, PartialEq, Eq)]
pub struct SyscallArgs {
    pub user_index: i64,
    pub user_activity_matrix: [u8; 1000],
    pub k: i64,
}

/// What the host writes back: the result code, and the buffer that holds the
/// answer where the code is `RESULT_OK`.
#[derive(Clone, Copy, Debug, PartialEq, Eq)]
pub struct SyscallReturn {
    pub code: u32,
    pub buffer: [u8; 1000],
}

/// A buffer of the fixed size that holds zeros only.
pub open spec fn zeros() -> Seq<u8> {
    Seq::new(FIXED_BUFFER_LEN as nat, |i: int| 0u8)
}

/// How a result crosses the boundary: an answer under `RESULT_OK`, a failure
/// under the code of its kind and with a zeroed buffer.
pub open spec fn spec_marshal_result(r: Result<Seq<u8>, SyscallError>) -> (u32, Seq<u8>) {
    match r {
        Ok(bytes) => (RESULT_OK, bytes),
        Err(e) => (e.spec_code(), zeros()),
    }
}

/// How the guest reads what came back: under `RESULT_OK` the buffer is the
/// answer, whatever it holds. Any other code is a failure, of the kind the
/// code stands for, or of the capability where it stands for none.
pub open spec fn spec_unmarshal_result(code: u32, buffer: Seq<u8>) -> Result<Seq<u8>, SyscallError> {
    if code == RESULT_OK {
        Ok(buffer)
    } else {
        match SyscallError::spec_from_code(code) {
            Some(e) => Err(e),
            None => Err(SyscallError::CapabilityExecution),
        }
    }
}

/// What the host writes is what the guest reads: every result, an answer
/// or a failure of any kind, crosses the boundary unchanged.
pub proof fn lemma_result_round_trip(r: Result<Seq<u8>, SyscallError>)
    ensures
        spec_unmarshal_result(spec_marshal_result(r).0, spec_marshal_result(r).1) == r,
{
    match r {
        Ok(_) => {},
        Err(e) => {
            SyscallError::lemma_code_round_trip(e);
        },
    }
}

/// An answer and a failure are never taken for each other: what is read is
/// an answer exactly where the code is `RESULT_OK`, also where the buffer
/// holds zeros only.
pub proof fn lemma_success_is_told_by_the_code(code: u32, buffer: Seq<u8>)
    ensures
        spec_unmarshal_result(code, buffer) is Ok <==> code == RESULT_OK,
        spec_unmarshal_result(RESULT_OK, zeros()) == Ok::<Seq<u8>, SyscallError>(zeros()),
{
}

/// Turns the parameters of `Invoke` into the arguments of the adapter: each
/// field goes over as it is.
pub fn marshal_params(params: &InvokeParams) -> (args: SyscallArgs)
    ensures
        args.user_index == params.user_index,
        args.user_activity_matrix == params.user_activity_matrix,
        args.k == params.k,
{
    SyscallArgs {
        user_index: params.user_index,
        user_activity_matrix: params.user_activity_matrix,
        k: params.k,
    }
}

/// The host's side of the return: writes a result as code and buffer.
pub fn marshal_result(r: &Result<FixedResult, SyscallError>) -> (ret: SyscallReturn)
    ensures
        (ret.code, ret.buffer@) == spec_marshal_result(result_view(*r)),
{
    match r {
        Ok(fixed) => SyscallReturn { code: RESULT_OK, buffer: fixed.bytes },
        Err(e) => {
            let ret = SyscallReturn { code: e.code(), buffer: [0u8; 1000] };
            assert(ret.buffer@ =~= zeros());
            ret
        },
    }
}

/// The guest's side of the return: reads code and buffer back into a result.
/// A failure never comes out as an answer, and an answer of zeros never as a
/// failure.
pub fn unmarshal_result(ret: &SyscallReturn) -> (r: Result<FixedResult, SyscallError>)
    ensures
        result_view(r) == spec_unmarshal_result(ret.code, ret.buffer@),
{
    if ret.code == RESULT_OK {
        Ok(FixedResult { bytes: ret.buffer })
    } else {
        match SyscallError::from_code(ret.code) {
            Some(e) => Err(e),
            None => Err(SyscallError::CapabilityExecution),
        }
    }
}

} // verus!
