//! What the actor shares with its callers: its name, its method numbers and
//! the fixed layout of the parameters of `Invoke`.

use vstd::prelude::*;
use crate::error::SyscallError;

verus! {

/// The name under which the actor is registered.
pub const CUSTOMSYSCALL_ACTOR_NAME: &'static str = "customsyscall";

/// The size in bytes of every buffer that crosses the guest/host boundary.
pub const FIXED_BUFFER_LEN: usize = 1000;

/// The method number of `Invoke`: the FRC-0042 hash of the method's name.
pub const INVOKE_METHOD_NUM: u64 = 3929173870;

/// `bytes` followed by as many zero bytes as it takes to fill a fixed buffer.
/// Meant for `bytes` of at most `FIXED_BUFFER_LEN` bytes.
pub open spec fn zero_padded(bytes: Seq<u8>) -> Seq<u8> {
    Seq::new(
        FIXED_BUFFER_LEN as nat,
        |i: int|
            if i < bytes.len() {
                bytes[i]
            } else {
                0u8
            },
    )
}

/// Whether every byte of `bytes` is zero.
pub open spec fn all_zero(bytes: Seq<u8>) -> bool {
    forall|i: int| 0 <= i < bytes.len() ==> bytes[i] == 0
}

/// Copies `bytes` to the front of a zeroed fixed buffer.
///
/// A guest collection has no fixed size, the boundary does: what does not fit
/// is refused as an encoding error and never cut short.
pub fn fit_fixed(bytes: &[u8]) -> (r: Result<[u8; 1000], SyscallError>)
    ensures
        match r {
            Ok(buf) => bytes@.len() <= FIXED_BUFFER_LEN && buf@ == zero_padded(bytes@),
            Err(e) => bytes@.len() > FIXED_BUFFER_LEN && e == SyscallError::Encoding,
        },
{
    if bytes.len() > FIXED_BUFFER_LEN {
        return Err(SyscallError::Encoding);
    }
    let mut buf: [u8; 1000] = [0u8; 1000];
    let mut i: usize = 0;
    while i < bytes.len()
        invariant
            i <= bytes@.len() <= FIXED_BUFFER_LEN,
            forall|j: int| 0 <= j < i ==> buf@[j] == bytes@[j],
            forall|j: int| i <= j < FIXED_BUFFER_LEN ==> buf@[j] == 0,
        decreases bytes@.len() - i,
    {
        buf[i] = bytes[i];
        i = i + 1;
    }
    assert(buf@ =~= zero_padded(bytes@));
    Ok(buf)
}

/// The parameters of `Invoke`, in the fixed layout in which they cross the
/// boundary: no field has a size that depends on its content.
#[derive(Clone, Copy, Debug, PartialEq, Eq)]
pub struct InvokeParams {
    /// The user the request is about.
    pub user_index: i64,
    /// The activity matrix, serialised and zero-padded to the fixed size.
    pub user_activity_matrix: [u8; 1000],
    /// How many entries the caller asks for.
    pub k: i64,
}

impl InvokeParams {
    /// Builds the parameters from guest values. The matrix may be shorter
    /// than the fixed buffer and is then zero-padded; a longer one is an
    /// encoding error.
    pub fn new(user_index: i64, matrix: &[u8], k: i64) -> (r: Result<InvokeParams, SyscallError>)
        ensures
            match r {
                Ok(p) => matrix@.len() <= FIXED_BUFFER_LEN && p.user_index == user_index
                    && p.user_activity_matrix@ == zero_padded(matrix@) && p.k == k,
                Err(e) => matrix@.len() > FIXED_BUFFER_LEN && e == SyscallError::Encoding,
            },
    {
        match fit_fixed(matrix) {
            Ok(buf) => Ok(InvokeParams { user_index, user_activity_matrix: buf, k }),
            Err(e) => Err(e),
        }
    }
}

impl Default for InvokeParams {
    /// All fields zero.
    fn default() -> (p: InvokeParams)
        ensures
            p.user_index == 0,
            p.k == 0,
            all_zero(p.user_activity_matrix@),
    {
        InvokeParams { user_index: 0, user_activity_matrix: [0u8; 1000], k: 0 }
    }
}

/// The result of the custom syscall: a buffer of the fixed size, always
/// whole.
#[derive(Clone, Copy, Debug, PartialEq, Eq)]
pub struct FixedResult {
    pub bytes: [u8; 1000],
}

impl FixedResult {
    /// The result that holds zeros only.
    pub fn zeroed() -> (fixed: FixedResult)
        ensures
            all_zero(fixed.bytes@),
    {
        FixedResult { bytes: [0u8; 1000] }
    }

    /// The result that holds `bytes`, zero-padded to the fixed size. Bytes
    /// that do not fit are an encoding error: a result is never cut short.
    pub fn from_bytes(bytes: &[u8]) -> (r: Result<FixedResult, SyscallError>)
        ensures
            match r {
                Ok(fixed) => bytes@.len() <= FIXED_BUFFER_LEN && fixed.bytes@ == zero_padded(
                    bytes@,
                ),
                Err(e) => bytes@.len() > FIXED_BUFFER_LEN && e == SyscallError::Encoding,
            },
    {
        match fit_fixed(bytes) {
            Ok(buf) => Ok(FixedResult { bytes: buf }),
            Err(e) => Err(e),
        }
    }

    /// Whether the result holds zeros only. Such a result is a result all
    /// the same, and no failure.
    pub fn is_zero(&self) -> (b: bool)
        ensures
            b == all_zero(self.bytes@),
    {
        let mut i: usize = 0;
        while i < FIXED_BUFFER_LEN
            invariant
                i <= FIXED_BUFFER_LEN,
                forall|j: int| 0 <= j < i ==> self.bytes@[j] == 0,
            decreases FIXED_BUFFER_LEN - i,
        {
            if self.bytes[i] != 0 {
                return false;
            }
            i = i + 1;
        }
        true
    }
}

/// The result of the custom syscall, with the buffer as a sequence.
pub open spec fn result_view(r: Result<FixedResult, SyscallError>) -> Result<Seq<u8>, SyscallError> {
    match r {
        Ok(fixed) => Ok(fixed.bytes@),
        Err(e) => Err(e),
    }
}

/// Padding adds zeros behind the bytes and changes none of them.
pub proof fn lemma_padding_keeps_the_bytes(bytes: Seq<u8>)
    requires
        bytes.len() <= FIXED_BUFFER_LEN,
    ensures
        zero_padded(bytes).len() == FIXED_BUFFER_LEN,
        zero_padded(bytes).take(bytes.len() as int) == bytes,
        all_zero(zero_padded(bytes).skip(bytes.len() as int)),
        bytes.len() == FIXED_BUFFER_LEN ==> zero_padded(bytes) == bytes,
{
    assert(zero_padded(bytes).take(bytes.len() as int) =~= bytes);
    if bytes.len() == FIXED_BUFFER_LEN {
        assert(zero_padded(bytes) =~= bytes);
    }
}

/// The methods the actor exposes.
#[derive(Clone, Copy, Debug, PartialEq, Eq, Structural)]
pub enum Method {
    /// Runs the custom syscall on behalf of the caller.
    Invoke,
}

impl Method {
    /// The method that a method number addresses, if any.
    pub open spec fn spec_from_u64(n: u64) -> Option<Method> {
        if n == INVOKE_METHOD_NUM {
            Some(Method::Invoke)
        } else {
            None
        }
    }

    /// The number under which a method is exported.
    pub open spec fn spec_number(self) -> u64 {
        match self {
            Method::Invoke => INVOKE_METHOD_NUM,
        }
    }

    /// Looks a method number up: one entry per exported method, `None` for
    /// every other number.
    pub fn from_u64(n: u64) -> (m: Option<Method>)
        ensures
            m == Self::spec_from_u64(n),
    {
        if n == INVOKE_METHOD_NUM {
            Some(Method::Invoke)
        } else {
            None
        }
    }

    /// Returns the number under which the method is exported.
    pub fn number(&self) -> (n: u64)
        ensures
            n == self.spec_number(),
            Self::spec_from_u64(n) == Some(*self),
    {
        match self {
            Method::Invoke => INVOKE_METHOD_NUM,
        }
    }
}

} // verus!
