//! The parameter block of `Invoke` on the wire: the DAG-CBOR list of the
//! three fields, the matrix as a byte string.

use vstd::prelude::*;
use crate::error::SyscallError;
use crate::shared::{InvokeParams, FIXED_BUFFER_LEN};

verus! {

/// The error type of `fvm_ipld_encoding`. Nothing is read from it.
#[verifier::external_type_specification]
#[verifier::external_body]
pub struct ExEncodingError(fvm_ipld_encoding::Error);

/// What `fvm_ipld_encoding::from_slice` reads from `block` as an integer, a
/// byte string and an integer; `None` where it rejects the block.
pub uninterp spec fn cbor_fields(block: Seq<u8>) -> Option<(i64, Seq<u8>, i64)>;

/// What `fvm_ipld_encoding::to_vec` writes for an integer, a byte string and
/// an integer; `None` where it writes nothing and fails.
pub uninterp spec fn cbor_block(user_index: i64, matrix: Seq<u8>, k: i64) -> Option<Seq<u8>>;

/// Calls `fvm_ipld_encoding::from_slice` for a tuple of an `i64`, a byte
/// string and an `i64`. The decoder reads the slice and nothing else, so
/// what it returns is a function of the bytes: the contract gives that
/// function the name `cbor_fields` and claims no more.
#[verifier::external_body]
fn decode_fields(block: &[u8]) -> (r: Result<(i64, Vec<u8>, i64), fvm_ipld_encoding::Error>)
    ensures
        match r {
            Ok(fields) => cbor_fields(block@) == Some((fields.0, fields.1@, fields.2)),
            Err(_) => cbor_fields(block@) is None,
        },
{
    let fields: Result<(i64, fvm_ipld_encoding::BytesDe, i64), fvm_ipld_encoding::Error> =
        fvm_ipld_encoding::from_slice(block);
    match fields {
        Ok((user_index, matrix, k)) => Ok((user_index, matrix.0, k)),
        Err(e) => Err(e),
    }
}

/// Calls `fvm_ipld_encoding::to_vec` on a tuple of an `i64`, a byte string
/// and an `i64`. The encoder looks at the three values and at nothing else,
/// and the one way it has to fail on them is a buffer that cannot grow, which
/// is not reckoned with here. So whether it succeeds, and what it writes
/// where it does, is taken as a function of the three values: the contract
/// gives that function the name `cbor_block` and claims no more.
#[verifier::external_body]
fn encode_fields(user_index: i64, matrix: &[u8], k: i64) -> (r: Result<
    Vec<u8>,
    fvm_ipld_encoding::Error,
>)
    ensures
        match r {
            Ok(block) => cbor_block(user_index, matrix@, k) == Some(block@),
            Err(_) => cbor_block(user_index, matrix@, k) is None,
        },
{
    fvm_ipld_encoding::to_vec(&(user_index, fvm_ipld_encoding::BytesSer(matrix), k))
}

/// What becomes of the fields read from a block: they are the parameters
/// where the matrix has exactly the fixed size. A block that could not be
/// read, and a matrix of any other size, are encoding errors.
pub open spec fn spec_from_fields(fields: Option<(i64, Seq<u8>, i64)>) -> Result<
    (i64, Seq<u8>, i64),
    SyscallError,
> {
    match fields {
        Some((user_index, matrix, k)) => if matrix.len() == FIXED_BUFFER_LEN {
            Ok((user_index, matrix, k))
        } else {
            Err(SyscallError::Encoding)
        },
        None => Err(SyscallError::Encoding),
    }
}

/// The fields read from a block, with the matrix as a sequence.
pub open spec fn fields_view(fields: Option<(i64, Vec<u8>, i64)>) -> Option<(i64, Seq<u8>, i64)> {
    match fields {
        Some(f) => Some((f.0, f.1@, f.2)),
        None => None,
    }
}

/// The three fields of the parameters.
pub open spec fn fields_of(params: InvokeParams) -> (i64, Seq<u8>, i64) {
    (params.user_index, params.user_activity_matrix@, params.k)
}

/// Builds the parameters from the fields read from a block. The matrix has
/// to fill the fixed buffer exactly: a shorter one is not padded and a longer
/// one is not cut.
pub fn from_fields(fields: Option<(i64, Vec<u8>, i64)>) -> (r: Result<InvokeParams, SyscallError>)
    ensures
        match r {
            Ok(params) => spec_from_fields(fields_view(fields)) == Ok::<
                (i64, Seq<u8>, i64),
                SyscallError,
            >(fields_of(params)),
            Err(e) => spec_from_fields(fields_view(fields)) == Err::<
                (i64, Seq<u8>, i64),
                SyscallError,
            >(e),
        },
{
    match fields {
        Some((user_index, matrix, k)) => {
            if matrix.len() != FIXED_BUFFER_LEN {
                return Err(SyscallError::Encoding);
            }
            let mut buf: [u8; 1000] = [0u8; 1000];
            let mut i: usize = 0;
            while i < FIXED_BUFFER_LEN
                invariant
                    i <= FIXED_BUFFER_LEN,
                    matrix@.len() == FIXED_BUFFER_LEN,
                    forall|j: int| 0 <= j < i ==> buf@[j] == matrix@[j],
                decreases FIXED_BUFFER_LEN - i,
            {
                buf[i] = matrix[i];
                i = i + 1;
            }
            assert(buf@ =~= matrix@);
            Ok(InvokeParams { user_index, user_activity_matrix: buf, k })
        },
        None => Err(SyscallError::Encoding),
    }
}

/// Reads the parameters of `Invoke` from their block.
pub fn decode_params(block: &[u8]) -> (r: Result<InvokeParams, SyscallError>)
    ensures
        match r {
            Ok(params) => spec_from_fields(cbor_fields(block@)) == Ok::<
                (i64, Seq<u8>, i64),
                SyscallError,
            >(fields_of(params)),
            Err(e) => spec_from_fields(cbor_fields(block@)) == Err::<
                (i64, Seq<u8>, i64),
                SyscallError,
            >(e),
        },
{
    match decode_fields(block) {
        Ok(fields) => from_fields(Some(fields)),
        Err(_) => from_fields(None),
    }
}

/// What becomes of what the encoder wrote: the block where it wrote one, an
/// encoding error where it did not.
pub open spec fn spec_encoded(block: Option<Seq<u8>>) -> Result<Seq<u8>, SyscallError> {
    match block {
        Some(bytes) => Ok(bytes),
        None => Err(SyscallError::Encoding),
    }
}

/// A block as it was written, with the bytes as a sequence.
pub open spec fn block_view(r: Result<Vec<u8>, SyscallError>) -> Result<Seq<u8>, SyscallError> {
    match r {
        Ok(block) => Ok(block@),
        Err(e) => Err(e),
    }
}

/// Writes the parameters of `Invoke` as their block: the block the encoder
/// writes for the three fields, and an encoding error exactly where the
/// encoder writes none.
pub fn encode_params(params: &InvokeParams) -> (r: Result<Vec<u8>, SyscallError>)
    ensures
        block_view(r) == spec_encoded(
            cbor_block(params.user_index, params.user_activity_matrix@, params.k),
        ),
{
    match encode_fields(params.user_index, params.user_activity_matrix.as_slice(), params.k) {
        Ok(block) => Ok(block),
        Err(_) => Err(SyscallError::Encoding),
    }
}

} // verus!
