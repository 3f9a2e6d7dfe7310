use customsyscall::abi::{marshal_params, marshal_result, unmarshal_result, SyscallReturn};
use customsyscall::error::RESULT_OK;
use customsyscall::shared::{FixedResult, InvokeParams};
use customsyscall::SyscallError;

#[test]
fn params_cross_field_by_field() {
    let mut matrix = [0u8; 1000];
    matrix[10] = 10;
    let params = InvokeParams { user_index: -7, user_activity_matrix: matrix, k: 9 };
    let args = marshal_params(&params);
    assert_eq!(args.user_index, -7);
    assert_eq!(args.user_activity_matrix, matrix);
    assert_eq!(args.k, 9);
}

#[test]
fn answer_crosses_under_result_ok() {
    let fixed = FixedResult::from_bytes(&[1, 2, 3]).unwrap();
    let ret = marshal_result(&Ok(fixed));
    assert_eq!(ret.code, RESULT_OK);
    assert_eq!(ret.buffer, fixed.bytes);
    assert_eq!(unmarshal_result(&ret), Ok(fixed));
}

#[test]
fn failure_crosses_under_its_code_with_a_zeroed_buffer() {
    for kind in [
        SyscallError::Authorization,
        SyscallError::Encoding,
        SyscallError::CapabilityExecution,
        SyscallError::OutOfGas,
        SyscallError::LinkageConflict,
        SyscallError::MethodNotFound,
    ] {
        let ret = marshal_result(&Err(kind));
        assert_eq!(ret.code, kind.code());
        assert_ne!(ret.code, RESULT_OK);
        assert_eq!(ret.buffer, [0u8; 1000]);
        assert_eq!(unmarshal_result(&ret), Err(kind));
    }
}

#[test]
fn answer_of_zeros_is_not_a_failure() {
    let zero = FixedResult::zeroed();
    let ret = marshal_result(&Ok(zero));
    assert_eq!(ret, SyscallReturn { code: 0, buffer: [0u8; 1000] });
    assert_eq!(unmarshal_result(&ret), Ok(zero));
    let failed = marshal_result(&Err(SyscallError::CapabilityExecution));
    assert_eq!(failed.buffer, ret.buffer);
    assert_ne!(unmarshal_result(&failed), unmarshal_result(&ret));
}

#[test]
fn failure_code_wins_over_what_the_buffer_holds() {
    let ret = SyscallReturn { code: 3, buffer: [9u8; 1000] };
    assert_eq!(unmarshal_result(&ret), Err(SyscallError::OutOfGas));
}

#[test]
fn unknown_code_is_a_failure_of_the_capability() {
    for code in [1u32, 5, 7, 12, 13, 99, u32::MAX] {
        let ret = SyscallReturn { code, buffer: [0u8; 1000] };
        assert_eq!(unmarshal_result(&ret), Err(SyscallError::CapabilityExecution));
    }
}
