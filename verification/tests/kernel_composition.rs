use customsyscall::capability::{
    BaseCapability, Capability, Provider, BASE_CAPABILITY_COUNT,
};
use customsyscall::kernel::{
    BaseKernel, BaseOperation, BlockRegistry, CallManager, CompositeKernel, Effect,
    CUSTOM_SYSCALL_CHARGE,
};
use customsyscall::payload::{conclude, ConstantPayload, Payload, PayloadFailure};
use customsyscall::shared::FixedResult;
use customsyscall::SyscallError;

struct Recorder {
    calls: Vec<(i64, [u8; 1000], i64)>,
    answer: Result<Vec<u8>, PayloadFailure>,
}

impl Recorder {
    fn answering(answer: Result<Vec<u8>, PayloadFailure>) -> Recorder {
        Recorder { calls: Vec::new(), answer }
    }
}

impl Payload for Recorder {
    fn run(
        &mut self,
        user_index: i64,
        user_activity_matrix: &[u8; 1000],
        k: i64,
    ) -> Result<Vec<u8>, PayloadFailure> {
        self.calls.push((user_index, *user_activity_matrix, k));
        self.answer.clone()
    }
}

fn composite(gas_limit: u64, price: u64) -> CompositeKernel {
    CompositeKernel::new(
        CallManager::new(gas_limit, price),
        BlockRegistry { open_blocks: 4 },
        0,
        101,
        7,
        55,
        false,
    )
}

fn base(gas_limit: u64, price: u64) -> BaseKernel {
    BaseKernel::new(
        CallManager::new(gas_limit, price),
        BlockRegistry { open_blocks: 4 },
        0,
        101,
        7,
        55,
        false,
    )
}

#[test]
fn base_capabilities_are_ten_each_once() {
    let all = BaseCapability::all();
    assert_eq!(BASE_CAPABILITY_COUNT, 10);
    assert_eq!(all.len(), 10);
    for (i, capability) in all.iter().enumerate() {
        assert_eq!(capability.index(), i);
        for other in all.iter().skip(i + 1) {
            assert_ne!(capability, other);
            assert_ne!(capability.name(), other.name());
        }
    }
    assert_eq!(all[0], BaseCapability::ActorOps);
    assert_eq!(all[9], BaseCapability::IpldBlockOps);
    assert_eq!(BaseCapability::SendOps.name(), "SendOps");
}

#[test]
fn every_capability_has_one_provider_and_only_custom_is_local() {
    let all = Capability::all();
    assert_eq!(all.len(), 11);
    let mut local = 0;
    let mut forwarded = 0;
    for capability in all.iter() {
        match capability.provider() {
            Provider::Local => {
                assert_eq!(*capability, Capability::Custom);
                local += 1;
            }
            Provider::Forwarded => {
                assert!(matches!(capability, Capability::Base(_)));
                forwarded += 1;
            }
        }
    }
    assert_eq!(local, 1);
    assert_eq!(forwarded, 10);
    assert_eq!(all[10], Capability::Custom);
    for base in BaseCapability::all() {
        assert_eq!(all[base.index()], Capability::Base(base));
    }
}

#[test]
fn construct_keeps_every_argument_in_its_place() {
    let kernel = CompositeKernel::new(
        CallManager::new(900, 40),
        BlockRegistry { open_blocks: 3 },
        11,
        22,
        33,
        44,
        true,
    );
    let base = kernel.base();
    assert_eq!(base.caller(), 11);
    assert_eq!(base.actor_id(), 22);
    assert_eq!(base.method(), 33);
    assert_eq!(base.value_received(), 44);
    assert!(base.read_only());
    assert_eq!(kernel.caller(), 11);
    assert_eq!(kernel.gas_available(), 900);
    assert_eq!(base.call_manager().custom_syscall_price(), 40);
    assert!(base.call_manager().effects().is_empty());
    let (mgr, blocks) = kernel.into_inner();
    assert_eq!(blocks, BlockRegistry { open_blocks: 3 });
    assert_eq!(mgr.gas().gas_limit(), 900);
    assert_eq!(mgr.gas().gas_used(), 0);
    assert_eq!(mgr.custom_syscall_price(), 40);
}

#[test]
fn base_kernel_gives_back_what_it_was_built_on() {
    let kernel = BaseKernel::new(
        CallManager::new(5, 1),
        BlockRegistry { open_blocks: 9 },
        1,
        2,
        3,
        u128::MAX,
        false,
    );
    assert_eq!(kernel.value_received(), u128::MAX);
    assert!(!kernel.read_only());
    let (mgr, blocks) = kernel.into_inner();
    assert_eq!(blocks.open_blocks, 9);
    assert_eq!(mgr.gas().gas_available(), 5);
}

#[test]
fn base_operation_is_charged_and_leaves_its_effect() {
    let mut kernel = base(100, 10);
    let op = BaseOperation { capability: BaseCapability::CryptoOps, selector: 2, compute_units: 30 };
    assert_eq!(kernel.perform(&op), Ok(()));
    assert_eq!(kernel.gas_available(), 70);
    let mgr = kernel.call_manager();
    assert_eq!(
        mgr.effects().as_slice(),
        &[Effect { capability: BaseCapability::CryptoOps, selector: 2 }]
    );
    assert_eq!(mgr.gas().charge_count(), 1);
    assert_eq!(mgr.gas().charge(0).unwrap().name(), "CryptoOps");
    assert_eq!(mgr.gas().charge(0).unwrap().compute_units(), 30);
    assert!(mgr.gas().all_released());
}

#[test]
fn base_operation_out_of_gas_leaves_no_effect() {
    let mut kernel = base(10, 10);
    let op = BaseOperation { capability: BaseCapability::EventOps, selector: 1, compute_units: 11 };
    assert_eq!(kernel.perform(&op), Err(SyscallError::OutOfGas));
    assert_eq!(kernel.gas_available(), 0);
    assert!(kernel.call_manager().effects().is_empty());
    assert_eq!(kernel.call_manager().gas().charge_count(), 0);
}

#[test]
fn composite_behaves_as_base_on_every_base_interface() {
    for capability in BaseCapability::all() {
        for (selector, compute_units) in [(0u32, 0u64), (1, 40), (2, 60), (3, 1), (4, 1000)] {
            let mut plain = base(100, 10);
            let mut wrapped = composite(100, 10);
            let warmup = BaseOperation {
                capability: BaseCapability::SelfOps,
                selector: 9,
                compute_units: 40,
            };
            assert_eq!(plain.perform(&warmup), wrapped.perform(&warmup));
            let op = BaseOperation { capability, selector, compute_units };
            let expected = plain.perform(&op);
            let got = wrapped.perform(&op);
            assert_eq!(got, expected);
            assert_eq!(wrapped.gas_available(), plain.gas_available());
            assert_eq!(wrapped.caller(), plain.caller());
            let a = plain.call_manager();
            let b = wrapped.base().call_manager();
            assert_eq!(b.effects(), a.effects());
            assert_eq!(b.gas().gas_used(), a.gas().gas_used());
            assert_eq!(b.gas().charge_count(), a.gas().charge_count());
            assert_eq!(b.gas().all_released(), a.gas().all_released());
            for i in 0..a.gas().charge_count() {
                let x = a.gas().charge(i).unwrap();
                let y = b.gas().charge(i).unwrap();
                assert_eq!(x.name(), y.name());
                assert_eq!(x.compute_units(), y.compute_units());
                assert_eq!(x.released(), y.released());
            }
        }
    }
}

#[test]
fn composite_forwards_gas_charges_and_timers() {
    let mut plain = base(50, 10);
    let mut wrapped = composite(50, 10);
    let a = plain.charge_gas("x", 20).unwrap();
    let b = wrapped.charge_gas("x", 20).unwrap();
    assert_eq!(plain.gas_available(), 30);
    assert_eq!(wrapped.gas_available(), 30);
    assert!(!wrapped.base().call_manager().gas().all_released());
    plain.stop(a);
    wrapped.stop(b);
    assert!(plain.call_manager().gas().all_released());
    assert!(wrapped.base().call_manager().gas().all_released());
    assert!(matches!(plain.charge_gas("y", 31), Err(SyscallError::OutOfGas)));
    assert!(matches!(wrapped.charge_gas("y", 31), Err(SyscallError::OutOfGas)));
    assert_eq!(wrapped.gas_available(), 0);
    assert_eq!(plain.gas_available(), 0);
}

#[test]
fn custom_syscall_hands_the_payload_what_it_was_given() {
    let mut kernel = composite(100, 10);
    let mut payload = Recorder::answering(Ok(vec![1, 2, 3]));
    let mut matrix = [0u8; 1000];
    matrix[0] = 9;
    matrix[999] = 7;
    let result = kernel.custom_syscall(&mut payload, -3, &matrix, 5).unwrap();
    assert_eq!(payload.calls.len(), 1);
    assert_eq!(payload.calls[0].0, -3);
    assert_eq!(payload.calls[0].1, matrix);
    assert_eq!(payload.calls[0].2, 5);
    assert_eq!(&result.bytes[..3], &[1, 2, 3]);
    assert!(result.bytes[3..].iter().all(|b| *b == 0));
}

#[test]
fn custom_syscall_charges_its_price_once_and_releases_the_timer() {
    let mut kernel = composite(100, 10);
    let mut payload = Recorder::answering(Ok(vec![]));
    assert!(kernel.custom_syscall(&mut payload, 1, &[0u8; 1000], 1).is_ok());
    assert_eq!(kernel.gas_available(), 90);
    let gas = kernel.base().call_manager().gas();
    assert_eq!(gas.charge_count(), 1);
    assert_eq!(gas.charge(0).unwrap().name(), CUSTOM_SYSCALL_CHARGE);
    assert_eq!(gas.charge(0).unwrap().name(), "OnCustomSyscall");
    assert_eq!(gas.charge(0).unwrap().compute_units(), 10);
    assert!(gas.all_released());
    assert!(kernel.base().call_manager().effects().is_empty());
}

#[test]
fn custom_syscall_out_of_gas_never_runs_the_payload() {
    let mut kernel = composite(9, 10);
    let mut payload = Recorder::answering(Ok(vec![1]));
    let result = kernel.custom_syscall(&mut payload, 1, &[0u8; 1000], 1);
    assert_eq!(result, Err(SyscallError::OutOfGas));
    assert!(payload.calls.is_empty());
    assert_eq!(kernel.gas_available(), 0);
    let mgr = kernel.base().call_manager();
    assert_eq!(mgr.gas().charge_count(), 0);
    assert!(mgr.gas().all_released());
    assert!(mgr.effects().is_empty());
    assert_eq!(kernel.caller(), 0);
}

#[test]
fn custom_syscall_with_exactly_the_price_left_succeeds() {
    let mut kernel = composite(10, 10);
    let mut payload = Recorder::answering(Ok(vec![4]));
    assert!(kernel.custom_syscall(&mut payload, 1, &[0u8; 1000], 1).is_ok());
    assert_eq!(kernel.gas_available(), 0);
    assert_eq!(
        kernel.custom_syscall(&mut payload, 1, &[0u8; 1000], 1),
        Err(SyscallError::OutOfGas)
    );
    assert_eq!(payload.calls.len(), 1);
}

#[test]
fn payload_failure_is_a_failure_and_still_costs_the_price() {
    for failure in [PayloadFailure::Unreachable, PayloadFailure::MalformedResponse] {
        let mut kernel = composite(100, 10);
        let mut payload = Recorder::answering(Err(failure));
        let result = kernel.custom_syscall(&mut payload, 1, &[0u8; 1000], 1);
        assert_eq!(result, Err(SyscallError::CapabilityExecution));
        assert_eq!(payload.calls.len(), 1);
        assert_eq!(kernel.gas_available(), 90);
        assert!(kernel.base().call_manager().gas().all_released());
    }
}

#[test]
fn payload_answer_that_does_not_fit_is_an_encoding_error() {
    let mut kernel = composite(100, 10);
    let mut payload = Recorder::answering(Ok(vec![1u8; 1001]));
    let result = kernel.custom_syscall(&mut payload, 1, &[0u8; 1000], 1);
    assert_eq!(result, Err(SyscallError::Encoding));
    assert_eq!(kernel.gas_available(), 90);
    assert!(kernel.base().call_manager().gas().all_released());
}

#[test]
fn payload_answer_of_the_full_size_comes_back_unchanged() {
    let answer: Vec<u8> = (0..1000u32).map(|i| (i % 256) as u8).collect();
    let mut kernel = composite(100, 10);
    let mut payload = Recorder::answering(Ok(answer.clone()));
    let result = kernel.custom_syscall(&mut payload, 1, &[0u8; 1000], 1).unwrap();
    assert_eq!(&result.bytes[..], &answer[..]);
}

#[test]
fn conclude_pads_answers_and_keeps_failures_apart() {
    assert_eq!(conclude(Ok(vec![])), Ok(FixedResult { bytes: [0u8; 1000] }));
    let mut expected = [0u8; 1000];
    expected[0] = 8;
    assert_eq!(conclude(Ok(vec![8])), Ok(FixedResult { bytes: expected }));
    assert_eq!(conclude(Ok(vec![3u8; 1000])), Ok(FixedResult { bytes: [3u8; 1000] }));
    assert_eq!(conclude(Ok(vec![3u8; 1001])), Err(SyscallError::Encoding));
    assert_eq!(
        conclude(Err(PayloadFailure::Unreachable)),
        Err(SyscallError::CapabilityExecution)
    );
    assert_eq!(
        conclude(Err(PayloadFailure::MalformedResponse)),
        Err(SyscallError::CapabilityExecution)
    );
}

#[test]
fn custom_syscall_leaves_effects_of_base_operations_alone() {
    let mut kernel = composite(100, 10);
    let op = BaseOperation { capability: BaseCapability::SendOps, selector: 1, compute_units: 5 };
    assert_eq!(kernel.perform(&op), Ok(()));
    let mut payload = Recorder::answering(Err(PayloadFailure::Unreachable));
    let _ = kernel.custom_syscall(&mut payload, 1, &[0u8; 1000], 1);
    assert_eq!(
        kernel.base().call_manager().effects().as_slice(),
        &[Effect { capability: BaseCapability::SendOps, selector: 1 }]
    );
    assert_eq!(kernel.gas_available(), 85);
    assert_eq!(kernel.base().call_manager().gas().charge_count(), 2);
}

#[test]
fn constant_payload_gives_the_same_answer_to_every_request() {
    let mut payload = ConstantPayload::answering(vec![4, 5, 6]);
    assert_eq!(payload.run(1, &[0u8; 1000], 2), Ok(vec![4, 5, 6]));
    assert_eq!(payload.run(-9, &[7u8; 1000], 0), Ok(vec![4, 5, 6]));
    let mut empty = ConstantPayload::answering(Vec::new());
    assert_eq!(empty.run(1, &[0u8; 1000], 2), Ok(Vec::new()));
    let mut failing = ConstantPayload::failing(PayloadFailure::MalformedResponse);
    assert_eq!(
        failing.run(1, &[0u8; 1000], 2),
        Err(PayloadFailure::MalformedResponse)
    );
    assert_eq!(
        failing.run(3, &[1u8; 1000], 4),
        Err(PayloadFailure::MalformedResponse)
    );
}

#[test]
fn custom_syscall_in_two_halves_is_the_custom_syscall() {
    let mut whole = composite(100, 10);
    let mut halves = composite(100, 10);
    let mut payload = ConstantPayload::answering(vec![1, 2]);
    let expected = whole.custom_syscall(&mut payload, 1, &[0u8; 1000], 2);

    let timer = halves.begin_custom_syscall().unwrap();
    assert_eq!(halves.gas_available(), 90);
    assert!(!halves.base().call_manager().gas().all_released());
    let outcome = payload.run(1, &[0u8; 1000], 2);
    let got = halves.end_custom_syscall(timer, outcome);
    assert_eq!(got, expected);
    assert_eq!(halves.gas_available(), whole.gas_available());
    assert!(halves.base().call_manager().gas().all_released());
    assert_eq!(
        halves.base().call_manager().gas().charge_count(),
        whole.base().call_manager().gas().charge_count()
    );
}

#[test]
fn begin_without_the_price_is_out_of_gas_and_opens_no_timer() {
    let mut kernel = composite(5, 10);
    assert!(matches!(kernel.begin_custom_syscall(), Err(SyscallError::OutOfGas)));
    assert_eq!(kernel.gas_available(), 0);
    assert_eq!(kernel.base().call_manager().gas().charge_count(), 0);
    assert!(kernel.base().call_manager().gas().all_released());
}

#[test]
fn end_releases_the_timer_on_failure_too() {
    for outcome in [
        Err(PayloadFailure::Unreachable),
        Err(PayloadFailure::MalformedResponse),
        Ok(vec![0u8; 2000]),
    ] {
        let mut kernel = composite(100, 10);
        let timer = kernel.begin_custom_syscall().unwrap();
        assert!(kernel.end_custom_syscall(timer, outcome).is_err());
        assert!(kernel.base().call_manager().gas().all_released());
        assert_eq!(kernel.gas_available(), 90);
    }
}
