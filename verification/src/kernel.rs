//! The base kernel, and the composite kernel that wraps it: every interface
//! of the base kernel is handed on unchanged, and one capability, the custom
//! syscall, is added.

use vstd::prelude::*;
use crate::capability::BaseCapability;
use crate::error::SyscallError;
use crate::gas::{lemma_charge_then_release, GasModel, GasTimer, GasTracker};
use crate::payload::{concludes, conclude, outcome_view, spec_conclude, Payload, PayloadFailure};
use crate::shared::{result_view, FixedResult};

verus! {

/// The name under which the custom syscall is charged.
pub const CUSTOM_SYSCALL_CHARGE: &'static str = "OnCustomSyscall";

/// One operation of an interface of the base kernel.
#[derive(Clone, Copy, Debug, PartialEq, Eq, Structural)]
pub struct BaseOperation {
    /// The interface the operation belongs to.
    pub capability: BaseCapability,
    /// Which operation of the interface it is.
    pub selector: u32,
    /// What the operation costs.
    pub compute_units: u64,
}

/// What an operation that succeeded leaves behind. An effect stays within
/// the interface of its operation.
#[derive(Clone, Copy, Debug, PartialEq, Eq, Structural)]
pub struct Effect {
    pub capability: BaseCapability,
    pub selector: u32,
}

/// The blocks a message has open. The call manager lends the registry to the
/// kernel for one message and gets it back from `into_inner`.
#[derive(Clone, Copy, Debug, PartialEq, Eq, Structural)]
pub struct BlockRegistry {
    pub open_blocks: u32,
}

/// What a call manager holds, as contracts see it.
pub struct CallManagerModel {
    /// The gas accounting of the message.
    pub gas: GasModel,
    /// The price of one custom syscall.
    pub custom_syscall_price: u64,
    /// The effects of the operations that succeeded, oldest first.
    pub effects: Seq<Effect>,
}

/// A base kernel, as contracts see it: the call manager and the block
/// registry it was built on, and the context of the invocation.
pub struct KernelModel {
    pub call_manager: CallManagerModel,
    pub blocks: BlockRegistry,
    pub caller: u64,
    pub actor_id: u64,
    pub method: u64,
    pub value_received: u128,
    pub read_only: bool,
}

impl KernelModel {
    /// The gas accounting is in order.
    pub open spec fn wf(self) -> bool {
        self.call_manager.gas.wf()
    }

    /// The kernel with other gas accounting, all else the same.
    pub open spec fn with_gas(self, gas: GasModel) -> KernelModel {
        KernelModel {
            call_manager: CallManagerModel {
                gas,
                custom_syscall_price: self.call_manager.custom_syscall_price,
                effects: self.call_manager.effects,
            },
            blocks: self.blocks,
            caller: self.caller,
            actor_id: self.actor_id,
            method: self.method,
            value_received: self.value_received,
            read_only: self.read_only,
        }
    }

    /// The kernel with one more effect on record, all else the same.
    pub open spec fn with_effect(self, effect: Effect) -> KernelModel {
        KernelModel {
            call_manager: CallManagerModel {
                gas: self.call_manager.gas,
                custom_syscall_price: self.call_manager.custom_syscall_price,
                effects: self.call_manager.effects.push(effect),
            },
            blocks: self.blocks,
            caller: self.caller,
            actor_id: self.actor_id,
            method: self.method,
            value_received: self.value_received,
            read_only: self.read_only,
        }
    }

    /// The gas accounting after `compute_units` were charged for `name` and
    /// the timer of the charge was released again; the accounting of an
    /// exhausted budget where the budget does not cover the charge.
    pub open spec fn gas_after_charge(self, name: Seq<char>, compute_units: u64) -> GasModel {
        let gas = self.call_manager.gas;
        if gas.can_afford(compute_units) {
            gas.charged(name, compute_units).released(gas.charges.len() as int)
        } else {
            gas.exhausted()
        }
    }

    /// What an operation returns: it succeeds where the budget covers its
    /// cost, and nowhere else.
    pub open spec fn perform_result(self, op: BaseOperation) -> Result<(), SyscallError> {
        if self.call_manager.gas.can_afford(op.compute_units) {
            Ok(())
        } else {
            Err(SyscallError::OutOfGas)
        }
    }

    /// The kernel after an operation. One that succeeds is charged for and
    /// leaves its effect; one that fails leaves no effect.
    pub open spec fn performed(self, op: BaseOperation) -> KernelModel {
        let charged = self.with_gas(
            self.gas_after_charge(op.capability.spec_name(), op.compute_units),
        );
        if self.call_manager.gas.can_afford(op.compute_units) {
            charged.with_effect(Effect { capability: op.capability, selector: op.selector })
        } else {
            charged
        }
    }

    /// Whether the budget covers one custom syscall.
    pub open spec fn can_afford_custom_syscall(self) -> bool {
        self.call_manager.gas.can_afford(self.call_manager.custom_syscall_price)
    }

    /// The kernel after a custom syscall, whatever its payload made of it:
    /// the price is charged and the timer released, or the budget is
    /// exhausted. Nothing but the gas accounting differs.
    pub open spec fn after_custom_syscall(self) -> KernelModel {
        self.with_gas(
            self.gas_after_charge(CUSTOM_SYSCALL_CHARGE@, self.call_manager.custom_syscall_price),
        )
    }
}

/// The effects that belong to one interface, oldest first.
pub open spec fn effects_of(effects: Seq<Effect>, capability: BaseCapability) -> Seq<Effect> {
    effects.filter(|e: Effect| e.capability == capability)
}

/// An operation keeps to its own interface: whatever it does, the effects on
/// record for every other interface are what they were, and so are the
/// context of the invocation, the block registry and the prices.
pub proof fn lemma_effects_stay_in_category(
    kernel: KernelModel,
    op: BaseOperation,
    other: BaseCapability,
)
    requires
        other != op.capability,
    ensures
        effects_of(kernel.performed(op).call_manager.effects, other) == effects_of(
            kernel.call_manager.effects,
            other,
        ),
        kernel.performed(op).blocks == kernel.blocks,
        kernel.performed(op).caller == kernel.caller,
        kernel.performed(op).actor_id == kernel.actor_id,
        kernel.performed(op).method == kernel.method,
        kernel.performed(op).value_received == kernel.value_received,
        kernel.performed(op).read_only == kernel.read_only,
        kernel.performed(op).call_manager.custom_syscall_price
            == kernel.call_manager.custom_syscall_price,
{
    let effects = kernel.call_manager.effects;
    let effect = Effect { capability: op.capability, selector: op.selector };
    let pred = |e: Effect| e.capability == other;
    assert(effects.push(effect).drop_last() =~= effects);
    assert(effects.push(effect).filter(pred) == effects.filter(pred)) by {
        reveal(Seq::filter);
    }
}

/// An operation that fails changes nothing but the gas accounting, and one
/// that succeeds leaves exactly one effect, its own.
pub proof fn lemma_perform_is_all_or_nothing(kernel: KernelModel, op: BaseOperation)
    requires
        kernel.wf(),
    ensures
        kernel.performed(op).wf(),
        kernel.perform_result(op) is Err ==> kernel.performed(op) == kernel.with_gas(
            kernel.call_manager.gas.exhausted(),
        ),
        kernel.perform_result(op) is Ok ==> kernel.performed(op).call_manager.effects
            == kernel.call_manager.effects.push(
            Effect { capability: op.capability, selector: op.selector },
        ),
        kernel.call_manager.gas.all_released() ==> kernel.performed(
            op,
        ).call_manager.gas.all_released(),
{
    if kernel.call_manager.gas.can_afford(op.compute_units) {
        lemma_charge_then_release(
            kernel.call_manager.gas,
            op.capability.spec_name(),
            op.compute_units,
        );
    }
}

/// The custom syscall changes nothing of the kernel but its gas accounting.
/// Where the budget covers the price, the price is what is used, and every
/// timer that was released before is released after. Where it does not, the
/// budget is exhausted, and no charge is recorded.
pub proof fn lemma_custom_syscall_touches_only_gas(kernel: KernelModel)
    requires
        kernel.wf(),
    ensures
        kernel.after_custom_syscall().wf(),
        kernel.after_custom_syscall().call_manager.effects == kernel.call_manager.effects,
        kernel.after_custom_syscall().call_manager.custom_syscall_price
            == kernel.call_manager.custom_syscall_price,
        kernel.after_custom_syscall().blocks == kernel.blocks,
        kernel.after_custom_syscall().caller == kernel.caller,
        kernel.after_custom_syscall().actor_id == kernel.actor_id,
        kernel.after_custom_syscall().method == kernel.method,
        kernel.after_custom_syscall().value_received == kernel.value_received,
        kernel.after_custom_syscall().read_only == kernel.read_only,
        kernel.call_manager.gas.all_released() ==> kernel.after_custom_syscall(
        ).call_manager.gas.all_released(),
        kernel.can_afford_custom_syscall() ==> kernel.after_custom_syscall().call_manager.gas.used
            == kernel.call_manager.gas.used + kernel.call_manager.custom_syscall_price,
        !kernel.can_afford_custom_syscall() ==> kernel.after_custom_syscall().call_manager.gas
            == kernel.call_manager.gas.exhausted(),
{
    if kernel.can_afford_custom_syscall() {
        lemma_charge_then_release(
            kernel.call_manager.gas,
            CUSTOM_SYSCALL_CHARGE@,
            kernel.call_manager.custom_syscall_price,
        );
    }
}

/// The handle on the execution of one message: its gas, the prices, and the
/// effects of what has been done.
#[derive(Debug)]
pub struct CallManager {
    gas: GasTracker,
    custom_syscall_price: u64,
    effects: Vec<Effect>,
}

impl View for CallManager {
    type V = CallManagerModel;

    closed spec fn view(&self) -> CallManagerModel {
        CallManagerModel {
            gas: self.gas@,
            custom_syscall_price: self.custom_syscall_price,
            effects: self.effects@,
        }
    }
}

impl CallManager {
    /// A call manager for a message with a budget of `gas_limit`, under a
    /// price list that asks `custom_syscall_price` for the custom syscall.
    pub fn new(gas_limit: u64, custom_syscall_price: u64) -> (mgr: CallManager)
        ensures
            mgr@.gas == (GasModel { limit: gas_limit, used: 0, charges: Seq::empty() }),
            mgr@.custom_syscall_price == custom_syscall_price,
            mgr@.effects == Seq::<Effect>::empty(),
            mgr@.gas.wf(),
    {
        CallManager { gas: GasTracker::new(gas_limit), custom_syscall_price, effects: Vec::new() }
    }

    /// The gas accounting of the message.
    pub fn gas(&self) -> (g: &GasTracker)
        ensures
            g@ == self@.gas,
    {
        &self.gas
    }

    /// The price of one custom syscall.
    pub fn custom_syscall_price(&self) -> (p: u64)
        ensures
            p == self@.custom_syscall_price,
    {
        self.custom_syscall_price
    }

    /// The effects of the operations that succeeded, oldest first.
    pub fn effects(&self) -> (e: &Vec<Effect>)
        ensures
            e@ == self@.effects,
    {
        &self.effects
    }
}

/// The kernel that the composite kernel extends.
#[derive(Debug)]
pub struct BaseKernel {
    call_manager: CallManager,
    blocks: BlockRegistry,
    caller: u64,
    actor_id: u64,
    method: u64,
    value_received: u128,
    read_only: bool,
}

impl View for BaseKernel {
    type V = KernelModel;

    closed spec fn view(&self) -> KernelModel {
        KernelModel {
            call_manager: self.call_manager@,
            blocks: self.blocks,
            caller: self.caller,
            actor_id: self.actor_id,
            method: self.method,
            value_received: self.value_received,
            read_only: self.read_only,
        }
    }
}

impl BaseKernel {
    /// Builds the kernel for one invocation.
    pub fn new(
        mgr: CallManager,
        blocks: BlockRegistry,
        caller: u64,
        actor_id: u64,
        method: u64,
        value_received: u128,
        read_only: bool,
    ) -> (kernel: BaseKernel)
        ensures
            kernel@ == (KernelModel {
                call_manager: mgr@,
                blocks,
                caller,
                actor_id,
                method,
                value_received,
                read_only,
            }),
    {
        BaseKernel { call_manager: mgr, blocks, caller, actor_id, method, value_received, read_only }
    }

    /// Gives back what the kernel was built on.
    pub fn into_inner(self) -> (parts: (CallManager, BlockRegistry))
        ensures
            parts.0@ == self@.call_manager,
            parts.1 == self@.blocks,
    {
        (self.call_manager, self.blocks)
    }

    /// The call manager the kernel runs on.
    pub fn call_manager(&self) -> (mgr: &CallManager)
        ensures
            mgr@ == self@.call_manager,
    {
        &self.call_manager
    }

    /// The actor that sent the message.
    pub fn caller(&self) -> (id: u64)
        ensures
            id == self@.caller,
    {
        self.caller
    }

    /// The actor that receives the message.
    pub fn actor_id(&self) -> (id: u64)
        ensures
            id == self@.actor_id,
    {
        self.actor_id
    }

    /// The number of the method that was invoked.
    pub fn method(&self) -> (m: u64)
        ensures
            m == self@.method,
    {
        self.method
    }

    /// The value that came with the message.
    pub fn value_received(&self) -> (v: u128)
        ensures
            v == self@.value_received,
    {
        self.value_received
    }

    /// Whether the invocation may change state.
    pub fn read_only(&self) -> (b: bool)
        ensures
            b == self@.read_only,
    {
        self.read_only
    }

    /// The gas that is left.
    pub fn gas_available(&self) -> (g: u64)
        ensures
            g == self@.call_manager.gas.available(),
            self@.wf(),
    {
        self.call_manager.gas.gas_available()
    }

    /// Charges `compute_units` for the operation `name`. See
    /// `GasTracker::charge_gas`.
    pub fn charge_gas(&mut self, name: &str, compute_units: u64) -> (r: Result<
        GasTimer,
        SyscallError,
    >)
        ensures
            final(self)@.wf(),
            match r {
                Ok(timer) => old(self)@.call_manager.gas.can_afford(compute_units) && final(self)@
                    == old(self)@.with_gas(
                    old(self)@.call_manager.gas.charged(name@, compute_units),
                ) && timer.index() == old(self)@.call_manager.gas.charges.len(),
                Err(e) => !old(self)@.call_manager.gas.can_afford(compute_units) && e
                    == SyscallError::OutOfGas && final(self)@ == old(self)@.with_gas(
                    old(self)@.call_manager.gas.exhausted(),
                ),
            },
    {
        self.call_manager.gas.charge_gas(name, compute_units)
    }

    /// Releases the timer of a charge.
    pub fn stop(&mut self, timer: GasTimer)
        ensures
            final(self)@ == old(self)@.with_gas(
                old(self)@.call_manager.gas.released(timer.index()),
            ),
            final(self)@.wf(),
    {
        self.call_manager.gas.stop(timer);
    }

    /// Performs one operation of one interface: charges its cost, and, where
    /// the budget covers it, records its effect. The timer of the charge is
    /// released before the call returns.
    pub fn perform(&mut self, op: &BaseOperation) -> (r: Result<(), SyscallError>)
        ensures
            final(self)@.wf(),
            final(self)@ == old(self)@.performed(*op),
            r == old(self)@.perform_result(*op),
    {
        let timer = match self.call_manager.gas.charge_gas(op.capability.name(), op.compute_units) {
            Ok(timer) => timer,
            Err(e) => {
                return Err(e);
            },
        };
        self.call_manager.gas.stop(timer);
        self.call_manager.effects.push(Effect { capability: op.capability, selector: op.selector });
        Ok(())
    }
}

/// What a composite kernel holds, as contracts see it: the one base kernel
/// it wraps.
pub struct CompositeModel {
    pub base: KernelModel,
}

impl CompositeModel {
    /// The wrapped kernel is in order.
    pub open spec fn wf(self) -> bool {
        self.base.wf()
    }

    /// What an operation of a base interface returns on the composite
    /// kernel.
    pub open spec fn perform_result(self, op: BaseOperation) -> Result<(), SyscallError> {
        self.base.perform_result(op)
    }

    /// The composite kernel after an operation of a base interface.
    pub open spec fn performed(self, op: BaseOperation) -> CompositeModel {
        CompositeModel { base: self.base.performed(op) }
    }

    /// The composite kernel after a custom syscall.
    pub open spec fn after_custom_syscall(self) -> CompositeModel {
        CompositeModel { base: self.base.after_custom_syscall() }
    }
}

/// Forwarding changes nothing: for every operation of every interface of the
/// base kernel, the composite kernel returns what the kernel it wraps
/// returns, and leaves that kernel as the operation leaves it.
pub proof fn lemma_forwarding_parity(kernel: CompositeModel, op: BaseOperation)
    ensures
        kernel.perform_result(op) == kernel.base.perform_result(op),
        kernel.performed(op).base == kernel.base.performed(op),
{
}

/// The base kernel with the custom syscall added.
#[derive(Debug)]
pub struct CompositeKernel {
    base: BaseKernel,
}

impl View for CompositeKernel {
    type V = CompositeModel;

    closed spec fn view(&self) -> CompositeModel {
        CompositeModel { base: self.base@ }
    }
}

impl CompositeKernel {
    /// Builds the kernel for one invocation: a base kernel from the same
    /// arguments, in the same places, and the wrapper round it.
    pub fn new(
        mgr: CallManager,
        blocks: BlockRegistry,
        caller: u64,
        actor_id: u64,
        method: u64,
        value_received: u128,
        read_only: bool,
    ) -> (kernel: CompositeKernel)
        ensures
            kernel@.base == (KernelModel {
                call_manager: mgr@,
                blocks,
                caller,
                actor_id,
                method,
                value_received,
                read_only,
            }),
    {
        CompositeKernel {
            base: BaseKernel::new(mgr, blocks, caller, actor_id, method, value_received, read_only),
        }
    }

    /// Gives back what the kernel was built on.
    pub fn into_inner(self) -> (parts: (CallManager, BlockRegistry))
        ensures
            parts.0@ == self@.base.call_manager,
            parts.1 == self@.base.blocks,
    {
        self.base.into_inner()
    }

    /// The wrapped kernel.
    pub fn base(&self) -> (base: &BaseKernel)
        ensures
            base@ == self@.base,
    {
        &self.base
    }

    /// The actor that sent the message.
    pub fn caller(&self) -> (id: u64)
        ensures
            id == self@.base.caller,
    {
        self.base.caller()
    }

    /// The gas that is left.
    pub fn gas_available(&self) -> (g: u64)
        ensures
            g == self@.base.call_manager.gas.available(),
            self@.wf(),
    {
        self.base.gas_available()
    }

    /// Charges `compute_units` for the operation `name`, as the base kernel
    /// does.
    pub fn charge_gas(&mut self, name: &str, compute_units: u64) -> (r: Result<
        GasTimer,
        SyscallError,
    >)
        ensures
            final(self)@.wf(),
            match r {
                Ok(timer) => old(self)@.base.call_manager.gas.can_afford(compute_units)
                    && final(self)@.base == old(self)@.base.with_gas(
                    old(self)@.base.call_manager.gas.charged(name@, compute_units),
                ) && timer.index() == old(self)@.base.call_manager.gas.charges.len(),
                Err(e) => !old(self)@.base.call_manager.gas.can_afford(compute_units) && e
                    == SyscallError::OutOfGas && final(self)@.base == old(self)@.base.with_gas(
                    old(self)@.base.call_manager.gas.exhausted(),
                ),
            },
    {
        self.base.charge_gas(name, compute_units)
    }

    /// Releases the timer of a charge, as the base kernel does.
    pub fn stop(&mut self, timer: GasTimer)
        ensures
            final(self)@.base == old(self)@.base.with_gas(
                old(self)@.base.call_manager.gas.released(timer.index()),
            ),
            final(self)@.wf(),
    {
        self.base.stop(timer);
    }

    /// Performs one operation of a base interface by handing it to the
    /// wrapped kernel: what is returned and what is changed are exactly what
    /// the base kernel returns and changes.
    pub fn perform(&mut self, op: &BaseOperation) -> (r: Result<(), SyscallError>)
        ensures
            final(self)@.wf(),
            final(self)@.base == old(self)@.base.performed(*op),
            r == old(self)@.base.perform_result(*op),
    {
        self.base.perform(op)
    }

    /// The first half of the custom syscall: charges its price. Where the
    /// budget covers it, the timer of the charge is returned, and the payload
    /// may run; where it does not, the budget is exhausted and the call is
    /// over.
    pub fn begin_custom_syscall(&mut self) -> (r: Result<GasTimer, SyscallError>)
        ensures
            final(self)@.wf(),
            match r {
                Ok(timer) => old(self)@.base.can_afford_custom_syscall() && final(self)@.base
                    == old(self)@.base.with_gas(
                    old(self)@.base.call_manager.gas.charged(
                        CUSTOM_SYSCALL_CHARGE@,
                        old(self)@.base.call_manager.custom_syscall_price,
                    ),
                ) && timer.index() == old(self)@.base.call_manager.gas.charges.len(),
                Err(e) => !old(self)@.base.can_afford_custom_syscall() && e
                    == SyscallError::OutOfGas && final(self)@ == old(self)@.after_custom_syscall(),
            },
    {
        let price: u64 = self.base.call_manager().custom_syscall_price();
        self.base.charge_gas(CUSTOM_SYSCALL_CHARGE, price)
    }

    /// The second half of the custom syscall: releases the timer, whatever
    /// the payload returned, and turns what it returned into the result of
    /// the call.
    pub fn end_custom_syscall(
        &mut self,
        timer: GasTimer,
        outcome: Result<Vec<u8>, PayloadFailure>,
    ) -> (r: Result<FixedResult, SyscallError>)
        ensures
            final(self)@.wf(),
            final(self)@.base == old(self)@.base.with_gas(
                old(self)@.base.call_manager.gas.released(timer.index()),
            ),
            result_view(r) == spec_conclude(outcome_view(outcome)),
    {
        self.base.stop(timer);
        conclude(outcome)
    }

    /// The custom capability: runs the payload on one request.
    ///
    /// The price of the call is charged before the payload runs. Where the
    /// budget does not cover it the call fails with `OutOfGas` and the
    /// payload is not run. The timer of the charge is released on every way
    /// out. Whatever the payload does, only the gas accounting of the kernel
    /// changes, and the result is what `conclude` makes of an answer the
    /// payload admits to the request: a whole buffer, or a failure of the
    /// payload's or of the encoding's kind. The payload is left as it says a
    /// run may leave it.
    pub fn custom_syscall<P: Payload>(
        &mut self,
        payload: &mut P,
        user_index: i64,
        user_activity_matrix: &[u8; 1000],
        k: i64,
    ) -> (r: Result<FixedResult, SyscallError>)
        ensures
            final(self)@.wf(),
            final(self)@ == old(self)@.after_custom_syscall(),
            !old(self)@.base.can_afford_custom_syscall() ==> r == Err::<FixedResult, SyscallError>(
                SyscallError::OutOfGas,
            ) && *final(payload) == *old(payload),
            old(self)@.base.can_afford_custom_syscall() ==> concludes(
                *old(payload),
                user_index,
                user_activity_matrix@,
                k,
                result_view(r),
            ) && old(payload).may_become(final(payload)),
    {
        let timer = match self.begin_custom_syscall() {
            Ok(timer) => timer,
            Err(e) => {
                return Err(e);
            },
        };
        let outcome = payload.run(user_index, user_activity_matrix, k);
        let r = self.end_custom_syscall(timer, outcome);
        assert(old(payload).admits(user_index, user_activity_matrix@, k, outcome_view(outcome)));
        r
    }
}

} // verus!
