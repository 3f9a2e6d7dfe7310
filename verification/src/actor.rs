//! The actor through which a guest reaches the custom syscall: it checks who
//! calls, hands the parameters over in the shape the adapter takes, and
//! brings the result back.

use vstd::prelude::*;
use crate::abi::{marshal_params, unmarshal_result, SyscallArgs};
use crate::codec::{cbor_fields, decode_params, spec_from_fields};
use crate::error::SyscallError;
use crate::kernel::CompositeKernel;
use crate::payload::{concludes, Payload};
use crate::linker::{
    custom_syscall_key,
    invoke_syscall,
    reaches_custom_syscall,
    SyscallTable,
    TableModel,
    CUSTOM_SYSCALL_FUNCTION,
    CUSTOM_SYSCALL_MODULE,
};
use crate::shared::{result_view, FixedResult, InvokeParams, Method, CUSTOMSYSCALL_ACTOR_NAME};

verus! {

/// The id of the system actor, the one caller the actor answers to.
pub const SYSTEM_ACTOR_ID: u64 = 0;

/// Checks that `caller` is one of `allowed`.
pub fn validate_immediate_caller_is(caller: u64, allowed: &[u64]) -> (r: Result<(), SyscallError>)
    ensures
        r == (if allowed@.contains(caller) {
            Ok::<(), SyscallError>(())
        } else {
            Err::<(), SyscallError>(SyscallError::Authorization)
        }),
{
    let mut i: usize = 0;
    while i < allowed.len()
        invariant
            i <= allowed@.len(),
            forall|j: int| 0 <= j < i ==> allowed@[j] != caller,
        decreases allowed@.len() - i,
    {
        if allowed[i] == caller {
            return Ok(());
        }
        i = i + 1;
    }
    Err(SyscallError::Authorization)
}

/// The actor that exposes the custom syscall as the method `Invoke`.
#[derive(Debug)]
pub struct Actor;

impl Actor {
    /// Whether the actor answers to `caller`. The list of callers is fixed:
    /// it holds the system actor and nobody else.
    pub open spec fn authorized(caller: u64) -> bool {
        caller == SYSTEM_ACTOR_ID
    }

    /// Whether the custom syscall can be reached through `table` under its
    /// own names.
    pub open spec fn linked(table: TableModel) -> bool {
        reaches_custom_syscall(table, custom_syscall_key())
    }

    /// Why `Invoke` is refused before the kernel is reached, if it is: the
    /// caller is checked first, then the link.
    pub open spec fn refusal(caller: u64, table: TableModel) -> Option<SyscallError> {
        if !Self::authorized(caller) {
            Some(SyscallError::Authorization)
        } else if !Self::linked(table) {
            Some(SyscallError::CapabilityExecution)
        } else {
            None
        }
    }

    /// The fields a parameter block holds, where it holds the parameters.
    pub open spec fn decoded(block: Seq<u8>) -> (i64, Seq<u8>, i64) {
        spec_from_fields(cbor_fields(block)).unwrap()
    }

    /// Why the guest refuses a message before it makes the syscall, if it
    /// does. The method number is looked up first, then the caller is
    /// checked, and only then are the parameters read.
    pub open spec fn guest_refusal(method_num: u64, caller: u64, block: Seq<u8>) -> Option<
        SyscallError,
    > {
        if Method::spec_from_u64(method_num) is None {
            Some(SyscallError::MethodNotFound)
        } else if !Self::authorized(caller) {
            Some(SyscallError::Authorization)
        } else if spec_from_fields(cbor_fields(block)) is Err {
            Some(SyscallError::Encoding)
        } else {
            None
        }
    }

    /// Why a message is refused before the kernel is reached, if it is: for
    /// the guest's reasons, or because the syscall is not linked.
    pub open spec fn dispatch_refusal(
        method_num: u64,
        caller: u64,
        block: Seq<u8>,
        table: TableModel,
    ) -> Option<SyscallError> {
        if Self::guest_refusal(method_num, caller, block) is Some {
            Self::guest_refusal(method_num, caller, block)
        } else if !Self::linked(table) {
            Some(SyscallError::CapabilityExecution)
        } else {
            None
        }
    }

    /// A caller that is not on the allow-list is refused for that reason
    /// and no other, whatever the parameters hold and whatever is linked:
    /// the check of the caller comes before any use of either.
    pub proof fn lemma_unauthorized_is_refused_first(
        method_num: u64,
        caller: u64,
        block: Seq<u8>,
        table: TableModel,
    )
        requires
            !Self::authorized(caller),
        ensures
            Self::refusal(caller, table) == Some(SyscallError::Authorization),
            Method::spec_from_u64(method_num) is Some ==> Self::dispatch_refusal(
                method_num,
                caller,
                block,
                table,
            ) == Some(SyscallError::Authorization),
            Method::spec_from_u64(method_num) is None ==> Self::dispatch_refusal(
                method_num,
                caller,
                block,
                table,
            ) == Some(SyscallError::MethodNotFound),
    {
    }

    /// The dispatch table has one entry: the number of `Invoke` reaches
    /// `Invoke`, and every other number is refused as unknown.
    pub proof fn lemma_one_entry_per_method(method_num: u64)
        ensures
            Method::spec_from_u64(method_num) == Some(Method::Invoke) <==> method_num
                == Method::Invoke.spec_number(),
            Method::spec_from_u64(method_num) is None <==> method_num
                != Method::Invoke.spec_number(),
    {
    }

    /// The name under which the actor is registered.
    pub fn name() -> (n: &'static str)
        ensures
            n@ == CUSTOMSYSCALL_ACTOR_NAME@,
    {
        CUSTOMSYSCALL_ACTOR_NAME
    }

    /// Checks the caller against the allow-list.
    pub fn validate_caller(caller: u64) -> (r: Result<(), SyscallError>)
        ensures
            r == (if Self::authorized(caller) {
                Ok::<(), SyscallError>(())
            } else {
                Err::<(), SyscallError>(SyscallError::Authorization)
            }),
    {
        let allowed: [u64; 1] = [SYSTEM_ACTOR_ID];
        assert(allowed@.contains(caller) <==> caller == SYSTEM_ACTOR_ID) by {
            assert(allowed@[0] == SYSTEM_ACTOR_ID);
        }
        validate_immediate_caller_is(caller, allowed.as_slice())
    }

    /// The guest's part of `Invoke` up to the syscall: the caller is
    /// checked, and only then are the parameters touched and handed over,
    /// field by field, as the arguments of the adapter.
    pub fn prepare(caller: u64, params: &InvokeParams) -> (r: Result<SyscallArgs, SyscallError>)
        ensures
            match r {
                Ok(args) => Self::authorized(caller) && args.user_index == params.user_index
                    && args.user_activity_matrix == params.user_activity_matrix && args.k
                    == params.k,
                Err(e) => !Self::authorized(caller) && e == SyscallError::Authorization,
            },
    {
        match Self::validate_caller(caller) {
            Ok(()) => Ok(marshal_params(params)),
            Err(e) => Err(e),
        }
    }

    /// The guest's part of a message up to the syscall: the dispatch table,
    /// which has the one entry `Invoke`, then the check of the caller, then
    /// the reading of the parameter block. What comes out are the arguments
    /// of the adapter, or the reason why the syscall is not made.
    pub fn dispatch(caller: u64, method_num: u64, block: &[u8]) -> (r: Result<
        SyscallArgs,
        SyscallError,
    >)
        ensures
            match r {
                Ok(args) => Self::guest_refusal(method_num, caller, block@) is None
                    && Self::decoded(block@) == (
                    args.user_index,
                    args.user_activity_matrix@,
                    args.k,
                ),
                Err(e) => Self::guest_refusal(method_num, caller, block@) == Some(e),
            },
    {
        match Method::from_u64(method_num) {
            Some(Method::Invoke) => {},
            None => {
                return Err(SyscallError::MethodNotFound);
            },
        }
        match Self::validate_caller(caller) {
            Ok(()) => {},
            Err(e) => {
                return Err(e);
            },
        }
        match decode_params(block) {
            Ok(params) => Ok(marshal_params(&params)),
            Err(e) => Err(e),
        }
    }

    /// Makes the syscall for a caller that has been checked: crosses the
    /// boundary under the names of the custom syscall, and reads back what
    /// the host wrote.
    fn call_syscall<P: Payload>(
        kernel: &mut CompositeKernel,
        table: &SyscallTable,
        payload: &mut P,
        args: &SyscallArgs,
    ) -> (r: Result<FixedResult, SyscallError>)
        ensures
            !Self::linked(table@) ==> r == Err::<FixedResult, SyscallError>(
                SyscallError::CapabilityExecution,
            ) && final(kernel)@ == old(kernel)@ && *final(payload) == *old(payload),
            Self::linked(table@) ==> final(kernel)@ == old(kernel)@.after_custom_syscall()
                && final(kernel)@.wf(),
            Self::linked(table@) && !old(kernel)@.base.can_afford_custom_syscall() ==> r == Err::<
                FixedResult,
                SyscallError,
            >(SyscallError::OutOfGas) && *final(payload) == *old(payload),
            Self::linked(table@) && old(kernel)@.base.can_afford_custom_syscall() ==> concludes(
                *old(payload),
                args.user_index,
                args.user_activity_matrix@,
                args.k,
                result_view(r),
            ) && old(payload).may_become(final(payload)),
    {
        let ret = invoke_syscall(
            table,
            kernel,
            payload,
            CUSTOM_SYSCALL_MODULE,
            CUSTOM_SYSCALL_FUNCTION,
            args,
        );
        unmarshal_result(&ret)
    }

    /// The method `Invoke`: runs the custom syscall on behalf of the caller
    /// of the message `kernel` was built for.
    ///
    /// A caller that is not on the allow-list is turned away before anything
    /// else happens: the payload does not run, no gas is charged, and the
    /// kernel is left as it was. For a caller that is, the call costs the
    /// price of the syscall and returns a whole buffer or a failure of a
    /// known kind, and the payload is left as it says a run may leave it.
    pub fn invoke<P: Payload>(
        kernel: &mut CompositeKernel,
        table: &SyscallTable,
        payload: &mut P,
        params: InvokeParams,
    ) -> (r: Result<FixedResult, SyscallError>)
        ensures
            Self::refusal(old(kernel)@.base.caller, table@) matches Some(e) ==> r == Err::<
                FixedResult,
                SyscallError,
            >(e) && final(kernel)@ == old(kernel)@ && *final(payload) == *old(payload),
            Self::refusal(old(kernel)@.base.caller, table@) is None ==> final(kernel)@ == old(
                kernel,
            )@.after_custom_syscall() && final(kernel)@.wf(),
            Self::refusal(old(kernel)@.base.caller, table@) is None && !old(
                kernel,
            )@.base.can_afford_custom_syscall() ==> r == Err::<FixedResult, SyscallError>(
                SyscallError::OutOfGas,
            ) && *final(payload) == *old(payload),
            Self::refusal(old(kernel)@.base.caller, table@) is None && old(
                kernel,
            )@.base.can_afford_custom_syscall() ==> concludes(
                *old(payload),
                params.user_index,
                params.user_activity_matrix@,
                params.k,
                result_view(r),
            ) && old(payload).may_become(final(payload)),
    {
        let args = match Self::prepare(kernel.caller(), &params) {
            Ok(args) => args,
            Err(e) => {
                return Err(e);
            },
        };
        Self::call_syscall(kernel, table, payload, &args)
    }

    /// A whole message, from the method number to the result: `dispatch`,
    /// and for what it lets through, the syscall.
    ///
    /// A method number without an entry fails with `MethodNotFound`. For
    /// `Invoke` the caller is checked before the parameter block is read, a
    /// block that does not hold the parameters is an encoding error, and
    /// what is left is `invoke` on the parameters read.
    pub fn invoke_method<P: Payload>(
        kernel: &mut CompositeKernel,
        table: &SyscallTable,
        payload: &mut P,
        method_num: u64,
        block: &[u8],
    ) -> (r: Result<FixedResult, SyscallError>)
        ensures
            Self::dispatch_refusal(method_num, old(kernel)@.base.caller, block@, table@) matches Some(
                e,
            ) ==> r == Err::<FixedResult, SyscallError>(e) && final(kernel)@ == old(kernel)@
                && *final(payload) == *old(payload),
            Self::dispatch_refusal(method_num, old(kernel)@.base.caller, block@, table@) is None
                ==> final(kernel)@ == old(kernel)@.after_custom_syscall() && final(kernel)@.wf(),
            Self::dispatch_refusal(method_num, old(kernel)@.base.caller, block@, table@) is None
                && !old(kernel)@.base.can_afford_custom_syscall() ==> r == Err::<
                FixedResult,
                SyscallError,
            >(SyscallError::OutOfGas) && *final(payload) == *old(payload),
            Self::dispatch_refusal(method_num, old(kernel)@.base.caller, block@, table@) is None
                && old(kernel)@.base.can_afford_custom_syscall() ==> concludes(
                *old(payload),
                Self::decoded(block@).0,
                Self::decoded(block@).1,
                Self::decoded(block@).2,
                result_view(r),
            ) && old(payload).may_become(final(payload)),
    {
        let args = match Self::dispatch(kernel.caller(), method_num, block) {
            Ok(args) => args,
            Err(e) => {
                return Err(e);
            },
        };
        Self::call_syscall(kernel, table, payload, &args)
    }
}

} // verus!
