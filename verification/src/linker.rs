//! The syscall table: which handler a guest reaches under which
//! (module, function) pair, and how the pairs get there.

use vstd::prelude::*;
use crate::abi::{
    lemma_result_round_trip,
    marshal_result,
    spec_marshal_result,
    spec_unmarshal_result,
    SyscallArgs,
    SyscallReturn,
};
use crate::capability::BaseCapability;
use crate::error::SyscallError;
use crate::kernel::CompositeKernel;
use crate::payload::{concludes, Payload};
use crate::shared::{result_view, FixedResult};

verus! {

/// The module under which the custom syscall is linked.
pub const CUSTOM_SYSCALL_MODULE: &'static str = "my_custom_kernel";

/// The function name under which the custom syscall is linked.
pub const CUSTOM_SYSCALL_FUNCTION: &'static str = "my_custom_syscall";

/// What a pair of names is bound to.
#[derive(Clone, Copy, Debug, PartialEq, Eq, Structural)]
pub enum SyscallHandler {
    /// A syscall of the base kernel, by the interface it belongs to.
    Base(BaseCapability),
    /// The adapter of the custom syscall, `my_custom_syscall`.
    Custom,
}

/// The names of a syscall: its module, then its function.
pub type SyscallKey = (Seq<char>, Seq<char>);

/// A syscall table, as contracts see it.
pub type TableModel = Map<SyscallKey, SyscallHandler>;

/// The key of the custom syscall.
pub open spec fn custom_syscall_key() -> SyscallKey {
    (CUSTOM_SYSCALL_MODULE@, CUSTOM_SYSCALL_FUNCTION@)
}

/// Whether the custom syscall is reached under `key`.
pub open spec fn reaches_custom_syscall(table: TableModel, key: SyscallKey) -> bool {
    spec_resolve(table, key) == Some(SyscallHandler::Custom)
}

/// What registering one syscall comes to.
pub struct LinkOutcome {
    /// The table afterwards.
    pub table: TableModel,
    /// Whether the registration was accepted.
    pub result: Result<(), SyscallError>,
}

/// Registers `handler` under `key`. A key that is taken is a conflict and
/// leaves the table as it was: nothing is ever overwritten.
pub open spec fn spec_link(table: TableModel, key: SyscallKey, handler: SyscallHandler) -> LinkOutcome {
    if table.contains_key(key) {
        LinkOutcome { table, result: Err(SyscallError::LinkageConflict) }
    } else {
        LinkOutcome { table: table.insert(key, handler), result: Ok(()) }
    }
}

/// What a lookup gives: the handler under the key, if there is one.
pub open spec fn spec_resolve(table: TableModel, key: SyscallKey) -> Option<SyscallHandler> {
    if table.contains_key(key) {
        Some(table[key])
    } else {
        None
    }
}

/// A syscall of the base kernel, as it asks to be linked.
#[derive(Debug)]
pub struct BaseSyscall {
    pub module: String,
    pub function: String,
    pub capability: BaseCapability,
}

impl BaseSyscall {
    /// The names under which the syscall asks to be linked.
    pub open spec fn key(&self) -> SyscallKey {
        (self.module@, self.function@)
    }
}

/// Registers the syscalls of the base kernel, first to last, each under its
/// own names and bound to its own interface. The first conflict ends the
/// linking; what was registered before it stays.
pub open spec fn spec_link_base(table: TableModel, base: Seq<BaseSyscall>) -> LinkOutcome
    decreases base.len(),
{
    if base.len() == 0 {
        LinkOutcome { table, result: Ok(()) }
    } else {
        let before = spec_link_base(table, base.drop_last());
        if before.result is Err {
            before
        } else {
            spec_link(before.table, base.last().key(), SyscallHandler::Base(base.last().capability))
        }
    }
}

/// Links the composite kernel: every syscall of the base kernel, unchanged,
/// and then the custom syscall under its own names.
pub open spec fn spec_link_syscalls(table: TableModel, base: Seq<BaseSyscall>) -> LinkOutcome {
    let before = spec_link_base(table, base);
    if before.result is Err {
        before
    } else {
        spec_link(before.table, custom_syscall_key(), SyscallHandler::Custom)
    }
}

/// A pair of names can be linked once. The second registration under the
/// same pair fails, whatever it asks for, and the table keeps what the first
/// one put there.
pub proof fn lemma_duplicate_link_conflicts(
    table: TableModel,
    key: SyscallKey,
    first: SyscallHandler,
    second: SyscallHandler,
)
    ensures
        spec_link(spec_link(table, key, first).table, key, second).result == Err::<
            (),
            SyscallError,
        >(SyscallError::LinkageConflict),
        spec_link(spec_link(table, key, first).table, key, second).table == spec_link(
            table,
            key,
            first,
        ).table,
        spec_link(table, key, first).result is Ok ==> spec_resolve(
            spec_link(spec_link(table, key, first).table, key, second).table,
            key,
        ) == Some(first),
{
}

/// Two syscalls under different pairs of names are both linked, and each is
/// found under its own pair afterwards.
pub proof fn lemma_distinct_links_coexist(
    table: TableModel,
    key_a: SyscallKey,
    handler_a: SyscallHandler,
    key_b: SyscallKey,
    handler_b: SyscallHandler,
)
    requires
        key_a != key_b,
        !table.contains_key(key_a),
        !table.contains_key(key_b),
    ensures
        spec_link(table, key_a, handler_a).result is Ok,
        spec_link(spec_link(table, key_a, handler_a).table, key_b, handler_b).result is Ok,
        spec_resolve(
            spec_link(spec_link(table, key_a, handler_a).table, key_b, handler_b).table,
            key_a,
        ) == Some(handler_a),
        spec_resolve(
            spec_link(spec_link(table, key_a, handler_a).table, key_b, handler_b).table,
            key_b,
        ) == Some(handler_b),
{
}

/// Linking only ever adds: what is in the table stays there, bound to what
/// it was bound to, whether the registration succeeds or not.
pub proof fn lemma_link_keeps_entries(
    table: TableModel,
    key: SyscallKey,
    handler: SyscallHandler,
    other: SyscallKey,
)
    requires
        table.contains_key(other),
    ensures
        spec_resolve(spec_link(table, key, handler).table, other) == spec_resolve(table, other),
{
}

/// Linking the syscalls of the base kernel keeps every entry that was there
/// before.
pub proof fn lemma_link_base_keeps_entries(
    table: TableModel,
    base: Seq<BaseSyscall>,
    other: SyscallKey,
)
    requires
        table.contains_key(other),
    ensures
        spec_resolve(spec_link_base(table, base).table, other) == spec_resolve(table, other),
    decreases base.len(),
{
    if base.len() > 0 {
        lemma_link_base_keeps_entries(table, base.drop_last(), other);
    }
}

/// Where the linking of the base kernel succeeds, every one of its syscalls
/// is found under its own names, bound to its own interface: none is left
/// out, and none is shadowed by a later one.
pub proof fn lemma_link_base_installs_all(table: TableModel, base: Seq<BaseSyscall>, i: int)
    requires
        spec_link_base(table, base).result is Ok,
        0 <= i < base.len(),
    ensures
        spec_resolve(spec_link_base(table, base).table, base[i].key()) == Some(
            SyscallHandler::Base(base[i].capability),
        ),
    decreases base.len(),
{
    let before = spec_link_base(table, base.drop_last());
    if i < base.len() - 1 {
        lemma_link_base_installs_all(table, base.drop_last(), i);
        assert(base.drop_last()[i] == base[i]);
    }
}

/// Where the linking of the composite kernel succeeds, the custom syscall is
/// found under its own names and every syscall of the base kernel under its
/// own, each bound to what it asked for.
pub proof fn lemma_link_syscalls_installs_all(table: TableModel, base: Seq<BaseSyscall>, i: int)
    requires
        spec_link_syscalls(table, base).result is Ok,
    ensures
        spec_resolve(spec_link_syscalls(table, base).table, custom_syscall_key()) == Some(
            SyscallHandler::Custom,
        ),
        0 <= i < base.len() ==> spec_resolve(spec_link_syscalls(table, base).table, base[i].key())
            == Some(SyscallHandler::Base(base[i].capability)),
        !table.contains_key(custom_syscall_key()),
{
    if 0 <= i < base.len() {
        lemma_link_base_installs_all(table, base, i);
    }
    if table.contains_key(custom_syscall_key()) {
        lemma_link_base_keeps_entries(table, base, custom_syscall_key());
    }
}

/// One row of the table.
#[derive(Debug)]
struct SyscallEntry {
    module: String,
    function: String,
    handler: SyscallHandler,
}

impl SyscallEntry {
    spec fn key(&self) -> SyscallKey {
        (self.module@, self.function@)
    }
}

/// The handler of the last row under `key`.
spec fn lookup(entries: Seq<SyscallEntry>, key: SyscallKey) -> Option<SyscallHandler>
    decreases entries.len(),
{
    if entries.len() == 0 {
        None
    } else if entries.last().key() == key {
        Some(entries.last().handler)
    } else {
        lookup(entries.drop_last(), key)
    }
}

/// The table that guests are linked against. It is filled while a guest
/// binary is loaded and only read afterwards.
#[derive(Debug)]
pub struct SyscallTable {
    entries: Vec<SyscallEntry>,
}

impl View for SyscallTable {
    type V = TableModel;

    closed spec fn view(&self) -> TableModel {
        Map::new(
            |key: SyscallKey| lookup(self.entries@, key) is Some,
            |key: SyscallKey| lookup(self.entries@, key).unwrap(),
        )
    }
}

impl SyscallTable {
    /// A table without entries.
    pub fn new() -> (table: SyscallTable)
        ensures
            table@ == Map::<SyscallKey, SyscallHandler>::empty(),
    {
        let table = SyscallTable { entries: Vec::new() };
        assert(table@ =~= Map::<SyscallKey, SyscallHandler>::empty());
        table
    }

    /// Looks up the handler linked under a pair of names.
    pub fn resolve(&self, module: &str, function: &str) -> (r: Option<SyscallHandler>)
        ensures
            r == spec_resolve(self@, (module@, function@)),
    {
        let module_name: String = module.to_owned();
        let function_name: String = function.to_owned();
        let ghost key: SyscallKey = (module@, function@);
        let mut i: usize = self.entries.len();
        assert(self.entries@.take(i as int) =~= self.entries@);
        while i > 0
            invariant
                i <= self.entries@.len(),
                key == (module@, function@),
                module_name@ == module@,
                function_name@ == function@,
                lookup(self.entries@, key) == lookup(self.entries@.take(i as int), key),
            decreases i,
        {
            i = i - 1;
            let entry = &self.entries[i];
            assert(self.entries@.take(i + 1).last() == self.entries@[i as int]);
            assert(self.entries@.take(i + 1).drop_last() =~= self.entries@.take(i as int));
            if entry.module == module_name && entry.function == function_name {
                return Some(entry.handler);
            }
        }
        None
    }

    /// Registers `handler` under `(module, function)`. A pair that is
    /// already linked is a conflict: the call fails, and the table stays as
    /// it was.
    pub fn link_syscall(&mut self, module: &str, function: &str, handler: SyscallHandler) -> (r:
        Result<(), SyscallError>)
        ensures
            final(self)@ == spec_link(old(self)@, (module@, function@), handler).table,
            r == spec_link(old(self)@, (module@, function@), handler).result,
    {
        if self.resolve(module, function).is_some() {
            return Err(SyscallError::LinkageConflict);
        }
        let entry = SyscallEntry {
            module: module.to_owned(),
            function: function.to_owned(),
            handler,
        };
        self.entries.push(entry);
        proof {
            let key: SyscallKey = (module@, function@);
            assert(self.entries@.drop_last() =~= old(self).entries@);
            assert(self@ =~= old(self)@.insert(key, handler));
        }
        Ok(())
    }
}

/// Registers the syscalls of the base kernel in `linker`, first to last.
pub fn link_base_syscalls(linker: &mut SyscallTable, base: &Vec<BaseSyscall>) -> (r: Result<
    (),
    SyscallError,
>)
    ensures
        final(linker)@ == spec_link_base(old(linker)@, base@).table,
        r == spec_link_base(old(linker)@, base@).result,
{
    let mut i: usize = 0;
    assert(base@.take(0) =~= Seq::<BaseSyscall>::empty());
    while i < base.len()
        invariant
            i <= base@.len(),
            linker@ == spec_link_base(old(linker)@, base@.take(i as int)).table,
            spec_link_base(old(linker)@, base@.take(i as int)).result is Ok,
        decreases base@.len() - i,
    {
        let entry = &base[i];
        proof {
            assert(base@.take(i + 1).drop_last() =~= base@.take(i as int));
            assert(base@.take(i + 1).last() == base@[i as int]);
        }
        let linked = linker.link_syscall(
            entry.module.as_str(),
            entry.function.as_str(),
            SyscallHandler::Base(entry.capability),
        );
        if linked.is_err() {
            proof {
                lemma_link_base_stops(old(linker)@, base@, i + 1);
            }
            return linked;
        }
        i = i + 1;
    }
    assert(base@.take(i as int) =~= base@);
    Ok(())
}

/// Once the linking of a prefix has failed, the rest is not looked at.
proof fn lemma_link_base_stops(table: TableModel, base: Seq<BaseSyscall>, n: int)
    requires
        0 <= n <= base.len(),
        spec_link_base(table, base.take(n)).result is Err,
    ensures
        spec_link_base(table, base) == spec_link_base(table, base.take(n)),
    decreases base.len() - n,
{
    if n == base.len() {
        assert(base.take(n) =~= base);
    } else {
        assert(base.take(n + 1).drop_last() =~= base.take(n));
        lemma_link_base_stops(table, base, n + 1);
    }
}

/// Links the composite kernel in `linker`: first every syscall of the base
/// kernel, unchanged, then the custom syscall under
/// `(CUSTOM_SYSCALL_MODULE, CUSTOM_SYSCALL_FUNCTION)`. Fails on the first
/// pair of names that is already linked.
pub fn link_syscalls(linker: &mut SyscallTable, base: &Vec<BaseSyscall>) -> (r: Result<
    (),
    SyscallError,
>)
    ensures
        final(linker)@ == spec_link_syscalls(old(linker)@, base@).table,
        r == spec_link_syscalls(old(linker)@, base@).result,
{
    match link_base_syscalls(linker, base) {
        Ok(()) => {},
        Err(e) => {
            return Err(e);
        },
    }
    linker.link_syscall(CUSTOM_SYSCALL_MODULE, CUSTOM_SYSCALL_FUNCTION, SyscallHandler::Custom)
}

/// The adapter of the custom syscall: the one function through which a
/// guest's call reaches the composite kernel. It takes integers and a buffer
/// of the fixed size, nothing whose layout depends on its content.
pub fn my_custom_syscall<P: Payload>(
    kernel: &mut CompositeKernel,
    payload: &mut P,
    user_index: i64,
    user_activity_matrix: &[u8; 1000],
    k: i64,
) -> (r: Result<FixedResult, SyscallError>)
    ensures
        final(kernel)@.wf(),
        final(kernel)@ == old(kernel)@.after_custom_syscall(),
        !old(kernel)@.base.can_afford_custom_syscall() ==> r == Err::<FixedResult, SyscallError>(
            SyscallError::OutOfGas,
        ) && *final(payload) == *old(payload),
        old(kernel)@.base.can_afford_custom_syscall() ==> concludes(
            *old(payload),
            user_index,
            user_activity_matrix@,
            k,
            result_view(r),
        ) && old(payload).may_become(final(payload)),
{
    kernel.custom_syscall(payload, user_index, user_activity_matrix, k)
}

/// The host's side of a guest's call: looks up what is linked under the
/// names the guest asks for, runs the adapter, and writes the result as code
/// and buffer.
///
/// Names that do not reach the custom syscall cannot be executed with its
/// arguments: the call fails as `CapabilityExecution` before anything is
/// touched. An answer comes back under `RESULT_OK`, a failure under the code
/// of its kind and with a zeroed buffer.
pub fn invoke_syscall<P: Payload>(
    table: &SyscallTable,
    kernel: &mut CompositeKernel,
    payload: &mut P,
    module: &str,
    function: &str,
    args: &SyscallArgs,
) -> (ret: SyscallReturn)
    ensures
        !reaches_custom_syscall(table@, (module@, function@)) ==> (ret.code, ret.buffer@)
            == spec_marshal_result(Err(SyscallError::CapabilityExecution)) && final(kernel)@
            == old(kernel)@ && *final(payload) == *old(payload),
        reaches_custom_syscall(table@, (module@, function@)) ==> final(kernel)@ == old(
            kernel,
        )@.after_custom_syscall() && final(kernel)@.wf(),
        reaches_custom_syscall(table@, (module@, function@)) && !old(
            kernel,
        )@.base.can_afford_custom_syscall() ==> (ret.code, ret.buffer@) == spec_marshal_result(
            Err(SyscallError::OutOfGas),
        ) && *final(payload) == *old(payload),
        reaches_custom_syscall(table@, (module@, function@)) && old(
            kernel,
        )@.base.can_afford_custom_syscall() ==> concludes(
            *old(payload),
            args.user_index,
            args.user_activity_matrix@,
            args.k,
            spec_unmarshal_result(ret.code, ret.buffer@),
        ) && (ret.code, ret.buffer@) == spec_marshal_result(
            spec_unmarshal_result(ret.code, ret.buffer@),
        ) && old(payload).may_become(final(payload)),
{
    let result = match table.resolve(module, function) {
        Some(SyscallHandler::Custom) => my_custom_syscall(
            kernel,
            payload,
            args.user_index,
            &args.user_activity_matrix,
            args.k,
        ),
        _ => Err(SyscallError::CapabilityExecution),
    };
    proof {
        lemma_result_round_trip(result_view(result));
    }
    marshal_result(&result)
}

} // verus!
