//! The failures a call into the custom capability can end in, and the result
//! codes under which they cross the guest/host boundary.

use vstd::prelude::*;

verus! {

/// Why linking, dispatching or executing the custom syscall failed.
///
/// Every failure is one of these kinds and reaches the message's result
/// unchanged: nothing is retried, and no kind is ever turned into a success.
#[derive(Clone, Copy, Debug, PartialEq, Eq, Structural)]
pub enum SyscallError {
    /// The caller is not on the allow-list.
    Authorization,
    /// A parameter block or a result does not fit its fixed layout.
    Encoding,
    /// The payload behind the custom capability failed.
    CapabilityExecution,
    /// The gas budget is exhausted.
    OutOfGas,
    /// A (module, function) pair was registered a second time.
    LinkageConflict,
    /// The method number has no entry in the dispatch table.
    MethodNotFound,
}

/// The result code of a syscall that succeeded.
pub const RESULT_OK: u32 = 0;

/// The exit code of a message that succeeded.
pub const EXIT_OK: u32 = 0;

/// The lowest exit code an actor may end a message with. A lower one, other
/// than `EXIT_OK`, is not recorded as it is given.
pub const FIRST_USER_EXIT_CODE: u32 = 16;

impl SyscallError {
    /// The result code that stands for this kind on the guest/host boundary.
    /// The numbers are those of the host's syscall error numbers for the
    /// nearest condition; none of them is `RESULT_OK`.
    pub open spec fn spec_code(self) -> u32 {
        match self {
            SyscallError::Authorization => 11,
            SyscallError::Encoding => 10,
            SyscallError::CapabilityExecution => 2,
            SyscallError::OutOfGas => 3,
            SyscallError::LinkageConflict => 4,
            SyscallError::MethodNotFound => 6,
        }
    }

    /// The kind a result code stands for, if it stands for one.
    pub open spec fn spec_from_code(code: u32) -> Option<SyscallError> {
        if code == 11 {
            Some(SyscallError::Authorization)
        } else if code == 10 {
            Some(SyscallError::Encoding)
        } else if code == 2 {
            Some(SyscallError::CapabilityExecution)
        } else if code == 3 {
            Some(SyscallError::OutOfGas)
        } else if code == 4 {
            Some(SyscallError::LinkageConflict)
        } else if code == 6 {
            Some(SyscallError::MethodNotFound)
        } else {
            None
        }
    }

    /// The exit code under which a message that failed in this way shows in
    /// its receipt: the exit code the chain's actors use for the nearest
    /// condition. Each kind has its own, and each is one an actor may end a
    /// message with, so the receipt shows it as it is given and tells the
    /// kinds apart.
    pub open spec fn spec_exit_code(self) -> u32 {
        match self {
            SyscallError::Authorization => 18,
            SyscallError::Encoding => 21,
            SyscallError::CapabilityExecution => 20,
            SyscallError::OutOfGas => 19,
            SyscallError::LinkageConflict => 24,
            SyscallError::MethodNotFound => 22,
        }
    }

    /// Returns the exit code of this kind.
    pub fn exit_code(self) -> (c: u32)
        ensures
            c == self.spec_exit_code(),
            c >= FIRST_USER_EXIT_CODE,
    {
        match self {
            SyscallError::Authorization => 18,
            SyscallError::Encoding => 21,
            SyscallError::CapabilityExecution => 20,
            SyscallError::OutOfGas => 19,
            SyscallError::LinkageConflict => 24,
            SyscallError::MethodNotFound => 22,
        }
    }

    /// A few words on the kind, for the message that goes with the exit
    /// code.
    pub open spec fn spec_message(self) -> Seq<char> {
        match self {
            SyscallError::Authorization => "caller is not allowed"@,
            SyscallError::Encoding => "parameters or result do not fit the fixed layout"@,
            SyscallError::CapabilityExecution => "custom syscall failed"@,
            SyscallError::OutOfGas => "out of gas"@,
            SyscallError::LinkageConflict => "syscall is already linked"@,
            SyscallError::MethodNotFound => "invalid method"@,
        }
    }

    /// Returns the words that go with the kind.
    pub fn message(self) -> (m: &'static str)
        ensures
            m@ == self.spec_message(),
    {
        match self {
            SyscallError::Authorization => "caller is not allowed",
            SyscallError::Encoding => "parameters or result do not fit the fixed layout",
            SyscallError::CapabilityExecution => "custom syscall failed",
            SyscallError::OutOfGas => "out of gas",
            SyscallError::LinkageConflict => "syscall is already linked",
            SyscallError::MethodNotFound => "invalid method",
        }
    }

    /// Two kinds never share an exit code or a result code, and every exit
    /// code is one an actor may end a message with.
    pub proof fn lemma_codes_tell_kinds_apart(a: SyscallError, b: SyscallError)
        ensures
            a.spec_exit_code() == b.spec_exit_code() <==> a == b,
            a.spec_code() == b.spec_code() <==> a == b,
            a.spec_exit_code() >= FIRST_USER_EXIT_CODE,
            a.spec_exit_code() != EXIT_OK,
            a.spec_code() != RESULT_OK,
    {
    }

    /// Returns the result code of this kind.
    pub fn code(self) -> (c: u32)
        ensures
            c == self.spec_code(),
            c != RESULT_OK,
    {
        match self {
            SyscallError::Authorization => 11,
            SyscallError::Encoding => 10,
            SyscallError::CapabilityExecution => 2,
            SyscallError::OutOfGas => 3,
            SyscallError::LinkageConflict => 4,
            SyscallError::MethodNotFound => 6,
        }
    }

    /// Reads a result code back into the kind it stands for. `RESULT_OK` and
    /// every number that no kind uses give `None`.
    pub fn from_code(code: u32) -> (r: Option<SyscallError>)
        ensures
            r == Self::spec_from_code(code),
    {
        if code == 11 {
            Some(SyscallError::Authorization)
        } else if code == 10 {
            Some(SyscallError::Encoding)
        } else if code == 2 {
            Some(SyscallError::CapabilityExecution)
        } else if code == 3 {
            Some(SyscallError::OutOfGas)
        } else if code == 4 {
            Some(SyscallError::LinkageConflict)
        } else if code == 6 {
            Some(SyscallError::MethodNotFound)
        } else {
            None
        }
    }

    /// A result code names at most one kind, and every kind is found again
    /// from its own code.
    pub proof fn lemma_code_round_trip(e: SyscallError)
        ensures
            Self::spec_from_code(e.spec_code()) == Some(e),
            e.spec_code() != RESULT_OK,
    {
    }

    /// A code that names a kind is that kind's code.
    pub proof fn lemma_from_code_is_inverse(code: u32)
        ensures
            Self::spec_from_code(code) matches Some(e) ==> e.spec_code() == code,
            Self::spec_from_code(RESULT_OK) is None,
    {
    }
}

} // verus!
