//! A sandboxed kernel extended by one custom syscall: the composition of the
//! kernel, the linking of the syscall, and the actor through which guests
//! reach it.

pub mod abi;
pub mod actor;
pub mod capability;
pub mod codec;
pub mod error;
pub mod gas;
pub mod kernel;
pub mod linker;
pub mod payload;
pub mod shared;

pub use crate::error::SyscallError;
pub use crate::shared::{InvokeParams, Method, CUSTOMSYSCALL_ACTOR_NAME};
