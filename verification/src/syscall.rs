//! What a command hands back to the calling process.

use vstd::prelude::*;
use crate::error::ErrorCode;

verus! {

/// The result of one command: a status and, for some commands, a value.
#[derive(Clone, Copy, Debug, PartialEq, Eq, Structural)]
pub enum CommandReturn {
    /// The command failed with the given status.
    Failure(ErrorCode),
    /// The command succeeded and returns nothing.
    Success,
    /// The command succeeded and returns one 32-bit value.
    SuccessU32(u32),
}

impl CommandReturn {
    /// A failure with status `err`.
    pub fn failure(err: ErrorCode) -> (ret: CommandReturn)
        ensures
            ret == CommandReturn::Failure(err),
    {
        CommandReturn::Failure(err)
    }

    /// A success without a value.
    pub fn success() -> (ret: CommandReturn)
        ensures
            ret == CommandReturn::Success,
    {
        CommandReturn::Success
    }

    /// A success that carries `value`.
    pub fn success_u32(value: u32) -> (ret: CommandReturn)
        ensures
            ret == CommandReturn::SuccessU32(value),
    {
        CommandReturn::SuccessU32(value)
    }

    /// Whether the command succeeded.
    pub fn is_success(&self) -> (ok: bool)
        ensures
            ok == !(*self is Failure),
    {
        match self {
            CommandReturn::Failure(_) => false,
            _ => true,
        }
    }
}

} // verus!
