//! What holds of the driver whatever the table and whoever calls, proved
//! from the definitions that the driver's contracts are stated in.

use vstd::prelude::*;
use vstd::utf8::valid_utf8;
use crate::driver::allow_error;
use crate::driver::allow_table;
use crate::driver::command_message;
use crate::driver::command_return;
use crate::driver::command_table;
use crate::driver::StorageModel;
use crate::error::ErrorCode;
use crate::grant::GrantModel;
use crate::process::ProcessId;
use crate::staging::BUF_SIZE;
use crate::syscall::CommandReturn;

verus! {

/// A registered buffer of at most `BUF_SIZE` bytes of well-formed UTF-8 is
/// printed: the command succeeds, the log receives exactly the registered
/// bytes, as one message, and the counter grows by their number, stopping
/// at `u32::MAX`. The registered bytes and every other record stay.
pub proof fn valid_text_is_printed(table: GrantModel, pid: ProcessId)
    requires
        table.allocated(pid),
        table.storage(pid).buffer.len() <= BUF_SIZE,
        valid_utf8(table.storage(pid).buffer),
    ensures
        command_return(table, 1, pid) == CommandReturn::Success,
        command_message(table, 1, pid) == Some(table.storage(pid).buffer),
        command_table(table, 1, pid).storage(pid).buffer == table.storage(pid).buffer,
        table.storage(pid).counter + table.storage(pid).buffer.len() <= u32::MAX ==> command_table(
            table,
            1,
            pid,
        ).storage(pid).counter == table.storage(pid).counter + table.storage(pid).buffer.len(),
        table.storage(pid).counter + table.storage(pid).buffer.len() > u32::MAX ==> command_table(
            table,
            1,
            pid,
        ).storage(pid).counter == u32::MAX,
{
}

/// A registered buffer of more than `BUF_SIZE` bytes is not printed: the
/// command fails with `SizeError`, the log receives nothing, and the
/// table, the counter with it, is unchanged.
pub proof fn oversized_buffer_is_refused(table: GrantModel, pid: ProcessId)
    requires
        table.allocated(pid),
        table.storage(pid).buffer.len() > BUF_SIZE,
    ensures
        command_return(table, 1, pid) == CommandReturn::Failure(ErrorCode::SizeError),
        command_message(table, 1, pid) is None,
        command_table(table, 1, pid) == table,
{
    assert(command_table(table, 1, pid).slots =~= table.slots);
}

/// A registered buffer that fits and is not well-formed UTF-8 is not
/// printed: the command fails with `InvalidEncoding`, the log receives
/// nothing, and the table, the counter with it, is unchanged.
pub proof fn ill_formed_text_is_refused(table: GrantModel, pid: ProcessId)
    requires
        table.allocated(pid),
        table.storage(pid).buffer.len() <= BUF_SIZE,
        !valid_utf8(table.storage(pid).buffer),
    ensures
        command_return(table, 1, pid) == CommandReturn::Failure(ErrorCode::InvalidEncoding),
        command_message(table, 1, pid) is None,
        command_table(table, 1, pid) == table,
{
    assert(command_table(table, 1, pid).slots =~= table.slots);
}

/// A continuation byte on its own is not well-formed UTF-8, so a buffer
/// that holds nothing but the byte `0x80` is among those refused.
pub proof fn lone_continuation_byte_is_ill_formed()
    ensures
        !valid_utf8(seq![0x80u8]),
{
    let bytes = seq![0x80u8];
    assert(bytes.len() == 1);
    assert(bytes[0] == 0x80u8);
    assert(!vstd::utf8::valid_first_scalar(bytes));
}

/// Of two registrations in a row the later one counts. Registering `first`
/// and then `second` for a process both succeed, the second registration
/// hands back `first`, and a print that follows goes by `second` alone:
/// its status and its message are those of a record that holds `second`.
pub proof fn later_registration_replaces_earlier(
    table: GrantModel,
    pid: ProcessId,
    first: Seq<u8>,
    second: Seq<u8>,
)
    requires
        table.entry_error(pid) is None,
    ensures
        ({
            let once = allow_table(table, pid, 0, first);
            let twice = allow_table(once, pid, 0, second);
            let held = StorageModel { buffer: second, ..twice.storage(pid) };
            &&& allow_error(table, pid, 0) is None
            &&& allow_error(once, pid, 0) is None
            &&& once.entered(pid).storage(pid).buffer == first
            &&& twice.allocated(pid)
            &&& twice.storage(pid).buffer == second
            &&& twice.storage(pid).counter == table.entered(pid).storage(pid).counter
            &&& command_return(twice, 1, pid) == match held.print_result() {
                Ok(_) => CommandReturn::Success,
                Err(err) => CommandReturn::Failure(err),
            }
            &&& command_message(twice, 1, pid) == if held.print_result() is Ok {
                Some(second)
            } else {
                None
            }
        }),
{
}

/// A process that has printed nothing has a counter of zero: the first
/// query of a process whose record is yet to be created returns 0.
pub proof fn counter_starts_at_zero(table: GrantModel, pid: ProcessId)
    requires
        table.knows(pid),
        !table.allocated(pid),
        table.free > 0,
    ensures
        command_return(table, 2, pid) == CommandReturn::SuccessU32(0),
{
}

/// A query changes no record that exists: it reads the counter and
/// leaves the table as it found it.
pub proof fn query_changes_nothing(table: GrantModel, pid: ProcessId)
    requires
        table.allocated(pid),
    ensures
        command_return(table, 2, pid) == CommandReturn::SuccessU32(table.storage(pid).counter),
        command_table(table, 2, pid) == table,
{
}

/// The counter of a process never goes down, whatever command the
/// process gives.
pub proof fn counter_never_decreases(table: GrantModel, command_num: usize, pid: ProcessId)
    requires
        table.allocated(pid),
    ensures
        command_table(table, command_num, pid).allocated(pid),
        command_table(table, command_num, pid).storage(pid).counter >= table.storage(pid).counter,
{
}

/// Processes are isolated from one another. A command of one process
/// leaves the place of every other process as it was: its record, or its
/// lack of one. So a process whose record exists gets, for any command,
/// the status and the message it would have got had the other process
/// never called.
pub proof fn command_leaves_other_processes_alone(
    table: GrantModel,
    command_num: usize,
    pid: ProcessId,
    other: ProcessId,
    other_command: usize,
)
    requires
        pid.spec_index() != other.spec_index(),
        table.knows(other),
    ensures
        command_table(table, command_num, pid).knows(other),
        command_table(table, command_num, pid).slots[other.spec_index() as int]
            == table.slots[other.spec_index() as int],
        table.allocated(other) ==> command_return(
            command_table(table, command_num, pid),
            other_command,
            other,
        ) == command_return(table, other_command, other),
        table.allocated(other) ==> command_message(
            command_table(table, command_num, pid),
            other_command,
            other,
        ) == command_message(table, other_command, other),
{
}

/// A registration of one process leaves the place of every other process
/// as it was, so the other process prints its own buffer and reads its
/// own counter as before.
pub proof fn allow_leaves_other_processes_alone(
    table: GrantModel,
    pid: ProcessId,
    allow_num: usize,
    buffer: Seq<u8>,
    other: ProcessId,
    other_command: usize,
)
    requires
        pid.spec_index() != other.spec_index(),
        table.knows(other),
    ensures
        allow_table(table, pid, allow_num, buffer).knows(other),
        allow_table(table, pid, allow_num, buffer).slots[other.spec_index() as int]
            == table.slots[other.spec_index() as int],
        table.allocated(other) ==> command_return(
            allow_table(table, pid, allow_num, buffer),
            other_command,
            other,
        ) == command_return(table, other_command, other),
        table.allocated(other) ==> command_message(
            allow_table(table, pid, allow_num, buffer),
            other_command,
            other,
        ) == command_message(table, other_command, other),
{
}

/// A command number above 2 is not supported: the command fails with
/// `NotSupported`, logs nothing, and changes neither counter nor buffer
/// of any process.
pub proof fn unknown_command_is_refused(table: GrantModel, command_num: usize, pid: ProcessId)
    requires
        command_num > 2,
    ensures
        command_return(table, command_num, pid) == CommandReturn::Failure(ErrorCode::NotSupported),
        command_message(table, command_num, pid) is None,
        command_table(table, command_num, pid) == table,
{
}

/// An allow index other than 0 is not supported: the registration fails
/// with `NotSupported` and changes nothing.
pub proof fn unknown_allow_is_refused(
    table: GrantModel,
    pid: ProcessId,
    allow_num: usize,
    buffer: Seq<u8>,
)
    requires
        allow_num != 0,
    ensures
        allow_error(table, pid, allow_num) == Some(ErrorCode::NotSupported),
        allow_table(table, pid, allow_num, buffer) == table,
{
}

/// Creating a record twice is creating it once: a second entry finds the
/// record there, cannot fail, and changes nothing.
pub proof fn allocation_is_idempotent(table: GrantModel, pid: ProcessId)
    requires
        table.entry_error(pid) is None,
    ensures
        table.entered(pid).allocated(pid),
        table.entered(pid).entry_error(pid) is None,
        table.entered(pid).entered(pid) == table.entered(pid),
{
}

/// A record that has been torn down comes back fresh: after a reclaim the
/// next query of the process returns 0, whatever its counter was.
pub proof fn reclaimed_record_is_fresh(table: GrantModel, pid: ProcessId)
    requires
        table.allocated(pid),
    ensures
        !table.reclaimed(pid).allocated(pid),
        table.reclaimed(pid).free == table.free + 1,
        command_return(table.reclaimed(pid), 2, pid) == CommandReturn::SuccessU32(0),
{
}

} // verus!
