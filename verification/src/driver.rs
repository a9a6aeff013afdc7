//! The print driver.
//!
//! Commands: 0 acknowledges, 1 prints the registered buffer, 2 returns the
//! number of bytes printed so far. Allow 0 registers the buffer to print.

use vstd::prelude::*;
use vstd::utf8::encode_utf8;
use vstd::utf8::valid_utf8;
use vstd::string::StringSliceAdditionalSpecFns;
use crate::error::ErrorCode;
use crate::error::GrantError;
use crate::grant::Grant;
use crate::grant::GrantModel;
use crate::process::ProcessId;
use crate::processbuffer::ReadOnlyProcessBuffer;
use crate::staging::StagingBuffer;
use crate::staging::BUF_SIZE;
use crate::syscall::CommandReturn;

verus! {

/// The number under which the driver is registered.
pub const DRIVER_NUM: usize = 0xa0001;

/// What one process's storage record holds, as plain values.
pub struct StorageModel {
    /// The number of bytes printed for the process so far.
    pub counter: u32,
    /// The bytes of the region that the process has registered.
    pub buffer: Seq<u8>,
}

impl StorageModel {
    /// The record of a process that has neither registered nor printed
    /// anything.
    pub open spec fn fresh() -> StorageModel {
        StorageModel { counter: 0, buffer: Seq::empty() }
    }

    /// What an attempt to print the registered bytes gives: their number,
    /// or `SizeError` where they do not fit the staging buffer, or
    /// `InvalidEncoding` where they fit and are not well-formed UTF-8.
    pub open spec fn print_result(self) -> Result<u32, ErrorCode> {
        if self.buffer.len() > BUF_SIZE {
            Err(ErrorCode::SizeError)
        } else if !valid_utf8(self.buffer) {
            Err(ErrorCode::InvalidEncoding)
        } else {
            Ok(self.buffer.len() as u32)
        }
    }

    /// The counter after `printed` more bytes: the sum, held at `u32::MAX`
    /// where the sum would pass it.
    pub open spec fn counter_after(self, printed: u32) -> u32 {
        if self.counter + printed > u32::MAX {
            u32::MAX
        } else {
            (self.counter + printed) as u32
        }
    }

    /// The record after an attempt to print: a successful print adds the
    /// number of bytes printed to the counter, a refused one changes
    /// nothing. The registered bytes stay as they are either way.
    pub open spec fn after_print(self) -> StorageModel {
        match self.print_result() {
            Ok(printed) => StorageModel { counter: self.counter_after(printed), ..self },
            Err(_) => self,
        }
    }
}

/// The storage record of one process: how many bytes it has had printed,
/// and the buffer it has registered for printing.
#[derive(Debug)]
pub struct AppStorage {
    counter: u32,
    buffer: ReadOnlyProcessBuffer,
}

impl View for AppStorage {
    type V = StorageModel;

    closed spec fn view(&self) -> StorageModel {
        StorageModel { counter: self.counter, buffer: self.buffer@ }
    }
}

impl Default for AppStorage {
    /// A record with a counter of zero and an empty buffer.
    fn default() -> (storage: AppStorage)
        ensures
            storage@ == StorageModel::fresh(),
    {
        AppStorage { counter: 0, buffer: ReadOnlyProcessBuffer::default() }
    }
}

impl AppStorage {
    /// The number of bytes printed for the process so far.
    pub fn counter(&self) -> (counter: u32)
        ensures
            counter == self@.counter,
    {
        self.counter
    }

    /// Registers `buffer` in place of the buffer registered before, which
    /// is handed back. The counter is not touched.
    pub fn replace_buffer(&mut self, buffer: ReadOnlyProcessBuffer) -> (previous:
        ReadOnlyProcessBuffer)
        ensures
            previous@ == old(self)@.buffer,
            final(self)@ == (StorageModel { buffer: buffer@, ..old(self)@ }),
    {
        let mut offered = buffer;
        core::mem::swap(&mut self.buffer, &mut offered);
        offered
    }

    /// Prints the registered buffer: copies it into a staging buffer,
    /// reads the copy as UTF-8 text, and returns the text for the log.
    /// The text is made of exactly the registered bytes, and their number
    /// is added to the counter, which stops at `u32::MAX`. A buffer that
    /// does not fit, or that is not UTF-8, is refused: then there is no
    /// text and the record is unchanged.
    pub fn print(&mut self) -> (res: Result<String, ErrorCode>)
        ensures
            final(self)@ == old(self)@.after_print(),
            match res {
                Ok(text) => old(self)@.print_result() is Ok && encode_utf8(text@) == old(
                    self,
                )@.buffer,
                Err(err) => old(self)@.print_result() == Err::<u32, ErrorCode>(err),
            },
    {
        let staged = match StagingBuffer::stage(self.buffer.enter()) {
            Ok(staged) => staged,
            Err(err) => {
                return Err(err);
            },
        };
        let printed: u32 = staged.len() as u32;
        let text: String = match staged.as_str() {
            Ok(text) => text.to_owned(),
            Err(err) => {
                return Err(err);
            },
        };
        self.counter = self.counter.saturating_add(printed);
        Ok(text)
    }
}

/// What a command hands back: the status for the calling process and,
/// where the command printed, the one message that goes to the log.
#[derive(Debug)]
pub struct CommandOutcome {
    /// The status, with its value if the command has one.
    pub ret: CommandReturn,
    /// The text to forward to the log; `None` where nothing is logged.
    pub message: Option<String>,
}

/// The status of command `command_num` from process `pid` on `table`.
/// Command 0 succeeds. Commands 1 and 2 enter the record of `pid` and fail
/// with the grant's error where that fails; command 1 then reports the
/// attempt to print, command 2 returns the counter. Every other number is
/// `NotSupported`.
pub open spec fn command_return(table: GrantModel, command_num: usize, pid: ProcessId)
    -> CommandReturn {
    if command_num == 0 {
        CommandReturn::Success
    } else if command_num == 1 || command_num == 2 {
        match table.entry_error(pid) {
            Some(err) => CommandReturn::Failure(ErrorCode::of_grant(err)),
            None => {
                let storage = table.entered(pid).storage(pid);
                if command_num == 2 {
                    CommandReturn::SuccessU32(storage.counter)
                } else {
                    match storage.print_result() {
                        Ok(_) => CommandReturn::Success,
                        Err(err) => CommandReturn::Failure(err),
                    }
                }
            },
        }
    } else {
        CommandReturn::Failure(ErrorCode::NotSupported)
    }
}

/// The bytes that command `command_num` from process `pid` sends to the
/// log: the registered bytes where command 1 succeeds, nothing otherwise.
pub open spec fn command_message(table: GrantModel, command_num: usize, pid: ProcessId)
    -> Option<Seq<u8>> {
    if command_num == 1 && command_return(table, command_num, pid) == CommandReturn::Success {
        Some(table.entered(pid).storage(pid).buffer)
    } else {
        None
    }
}

/// The table after command `command_num` from process `pid`. Commands 1
/// and 2 enter the record of `pid`, which creates it if need be; command 1
/// then leaves it as the attempt to print does. No other command, and no
/// failed entry, changes anything.
pub open spec fn command_table(table: GrantModel, command_num: usize, pid: ProcessId)
    -> GrantModel {
    if command_num == 1 && table.entry_error(pid) is None {
        let entered = table.entered(pid);
        entered.with_storage(pid, entered.storage(pid).after_print())
    } else if command_num == 2 {
        table.entered(pid)
    } else {
        table
    }
}

/// Why registering under `allow_num` for process `pid` fails, if it does:
/// only index 0 is known, and the record of `pid` must be entered.
pub open spec fn allow_error(table: GrantModel, pid: ProcessId, allow_num: usize) -> Option<
    ErrorCode,
> {
    if allow_num != 0 {
        Some(ErrorCode::NotSupported)
    } else {
        match table.entry_error(pid) {
            Some(err) => Some(ErrorCode::of_grant(err)),
            None => None,
        }
    }
}

/// The table after process `pid` has offered `buffer` under `allow_num`:
/// where the offer is taken, the record of `pid` holds `buffer` in place
/// of what was registered; where it is refused, nothing has changed.
pub open spec fn allow_table(
    table: GrantModel,
    pid: ProcessId,
    allow_num: usize,
    buffer: Seq<u8>,
) -> GrantModel {
    if allow_error(table, pid, allow_num) is None {
        let entered = table.entered(pid);
        entered.with_storage(pid, StorageModel { buffer, ..entered.storage(pid) })
    } else {
        table
    }
}

/// The print driver: the grant table through which it reaches the record
/// of whichever process calls.
pub struct Print {
    grant_access: Grant,
}

impl View for Print {
    type V = GrantModel;

    closed spec fn view(&self) -> GrantModel {
        self.grant_access@
    }
}

impl Print {
    /// A driver that keeps its records in `grant_access`.
    pub fn new(grant_access: Grant) -> (driver: Print)
        ensures
            driver@ == grant_access@,
    {
        Print { grant_access }
    }

    /// Runs command `command_num` for process `process_id`. The two
    /// further arguments of a command are not used.
    pub fn command(
        &mut self,
        command_num: usize,
        _r2: usize,
        _r3: usize,
        process_id: ProcessId,
    ) -> (out: CommandOutcome)
        ensures
            final(self)@ == command_table(old(self)@, command_num, process_id),
            out.ret == command_return(old(self)@, command_num, process_id),
            match out.message {
                Some(text) => command_message(old(self)@, command_num, process_id) == Some(
                    encode_utf8(text@),
                ),
                None => command_message(old(self)@, command_num, process_id) is None,
            },
    {
        match command_num {
            0 => CommandOutcome { ret: CommandReturn::success(), message: None },
            1 => {
                let res = match self.grant_access.enter(process_id) {
                    Ok(app_storage) => app_storage.print(),
                    Err(err) => Err(ErrorCode::from(err)),
                };
                match res {
                    Ok(text) => CommandOutcome {
                        ret: CommandReturn::success(),
                        message: Some(text),
                    },
                    Err(err) => CommandOutcome { ret: CommandReturn::failure(err), message: None },
                }
            },
            2 => {
                let res = match self.grant_access.enter(process_id) {
                    Ok(app_storage) => Ok(app_storage.counter()),
                    Err(err) => Err(err),
                };
                assert(self@.slots =~= old(self)@.entered(process_id).slots);
                match res {
                    Ok(counter) => CommandOutcome {
                        ret: CommandReturn::success_u32(counter),
                        message: None,
                    },
                    Err(err) => CommandOutcome {
                        ret: CommandReturn::failure(ErrorCode::from(err)),
                        message: None,
                    },
                }
            },
            _ => CommandOutcome {
                ret: CommandReturn::failure(ErrorCode::NotSupported),
                message: None,
            },
        }
    }

    /// Registers `buffer` as the buffer that process `process_id` has
    /// printed from now on, and hands back the one registered before. Only
    /// index 0 is known. A refused offer comes back as it was given, with
    /// the reason.
    pub fn allow_readonly(
        &mut self,
        process_id: ProcessId,
        allow_num: usize,
        buffer: ReadOnlyProcessBuffer,
    ) -> (res: Result<ReadOnlyProcessBuffer, (ReadOnlyProcessBuffer, ErrorCode)>)
        ensures
            final(self)@ == allow_table(old(self)@, process_id, allow_num, buffer@),
            match res {
                Ok(previous) => {
                    &&& allow_error(old(self)@, process_id, allow_num) is None
                    &&& previous@ == old(self)@.entered(process_id).storage(process_id).buffer
                },
                Err((offered, err)) => {
                    &&& allow_error(old(self)@, process_id, allow_num) == Some(err)
                    &&& offered == buffer
                },
            },
    {
        match allow_num {
            0 => {
                match self.grant_access.enter(process_id) {
                    Ok(app_storage) => Ok(app_storage.replace_buffer(buffer)),
                    Err(err) => Err((buffer, ErrorCode::from(err))),
                }
            },
            _ => Err((buffer, ErrorCode::NotSupported)),
        }
    }

    /// Creates the record of process `process_id` ahead of its first
    /// command, so that no later call fails for want of room. A record
    /// that exists is left as it is.
    pub fn allocate_grant(&mut self, process_id: ProcessId) -> (res: Result<(), GrantError>)
        ensures
            final(self)@ == old(self)@.entered(process_id),
            match res {
                Ok(_) => old(self)@.entry_error(process_id) is None,
                Err(err) => old(self)@.entry_error(process_id) == Some(err),
            },
    {
        let res = match self.grant_access.enter(process_id) {
            Ok(_) => Ok(()),
            Err(err) => Err(err),
        };
        assert(self@.slots =~= old(self)@.entered(process_id).slots);
        res
    }
}

} // verus!
