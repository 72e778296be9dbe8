//! Hooks: commands, file descriptors, timers, command runs and signals.
//! Each family has a callback trait implemented by the payload, a callback
//! record, the host request, a registration on `Weechat`, a dispatch adapter
//! and a handle whose teardown unregisters the hook once.
use vstd::prelude::*;
use crate::buffer::{payload_from, Buffer};
use crate::registry::{dispatch_outcome, hook_result, registration_outcome, release_outcome, Hook, Registry, RegistrationError};
use crate::status::{return_code_value, ReturnCode};
use crate::strings::{from_host, host_bytes, host_text, str_eq, LossyCString};
use crate::weechat::{ArgsWeechat, Weechat};

verus! {

/// A command's answer to one invocation; implemented by the payload handed
/// to `Weechat::hook_command`.
pub trait CommandCallback {
    /// Called with the buffer the command was run in and its arguments.
    fn run_command(&self, weechat: &Weechat, buffer: &Buffer, args: ArgsWeechat);
}

/// What happens when a watched file descriptor is ready; implemented by the
/// payload handed to `Weechat::hook_fd`.
pub trait FdCallback<F> {
    /// Called with the watched object when it can be read or written.
    fn fd_ready(&self, fd_object: &mut F);
}

/// What a timer does when it fires; implemented by the payload handed to
/// `Weechat::hook_timer`.
pub trait TimerCallback {
    /// Called on each firing; `remaining` is the number of calls left, or -1
    /// for a timer without end.
    fn timer_fired(&self, weechat: &Weechat, remaining: i32);
}

/// What happens when the host runs a hooked command; implemented by the
/// payload handed to `Weechat::hook_command_run`.
pub trait CommandRunCallback {
    /// Called with the buffer and the command line; the status goes to the
    /// host.
    fn command_run(&self, buffer: &Buffer, command: &str) -> ReturnCode;
}

/// What happens when a hooked signal arrives; implemented by the payload
/// handed to `Weechat::hook_signal`.
pub trait SignalCallback {
    /// Called with the signal's value; the status goes to the host.
    fn signal_received(&self, weechat: &Weechat, value: SignalHookValue) -> ReturnCode;
}

/// Description of a command to hook. The fields use the formats of the host
/// API documentation.
#[derive(Default)]
pub struct CommandDescription<'a> {
    /// Name of the command.
    pub name: &'a str,
    /// Description of the command (shown by `/help command`).
    pub description: &'a str,
    /// Arguments of the command (shown by `/help command`).
    pub args: &'a str,
    /// Description of the arguments (shown by `/help command`).
    pub args_description: &'a str,
    /// Completion template of the command.
    pub completion: &'a str,
}

/// The host's command registration call, without the context token.
pub struct CommandRequest {
    pub name: LossyCString,
    pub description: LossyCString,
    pub args: LossyCString,
    pub args_description: LossyCString,
    pub completion: LossyCString,
}

/// The callback record of a command hook.
pub struct CommandHookData<T> {
    pub weechat: Weechat,
    pub callback_data: T,
}

/// A hooked command; tearing it down removes the command.
pub struct CommandHook {
    pub hook: Hook,
}

/// Which readiness of a file descriptor a hook watches.
#[derive(Clone, Copy, Debug, PartialEq, Eq, Structural)]
pub enum FdHookMode {
    /// Watch for reading.
    Read,
    /// Watch for writing.
    Write,
    /// Watch for both.
    ReadWrite,
}

impl FdHookMode {
    /// The host's read and write flags for this mode.
    pub fn as_tuple(&self) -> (r: (i32, i32))
        ensures
            r.0 == (if *self == FdHookMode::Write { 0i32 } else { 1i32 }),
            r.1 == (if *self == FdHookMode::Read { 0i32 } else { 1i32 }),
    {
        let read = match self {
            FdHookMode::Read => 1,
            FdHookMode::ReadWrite => 1,
            FdHookMode::Write => 0,
        };
        let write = match self {
            FdHookMode::Read => 0,
            FdHookMode::ReadWrite => 1,
            FdHookMode::Write => 1,
        };
        (read, write)
    }
}

/// The host's file descriptor registration call, without the context token.
#[derive(Clone, Copy, Debug)]
pub struct FdRequest {
    pub fd: i32,
    pub read: i32,
    pub write: i32,
}

/// The callback record of a file descriptor hook; it owns the watched object.
pub struct FdHookData<T, F> {
    pub callback_data: T,
    pub fd_object: F,
}

/// A watched file descriptor; tearing it down stops the watch.
pub struct FdHook {
    pub hook: Hook,
}

/// The host's timer registration call, without the context token.
#[derive(Clone, Copy, Debug)]
pub struct TimerRequest {
    pub interval_ms: u64,
    pub align_second: i32,
    pub max_calls: i32,
}

/// The callback record of a timer.
pub struct TimerHookData<T> {
    pub weechat: Weechat,
    pub callback_data: T,
}

/// A running timer; tearing it down stops it.
pub struct TimerHook {
    pub hook: Hook,
}

/// The host's command-run registration call, without the context token.
pub struct CommandRunRequest {
    pub command: LossyCString,
}

/// The callback record of a command-run hook.
pub struct CommandRunHookData<T> {
    pub weechat: Weechat,
    pub callback_data: T,
}

/// A hooked command run; tearing it down removes the hook.
pub struct CommandRunHook {
    pub hook: Hook,
}

/// The host's signal registration call, without the context token.
pub struct SignalRequest {
    pub signal: LossyCString,
}

/// The callback record of a signal hook.
pub struct SignalHookData<T> {
    pub weechat: Weechat,
    pub callback_data: T,
}

/// A hooked signal; tearing it down removes the hook.
pub struct SignalHook {
    pub hook: Hook,
}

/// The value carried by a signal.
#[derive(Debug)]
pub enum SignalHookValue {
    /// Text data.
    String(String),
    /// Integer data.
    Integer(i32),
    /// The host's address of some data.
    Pointer(usize),
}

/// The raw data of a signal as the host delivered it, read according to its
/// type name.
pub enum SignalData {
    /// The bytes of a host string.
    Text(Vec<u8>),
    /// An integer, or `None` when the host gave a null pointer.
    Integer(Option<i32>),
    /// An address.
    Pointer(usize),
}

/// Whether a signal of type `data_type` with data `data` has a value.
pub open spec fn signal_has_value(data_type: Seq<char>, data: SignalData) -> bool {
    ||| data_type == "string"@ && data is Text
    ||| data_type == "integer"@ && data is Integer && data->Integer_0 is Some
    ||| data_type == "pointer"@ && data is Pointer
}

/// `v` is the value a signal of type `data_type` with data `data` carries.
pub open spec fn signal_value_of(data_type: Seq<char>, data: SignalData, v: SignalHookValue) -> bool {
    ||| data_type == "string"@ && data is Text && v is String && v->String_0@ == host_text(data->Text_0@)
    ||| data_type == "integer"@ && data is Integer && data->Integer_0 == Some(v->Integer_0) && v is Integer
    ||| data_type == "pointer"@ && data is Pointer && v == SignalHookValue::Pointer(data->Pointer_0)
}

impl SignalHookValue {
    /// Reads the value of a signal from its type name and its raw data; a
    /// type name other than "string", "integer" and "pointer", data of
    /// another kind than the name says, or a null integer give `None`.
    pub fn from_raw_with_type(data_type: &str, data: SignalData) -> (r: Option<SignalHookValue>)
        ensures
            r is Some <==> signal_has_value(data_type@, data),
            r is Some ==> signal_value_of(data_type@, data, r->Some_0),
            (data_type@ == "string"@ && data is Text) ==> (r is Some && r->Some_0 is String
                && r->Some_0->String_0@ == host_text(data->Text_0@)),
            (data_type@ == "integer"@ && data is Integer && data->Integer_0 is Some) ==> r == Some(
                SignalHookValue::Integer(data->Integer_0->Some_0)),
            (data_type@ == "pointer"@ && data is Pointer) ==> r == Some(SignalHookValue::Pointer(data->Pointer_0)),
    {
        proof {
            reveal_strlit("string");
            reveal_strlit("integer");
            reveal_strlit("pointer");
            assert("string"@.len() != "pointer"@.len());
            assert("string"@.len() != "integer"@.len());
            assert("integer"@[0] != "pointer"@[0]);
        }
        if str_eq(data_type, "string") {
            match data {
                SignalData::Text(b) => Some(SignalHookValue::String(from_host(b.as_slice()))),
                _ => None,
            }
        } else if str_eq(data_type, "integer") {
            match data {
                SignalData::Integer(Some(v)) => Some(SignalHookValue::Integer(v)),
                _ => None,
            }
        } else if str_eq(data_type, "pointer") {
            match data {
                SignalData::Pointer(p) => Some(SignalHookValue::Pointer(p)),
                _ => None,
            }
        } else {
            None
        }
    }
}

impl CommandHook {
    /// Removes the command; see `Hook::unhook`.
    pub fn unhook<T, U: FnOnce(usize)>(self, records: &mut Registry<CommandHookData<T>>, host_unhook: U) -> (r: bool)
        requires
            old(records).wf(),
            host_unhook.requires((self.hook.host_ptr(),)),
        ensures
            final(records).wf(),
            r == old(records).live().contains_key(self.hook.record_token() as int),
            r ==> host_unhook.ensures((self.hook.host_ptr(),), ()),
            release_outcome(*old(records), *final(records), self.hook.record_token() as int),
    {
        self.hook.unhook(records, host_unhook)
    }
}

impl FdHook {
    /// Stops watching; see `Hook::unhook`.
    pub fn unhook<T, F, U: FnOnce(usize)>(self, records: &mut Registry<FdHookData<T, F>>, host_unhook: U) -> (r: bool)
        requires
            old(records).wf(),
            host_unhook.requires((self.hook.host_ptr(),)),
        ensures
            final(records).wf(),
            r == old(records).live().contains_key(self.hook.record_token() as int),
            r ==> host_unhook.ensures((self.hook.host_ptr(),), ()),
            release_outcome(*old(records), *final(records), self.hook.record_token() as int),
    {
        self.hook.unhook(records, host_unhook)
    }
}

impl TimerHook {
    /// Stops the timer; see `Hook::unhook`.
    pub fn unhook<T, U: FnOnce(usize)>(self, records: &mut Registry<TimerHookData<T>>, host_unhook: U) -> (r: bool)
        requires
            old(records).wf(),
            host_unhook.requires((self.hook.host_ptr(),)),
        ensures
            final(records).wf(),
            r == old(records).live().contains_key(self.hook.record_token() as int),
            r ==> host_unhook.ensures((self.hook.host_ptr(),), ()),
            release_outcome(*old(records), *final(records), self.hook.record_token() as int),
    {
        self.hook.unhook(records, host_unhook)
    }
}

impl CommandRunHook {
    /// Removes the hook; see `Hook::unhook`.
    pub fn unhook<T, U: FnOnce(usize)>(self, records: &mut Registry<CommandRunHookData<T>>, host_unhook: U) -> (r: bool)
        requires
            old(records).wf(),
            host_unhook.requires((self.hook.host_ptr(),)),
        ensures
            final(records).wf(),
            r == old(records).live().contains_key(self.hook.record_token() as int),
            r ==> host_unhook.ensures((self.hook.host_ptr(),), ()),
            release_outcome(*old(records), *final(records), self.hook.record_token() as int),
    {
        self.hook.unhook(records, host_unhook)
    }
}

impl SignalHook {
    /// Removes the hook; see `Hook::unhook`.
    pub fn unhook<T, U: FnOnce(usize)>(self, records: &mut Registry<SignalHookData<T>>, host_unhook: U) -> (r: bool)
        requires
            old(records).wf(),
            host_unhook.requires((self.hook.host_ptr(),)),
        ensures
            final(records).wf(),
            r == old(records).live().contains_key(self.hook.record_token() as int),
            r ==> host_unhook.ensures((self.hook.host_ptr(),), ()),
            release_outcome(*old(records), *final(records), self.hook.record_token() as int),
    {
        self.hook.unhook(records, host_unhook)
    }
}

/// The host handle that a CommandHook registration produced.
pub open spec fn commandhook_result(r: Result<CommandHook, RegistrationError>) -> Result<usize, RegistrationError> {
    match r {
        Ok(h) => Ok(h.hook.host_ptr()),
        Err(e) => Err(e),
    }
}

/// The host handle that a FdHook registration produced.
pub open spec fn fdhook_result(r: Result<FdHook, RegistrationError>) -> Result<usize, RegistrationError> {
    match r {
        Ok(h) => Ok(h.hook.host_ptr()),
        Err(e) => Err(e),
    }
}

/// The host handle that a TimerHook registration produced.
pub open spec fn timerhook_result(r: Result<TimerHook, RegistrationError>) -> Result<usize, RegistrationError> {
    match r {
        Ok(h) => Ok(h.hook.host_ptr()),
        Err(e) => Err(e),
    }
}

/// The host handle that a CommandRunHook registration produced.
pub open spec fn commandrunhook_result(r: Result<CommandRunHook, RegistrationError>) -> Result<usize, RegistrationError> {
    match r {
        Ok(h) => Ok(h.hook.host_ptr()),
        Err(e) => Err(e),
    }
}

/// The host handle that a SignalHook registration produced.
pub open spec fn signalhook_result(r: Result<SignalHook, RegistrationError>) -> Result<usize, RegistrationError> {
    match r {
        Ok(h) => Ok(h.hook.host_ptr()),
        Err(e) => Err(e),
    }
}

impl Weechat {
    /// Hooks the command described by `command_info`, answered by the payload
    /// `callback_data` (the type's default value when not given) through
    /// the host's registration entry point `host_hook_command`. If the host
    /// refuses, the callback record is reclaimed and the refusal returned.
    pub fn hook_command<T, H>(
        &self,
        records: &mut Registry<CommandHookData<T>>,
        command_info: CommandDescription,
        callback_data: Option<T>,
        host_hook_command: H,
    ) -> (r: Result<CommandHook, RegistrationError>)
        where
            T: CommandCallback + Default,
            H: FnOnce(CommandRequest, usize) -> Option<usize>,
        requires
            old(records).wf(),
            old(records).issued() < usize::MAX,
            forall|q: CommandRequest, t: usize| host_hook_command.requires((q, t)),
        ensures
            final(records).wf(),
            r matches Ok(h) ==> h.hook.record_token() == old(records).issued() + 1 && h.hook.context() == *self,
            exists|q: CommandRequest, rec: CommandHookData<T>, answer: Option<usize>|
                {
                    &&& q.name@ == host_bytes(command_info.name@) && q.description@ == host_bytes(command_info.description@)
                        && q.args@ == host_bytes(command_info.args@) && q.args_description@ == host_bytes(command_info.args_description@)
                        && q.completion@ == host_bytes(command_info.completion@)
                    &&& rec.weechat == *self
                    &&& payload_from(callback_data, rec.callback_data)
                    &&& host_hook_command.ensures((q, (old(records).issued() + 1) as usize), answer)
                    &&& registration_outcome(*old(records), *final(records), rec, answer, commandhook_result(r))
                },
    {
        let ghost given = callback_data;
        let record = CommandHookData { weechat: *self, callback_data: callback_data.unwrap_or_default() };
        let ghost rec = record;
        let request = CommandRequest {
            name: LossyCString::new(command_info.name),
            description: LossyCString::new(command_info.description),
            args: LossyCString::new(command_info.args),
            args_description: LossyCString::new(command_info.args_description),
            completion: LossyCString::new(command_info.completion),
        };
        let ghost q = request;
        let ghost before = *records;
        let ghost host = host_hook_command;
        let r = Hook::register(*self, records, record, request, host_hook_command);
        let ghost a = choose|a: Option<usize>|
            host.ensures((q, (before.issued() + 1) as usize), a) && registration_outcome(before, *records, rec, a, hook_result(r));
        let out = match r {
            Ok(hook) => Ok(CommandHook { hook }),
            Err(e) => Err(e),
        };
        assert(commandhook_result(out) == hook_result(r));
        assert({
            &&& q.name@ == host_bytes(command_info.name@) && q.description@ == host_bytes(command_info.description@)
                && q.args@ == host_bytes(command_info.args@) && q.args_description@ == host_bytes(command_info.args_description@)
                && q.completion@ == host_bytes(command_info.completion@)
            &&& rec.weechat == *self
            &&& payload_from(given, rec.callback_data)
            &&& host.ensures((q, (before.issued() + 1) as usize), a)
            &&& registration_outcome(before, *records, rec, a, commandhook_result(out))
        });
        out
    }

    /// Watches the file descriptor `fd` of `fd_object` for the readiness that
    /// `mode` names. The record owns `fd_object` and the payload
    /// `callback_data` (the type's default value when not given);
    /// `host_hook_fd` is the host's registration entry point. If the host
    /// refuses, the record is reclaimed and the refusal returned.
    pub fn hook_fd<T, F, H>(
        &self,
        records: &mut Registry<FdHookData<T, F>>,
        fd: i32,
        fd_object: F,
        mode: FdHookMode,
        callback_data: Option<T>,
        host_hook_fd: H,
    ) -> (r: Result<FdHook, RegistrationError>)
        where
            T: FdCallback<F> + Default,
            H: FnOnce(FdRequest, usize) -> Option<usize>,
        requires
            old(records).wf(),
            old(records).issued() < usize::MAX,
            forall|q: FdRequest, t: usize| host_hook_fd.requires((q, t)),
        ensures
            final(records).wf(),
            r matches Ok(h) ==> h.hook.record_token() == old(records).issued() + 1 && h.hook.context() == *self,
            exists|q: FdRequest, rec: FdHookData<T, F>, answer: Option<usize>|
                {
                    &&& q.fd == fd && q.read == (if mode == FdHookMode::Write { 0i32 } else { 1i32 })
                        && q.write == (if mode == FdHookMode::Read { 0i32 } else { 1i32 })
                    &&& rec.fd_object == fd_object
                    &&& payload_from(callback_data, rec.callback_data)
                    &&& host_hook_fd.ensures((q, (old(records).issued() + 1) as usize), answer)
                    &&& registration_outcome(*old(records), *final(records), rec, answer, fdhook_result(r))
                },
    {
        let ghost given = callback_data;
        let record = FdHookData { fd_object, callback_data: callback_data.unwrap_or_default() };
        let ghost rec = record;
        let request = {
            let (read, write) = mode.as_tuple();
            FdRequest { fd, read, write }
        };
        let ghost q = request;
        let ghost before = *records;
        let ghost host = host_hook_fd;
        let r = Hook::register(*self, records, record, request, host_hook_fd);
        let ghost a = choose|a: Option<usize>|
            host.ensures((q, (before.issued() + 1) as usize), a) && registration_outcome(before, *records, rec, a, hook_result(r));
        let out = match r {
            Ok(hook) => Ok(FdHook { hook }),
            Err(e) => Err(e),
        };
        assert(fdhook_result(out) == hook_result(r));
        assert({
            &&& q.fd == fd && q.read == (if mode == FdHookMode::Write { 0i32 } else { 1i32 })
                && q.write == (if mode == FdHookMode::Read { 0i32 } else { 1i32 })
            &&& rec.fd_object == fd_object
            &&& payload_from(given, rec.callback_data)
            &&& host.ensures((q, (before.issued() + 1) as usize), a)
            &&& registration_outcome(before, *records, rec, a, fdhook_result(out))
        });
        out
    }

    /// Starts a timer firing every `interval_ms` milliseconds, aligned on
    /// `align_second` seconds, at most `max_calls` times (0: no end). It
    /// calls the payload `callback_data` (the type's default value when not
    /// given); `host_hook_timer` is the host's registration entry point. If
    /// the host refuses, the record is reclaimed and the refusal returned.
    pub fn hook_timer<T, H>(
        &self,
        records: &mut Registry<TimerHookData<T>>,
        interval_ms: u64,
        align_second: i32,
        max_calls: i32,
        callback_data: Option<T>,
        host_hook_timer: H,
    ) -> (r: Result<TimerHook, RegistrationError>)
        where
            T: TimerCallback + Default,
            H: FnOnce(TimerRequest, usize) -> Option<usize>,
        requires
            old(records).wf(),
            old(records).issued() < usize::MAX,
            forall|q: TimerRequest, t: usize| host_hook_timer.requires((q, t)),
        ensures
            final(records).wf(),
            r matches Ok(h) ==> h.hook.record_token() == old(records).issued() + 1 && h.hook.context() == *self,
            exists|q: TimerRequest, rec: TimerHookData<T>, answer: Option<usize>|
                {
                    &&& q.interval_ms == interval_ms && q.align_second == align_second && q.max_calls == max_calls
                    &&& rec.weechat == *self
                    &&& payload_from(callback_data, rec.callback_data)
                    &&& host_hook_timer.ensures((q, (old(records).issued() + 1) as usize), answer)
                    &&& registration_outcome(*old(records), *final(records), rec, answer, timerhook_result(r))
                },
    {
        let ghost given = callback_data;
        let record = TimerHookData { weechat: *self, callback_data: callback_data.unwrap_or_default() };
        let ghost rec = record;
        let request = TimerRequest { interval_ms, align_second, max_calls };
        let ghost q = request;
        let ghost before = *records;
        let ghost host = host_hook_timer;
        let r = Hook::register(*self, records, record, request, host_hook_timer);
        let ghost a = choose|a: Option<usize>|
            host.ensures((q, (before.issued() + 1) as usize), a) && registration_outcome(before, *records, rec, a, hook_result(r));
        let out = match r {
            Ok(hook) => Ok(TimerHook { hook }),
            Err(e) => Err(e),
        };
        assert(timerhook_result(out) == hook_result(r));
        assert({
            &&& q.interval_ms == interval_ms && q.align_second == align_second && q.max_calls == max_calls
            &&& rec.weechat == *self
            &&& payload_from(given, rec.callback_data)
            &&& host.ensures((q, (before.issued() + 1) as usize), a)
            &&& registration_outcome(before, *records, rec, a, timerhook_result(out))
        });
        out
    }

    /// Hooks the runs of `command` (the wildcard `*` is allowed), answered by
    /// the payload `callback_data` (the type's default value when not given)
    /// through the host's registration entry point `host_hook_command_run`.
    /// If the host refuses, the record is reclaimed and the refusal returned.
    pub fn hook_command_run<T, H>(
        &self,
        records: &mut Registry<CommandRunHookData<T>>,
        command: &str,
        callback_data: Option<T>,
        host_hook_command_run: H,
    ) -> (r: Result<CommandRunHook, RegistrationError>)
        where
            T: CommandRunCallback + Default,
            H: FnOnce(CommandRunRequest, usize) -> Option<usize>,
        requires
            old(records).wf(),
            old(records).issued() < usize::MAX,
            forall|q: CommandRunRequest, t: usize| host_hook_command_run.requires((q, t)),
        ensures
            final(records).wf(),
            r matches Ok(h) ==> h.hook.record_token() == old(records).issued() + 1 && h.hook.context() == *self,
            exists|q: CommandRunRequest, rec: CommandRunHookData<T>, answer: Option<usize>|
                {
                    &&& q.command@ == host_bytes(command@)
                    &&& rec.weechat == *self
                    &&& payload_from(callback_data, rec.callback_data)
                    &&& host_hook_command_run.ensures((q, (old(records).issued() + 1) as usize), answer)
                    &&& registration_outcome(*old(records), *final(records), rec, answer, commandrunhook_result(r))
                },
    {
        let ghost given = callback_data;
        let record = CommandRunHookData { weechat: *self, callback_data: callback_data.unwrap_or_default() };
        let ghost rec = record;
        let request = CommandRunRequest { command: LossyCString::new(command) };
        let ghost q = request;
        let ghost before = *records;
        let ghost host = host_hook_command_run;
        let r = Hook::register(*self, records, record, request, host_hook_command_run);
        let ghost a = choose|a: Option<usize>|
            host.ensures((q, (before.issued() + 1) as usize), a) && registration_outcome(before, *records, rec, a, hook_result(r));
        let out = match r {
            Ok(hook) => Ok(CommandRunHook { hook }),
            Err(e) => Err(e),
        };
        assert(commandrunhook_result(out) == hook_result(r));
        assert({
            &&& q.command@ == host_bytes(command@)
            &&& rec.weechat == *self
            &&& payload_from(given, rec.callback_data)
            &&& host.ensures((q, (before.issued() + 1) as usize), a)
            &&& registration_outcome(before, *records, rec, a, commandrunhook_result(out))
        });
        out
    }

    /// Hooks the signal `signal` (the wildcard `*` is allowed), answered by the
    /// payload `callback_data` (the type's default value when not given)
    /// through the host's registration entry point `host_hook_signal`. If
    /// the host refuses, the record is reclaimed and the refusal returned.
    pub fn hook_signal<T, H>(
        &self,
        records: &mut Registry<SignalHookData<T>>,
        signal: &str,
        callback_data: Option<T>,
        host_hook_signal: H,
    ) -> (r: Result<SignalHook, RegistrationError>)
        where
            T: SignalCallback + Default,
            H: FnOnce(SignalRequest, usize) -> Option<usize>,
        requires
            old(records).wf(),
            old(records).issued() < usize::MAX,
            forall|q: SignalRequest, t: usize| host_hook_signal.requires((q, t)),
        ensures
            final(records).wf(),
            r matches Ok(h) ==> h.hook.record_token() == old(records).issued() + 1 && h.hook.context() == *self,
            exists|q: SignalRequest, rec: SignalHookData<T>, answer: Option<usize>|
                {
                    &&& q.signal@ == host_bytes(signal@)
                    &&& rec.weechat == *self
                    &&& payload_from(callback_data, rec.callback_data)
                    &&& host_hook_signal.ensures((q, (old(records).issued() + 1) as usize), answer)
                    &&& registration_outcome(*old(records), *final(records), rec, answer, signalhook_result(r))
                },
    {
        let ghost given = callback_data;
        let record = SignalHookData { weechat: *self, callback_data: callback_data.unwrap_or_default() };
        let ghost rec = record;
        let request = SignalRequest { signal: LossyCString::new(signal) };
        let ghost q = request;
        let ghost before = *records;
        let ghost host = host_hook_signal;
        let r = Hook::register(*self, records, record, request, host_hook_signal);
        let ghost a = choose|a: Option<usize>|
            host.ensures((q, (before.issued() + 1) as usize), a) && registration_outcome(before, *records, rec, a, hook_result(r));
        let out = match r {
            Ok(hook) => Ok(SignalHook { hook }),
            Err(e) => Err(e),
        };
        assert(signalhook_result(out) == hook_result(r));
        assert({
            &&& q.signal@ == host_bytes(signal@)
            &&& rec.weechat == *self
            &&& payload_from(given, rec.callback_data)
            &&& host.ensures((q, (before.issued() + 1) as usize), a)
            &&& registration_outcome(before, *records, rec, a, signalhook_result(out))
        });
        out
    }
}

/// Dispatch adapter of a command. The host passes the record's token, the
/// buffer the command ran in and its argument vector. The callback runs with
/// the record's payload and the arguments read as text, and the host gets 0.
/// A token without a live record gets -1 and nothing runs.
pub fn dispatch_command<T: CommandCallback>(
    records: &Registry<CommandHookData<T>>,
    token: usize,
    buffer: usize,
    argv: &[Vec<u8>],
) -> (r: i32)
    requires
        records.wf(),
    ensures
        r == (if records.live().contains_key(token as int) { 0i32 } else { -1i32 }),
        records.live().contains_key(token as int) ==> exists|b: Buffer, a: ArgsWeechat|
            #![trigger T::run_command.ensures((&records.live()[token as int].callback_data, &records.live()[token as int].weechat, &b, a), ())]
            {
                &&& b.host_ptr() == buffer && b.context() == records.live()[token as int].weechat
                &&& a.remaining().len() == argv@.len()
                &&& forall|i: int| 0 <= i < argv@.len() ==> #[trigger] a.remaining()[i] == host_text(argv@[i]@)
                &&& T::run_command.ensures(
                    (&records.live()[token as int].callback_data, &records.live()[token as int].weechat, &b, a),
                    (),
                )
            },
{
    match records.get(token) {
        Some(record) => {
            let buf = Buffer::from_ptr(record.weechat, buffer);
            let args = ArgsWeechat::new(argv);
            record.callback_data.run_command(&record.weechat, &buf, args);
            ReturnCode::Success.value()
        },
        None => ReturnCode::Error.value(),
    }
}

/// Dispatch adapter of a file descriptor hook. The callback runs with the
/// record's payload and its watched object, which it may change, and the
/// host gets 0. A token without a live record gets -1 and nothing runs.
pub fn dispatch_fd<T: FdCallback<F>, F>(records: &mut Registry<FdHookData<T, F>>, token: usize) -> (r: i32)
    requires
        old(records).wf(),
    ensures
        final(records).wf(),
        old(records).live().contains_key(token as int) ==> {
            &&& r == 0
            &&& dispatch_outcome(*old(records), *final(records), token as int)
            &&& final(records).live()[token as int].callback_data == old(records).live()[token as int].callback_data
            &&& exists|m: &mut F|
                #![trigger T::fd_ready.ensures((&old(records).live()[token as int].callback_data, m), ())]
                *m == old(records).live()[token as int].fd_object && *final(m) == final(records).live()[
                    token as int].fd_object && T::fd_ready.ensures((&old(records).live()[token as int].callback_data, m), ())
        },
        !old(records).live().contains_key(token as int) ==> r == -1 && final(records).same_state(old(records)),
{
    proof { records.lemma_wf(); }
    match records.lend(token) {
        Some(mut record) => {
            let m = &mut record.fd_object;
            record.callback_data.fd_ready(m);
            records.give_back(token, record);
            assert(records.live().dom() =~= old(records).live().dom());
            assert(records.lent() =~= old(records).lent());
            ReturnCode::Success.value()
        },
        None => {
            assert(records.live() =~= old(records).live());
            ReturnCode::Error.value()
        },
    }
}

/// Dispatch adapter of a timer. The callback runs with the record's payload
/// and the number of calls left (-1 for a timer without end), and the host
/// gets 0. A token without a live record, such as that of a timer the host
/// already released after its last call, gets -1 and nothing runs.
pub fn dispatch_timer<T: TimerCallback>(records: &Registry<TimerHookData<T>>, token: usize, remaining: i32) -> (r: i32)
    requires
        records.wf(),
    ensures
        r == (if records.live().contains_key(token as int) { 0i32 } else { -1i32 }),
        records.live().contains_key(token as int) ==> T::timer_fired.ensures(
            (&records.live()[token as int].callback_data, &records.live()[token as int].weechat, remaining),
            (),
        ),
{
    match records.get(token) {
        Some(record) => {
            record.callback_data.timer_fired(&record.weechat, remaining);
            ReturnCode::Success.value()
        },
        None => ReturnCode::Error.value(),
    }
}

/// Dispatch adapter of a command run. The host passes the record's token,
/// the buffer and the command line (`None` when it gave none). The callback
/// runs with the record's payload and the command read as text, and its
/// status goes to the host. A token without a live record, or a missing
/// command line, gets -1 and nothing runs.
pub fn dispatch_command_run<T: CommandRunCallback>(
    records: &Registry<CommandRunHookData<T>>,
    token: usize,
    buffer: usize,
    command: Option<&[u8]>,
) -> (r: i32)
    requires
        records.wf(),
    ensures
        !(records.live().contains_key(token as int) && command is Some) ==> r == -1,
        records.live().contains_key(token as int) && command is Some ==> exists|b: Buffer, line: &str, c: ReturnCode|
            #![trigger T::command_run.ensures((&records.live()[token as int].callback_data, &b, line), c)]
            {
                &&& b.host_ptr() == buffer && b.context() == records.live()[token as int].weechat
                &&& line@ == host_text(command->Some_0@)
                &&& T::command_run.ensures((&records.live()[token as int].callback_data, &b, line), c)
                &&& r == return_code_value(c)
            },
{
    let line = match command {
        Some(b) => from_host(b),
        None => {
            return ReturnCode::Error.value();
        },
    };
    match records.get(token) {
        Some(record) => {
            let buf = Buffer::from_ptr(record.weechat, buffer);
            let code = record.callback_data.command_run(&buf, line.as_str());
            code.value()
        },
        None => ReturnCode::Error.value(),
    }
}

/// Dispatch adapter of a signal. The host passes the record's token, the
/// signal's type name and its data. When the data has a value (see
/// `SignalHookValue::from_raw_with_type`), the callback runs with it and its
/// status goes to the host; otherwise nothing runs and the host gets 0. A
/// token without a live record gets -1 and nothing runs.
pub fn dispatch_signal<T: SignalCallback>(
    records: &Registry<SignalHookData<T>>,
    token: usize,
    data_type: &[u8],
    data: SignalData,
) -> (r: i32)
    requires
        records.wf(),
    ensures
        !records.live().contains_key(token as int) ==> r == -1,
        records.live().contains_key(token as int) && !signal_has_value(host_text(data_type@), data) ==> r == 0,
        records.live().contains_key(token as int) && signal_has_value(host_text(data_type@), data) ==> exists|
            v: SignalHookValue,
            c: ReturnCode,
        |
            #![trigger T::signal_received.ensures((&records.live()[token as int].callback_data, &records.live()[token as int].weechat, v), c)]
            {
                &&& signal_value_of(host_text(data_type@), data, v)
                &&& T::signal_received.ensures(
                    (&records.live()[token as int].callback_data, &records.live()[token as int].weechat, v),
                    c,
                )
                &&& r == return_code_value(c)
            },
{
    match records.get(token) {
        Some(record) => {
            let kind_name = from_host(data_type);
            match SignalHookValue::from_raw_with_type(kind_name.as_str(), data) {
                Some(value) => {
                    let code = record.callback_data.signal_received(&record.weechat, value);
                    code.value()
                },
                None => ReturnCode::Success.value(),
            }
        },
        None => ReturnCode::Error.value(),
    }
}

} // verus!
