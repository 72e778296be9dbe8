//! Completion items: the host asks a callback to fill a completion list.
use vstd::prelude::*;
use crate::buffer::{payload_from, Buffer};
use crate::registry::{hook_result, registration_outcome, release_outcome, Hook, Registry, RegistrationError};
use crate::status::{return_code_value, ReturnCode};
use crate::strings::{from_host, host_bytes, host_text, LossyCString};
use crate::weechat::Weechat;

verus! {

/// Where a word goes in a completion list.
#[derive(Clone, Copy, Debug, PartialEq, Eq, Structural)]
pub enum CompletionPosition {
    /// Keeps the list sorted.
    Sorted,
    /// At the beginning of the list.
    Beginning,
    /// At the end of the list.
    End,
}

impl CompletionPosition {
    /// The host's name of the position.
    pub fn value(&self) -> (r: &'static str)
        ensures
            *self == CompletionPosition::Sorted ==> r@ == "sort"@,
            *self == CompletionPosition::Beginning ==> r@ == "beginning"@,
            *self == CompletionPosition::End ==> r@ == "end"@,
    {
        match self {
            CompletionPosition::Sorted => "sort",
            CompletionPosition::Beginning => "beginning",
            CompletionPosition::End => "end",
        }
    }
}

/// A completion list under construction, handed to a completion callback for
/// the duration of the call.
#[derive(Clone, Copy, Debug)]
pub struct Completion {
    weechat: Weechat,
    ptr: usize,
}

/// The host's call that adds a word to a completion list.
pub struct CompletionWord {
    pub completion: usize,
    pub word: LossyCString,
    pub is_nick: i32,
    pub position: LossyCString,
}

impl Completion {
    /// The host's address of the completion list.
    pub closed spec fn host_ptr(self) -> usize {
        self.ptr
    }

    /// The context handle the list was reached through.
    pub closed spec fn context(self) -> Weechat {
        self.weechat
    }

    /// Pairs a host completion list with the context handle.
    pub fn from_raw(weechat: Weechat, ptr: usize) -> (r: Completion)
        ensures
            r.host_ptr() == ptr,
            r.context() == weechat,
    {
        Completion { weechat, ptr }
    }

    /// The context handle the list was reached through.
    pub fn get_weechat(&self) -> (r: Weechat)
        ensures
            r == self.context(),
    {
        self.weechat
    }

    /// Adds `word` so that the list stays sorted; see `add_with_options`.
    pub fn add<H: FnOnce(CompletionWord)>(&self, word: &str, host_list_add: H)
        requires
            forall|w: CompletionWord| host_list_add.requires((w,)),
        ensures
            exists|w: CompletionWord|
                {
                    &&& w.completion == self.host_ptr()
                    &&& w.word@ == host_bytes(word@)
                    &&& w.is_nick == 0
                    &&& w.position@ == host_bytes("sort"@)
                    &&& host_list_add.ensures((w,), ())
                },
    {
        self.add_with_options(word, false, CompletionPosition::Sorted, host_list_add)
    }

    /// Adds `word` at `position`, marked as a nick when `is_nick` holds,
    /// through the host's entry point `host_list_add`.
    pub fn add_with_options<H: FnOnce(CompletionWord)>(
        &self,
        word: &str,
        is_nick: bool,
        position: CompletionPosition,
        host_list_add: H,
    )
        requires
            forall|w: CompletionWord| host_list_add.requires((w,)),
        ensures
            exists|w: CompletionWord|
                {
                    &&& w.completion == self.host_ptr()
                    &&& w.word@ == host_bytes(word@)
                    &&& w.is_nick == (if is_nick { 1i32 } else { 0i32 })
                    &&& (position == CompletionPosition::Sorted ==> w.position@ == host_bytes("sort"@))
                    &&& (position == CompletionPosition::Beginning ==> w.position@ == host_bytes("beginning"@))
                    &&& (position == CompletionPosition::End ==> w.position@ == host_bytes("end"@))
                    &&& host_list_add.ensures((w,), ())
                },
    {
        let w = CompletionWord {
            completion: self.ptr,
            word: LossyCString::new(word),
            is_nick: if is_nick { 1 } else { 0 },
            position: LossyCString::new(position.value()),
        };
        let ghost g = w;
        let ghost host = host_list_add;
        host_list_add(w);
        assert({
            &&& g.completion == self.host_ptr()
            &&& g.word@ == host_bytes(word@)
            &&& g.is_nick == (if is_nick { 1i32 } else { 0i32 })
            &&& (position == CompletionPosition::Sorted ==> g.position@ == host_bytes("sort"@))
            &&& (position == CompletionPosition::Beginning ==> g.position@ == host_bytes("beginning"@))
            &&& (position == CompletionPosition::End ==> g.position@ == host_bytes("end"@))
            &&& host.ensures((g,), ())
        });
    }
}

/// What fills a completion list; implemented by the payload handed to
/// `Weechat::hook_completion`.
pub trait CompletionCallback {
    /// Called with the buffer, the completion item's name and the list to
    /// fill; the status goes to the host.
    fn complete(&self, buffer: &Buffer, item: &str, completion: &Completion) -> ReturnCode;
}

/// The callback record of a completion item.
pub struct CompletionHookData<T> {
    pub weechat: Weechat,
    pub callback_data: T,
}

/// The host's completion item registration call, without the context token.
pub struct CompletionRequest {
    pub item: LossyCString,
    pub description: LossyCString,
}

/// A hooked completion item; tearing it down removes it.
pub struct CompletionHook {
    pub hook: Hook,
}

/// The host handle that a completion item registration produced.
pub open spec fn completionhook_result(r: Result<CompletionHook, RegistrationError>) -> Result<usize, RegistrationError> {
    match r {
        Ok(h) => Ok(h.hook.host_ptr()),
        Err(e) => Err(e),
    }
}

impl CompletionHook {
    /// Removes the completion item; see `Hook::unhook`.
    pub fn unhook<T, U: FnOnce(usize)>(self, records: &mut Registry<CompletionHookData<T>>, host_unhook: U) -> (r: bool)
        requires
            old(records).wf(),
            host_unhook.requires((self.hook.host_ptr(),)),
        ensures
            final(records).wf(),
            r == old(records).live().contains_key(self.hook.record_token() as int),
            r ==> host_unhook.ensures((self.hook.host_ptr(),), ()),
            release_outcome(*old(records), *final(records), self.hook.record_token() as int),
    {
        self.hook.unhook(records, host_unhook)
    }
}

impl Weechat {
    /// Hooks the completion item `completion_item`, described by
    /// `description` and filled by the payload `callback_data` (the type's
    /// default value when not given), through the host's registration entry
    /// point `host_hook_completion`. If the host refuses, the callback record
    /// is reclaimed and the refusal returned.
    pub fn hook_completion<T, H>(
        &self,
        records: &mut Registry<CompletionHookData<T>>,
        completion_item: &str,
        description: &str,
        callback_data: Option<T>,
        host_hook_completion: H,
    ) -> (r: Result<CompletionHook, RegistrationError>)
        where
            T: CompletionCallback + Default,
            H: FnOnce(CompletionRequest, usize) -> Option<usize>,
        requires
            old(records).wf(),
            old(records).issued() < usize::MAX,
            forall|q: CompletionRequest, t: usize| host_hook_completion.requires((q, t)),
        ensures
            final(records).wf(),
            r matches Ok(h) ==> h.hook.record_token() == old(records).issued() + 1 && h.hook.context() == *self,
            exists|q: CompletionRequest, rec: CompletionHookData<T>, answer: Option<usize>|
                {
                    &&& q.item@ == host_bytes(completion_item@) && q.description@ == host_bytes(description@)
                    &&& rec.weechat == *self
                    &&& payload_from(callback_data, rec.callback_data)
                    &&& host_hook_completion.ensures((q, (old(records).issued() + 1) as usize), answer)
                    &&& registration_outcome(*old(records), *final(records), rec, answer, completionhook_result(r))
                },
    {
        let ghost given = callback_data;
        let record = CompletionHookData { weechat: *self, callback_data: callback_data.unwrap_or_default() };
        let ghost rec = record;
        let request = CompletionRequest {
            item: LossyCString::new(completion_item),
            description: LossyCString::new(description),
        };
        let ghost q = request;
        let ghost before = *records;
        let ghost host = host_hook_completion;
        let r = Hook::register(*self, records, record, request, host_hook_completion);
        let ghost a = choose|a: Option<usize>|
            host.ensures((q, (before.issued() + 1) as usize), a) && registration_outcome(before, *records, rec, a, hook_result(r));
        let out = match r {
            Ok(hook) => Ok(CompletionHook { hook }),
            Err(e) => Err(e),
        };
        assert(completionhook_result(out) == hook_result(r));
        assert({
            &&& q.item@ == host_bytes(completion_item@) && q.description@ == host_bytes(description@)
            &&& rec.weechat == *self
            &&& payload_from(given, rec.callback_data)
            &&& host.ensures((q, (before.issued() + 1) as usize), a)
            &&& registration_outcome(before, *records, rec, a, completionhook_result(out))
        });
        out
    }
}

/// Dispatch adapter of a completion item. The host passes the record's
/// token, the item's name (`None` when it gave none), the buffer and the
/// completion list. The callback runs with the record's payload and its
/// status goes to the host. A token without a live record, or a missing
/// name, gets -1 and nothing runs.
pub fn dispatch_completion<T: CompletionCallback>(
    records: &Registry<CompletionHookData<T>>,
    token: usize,
    item: Option<&[u8]>,
    buffer: usize,
    completion: usize,
) -> (r: i32)
    requires
        records.wf(),
    ensures
        !(records.live().contains_key(token as int) && item is Some) ==> r == -1,
        records.live().contains_key(token as int) && item is Some ==> exists|b: Buffer, name: &str, list: Completion, c: ReturnCode|
            #![trigger T::complete.ensures((&records.live()[token as int].callback_data, &b, name, &list), c)]
            {
                &&& b.host_ptr() == buffer && b.context() == records.live()[token as int].weechat
                &&& name@ == host_text(item->Some_0@)
                &&& list.host_ptr() == completion && list.context() == records.live()[token as int].weechat
                &&& T::complete.ensures((&records.live()[token as int].callback_data, &b, name, &list), c)
                &&& r == return_code_value(c)
            },
{
    let name = match item {
        Some(b) => from_host(b),
        None => {
            return ReturnCode::Error.value();
        },
    };
    match records.get(token) {
        Some(record) => {
            let buf = Buffer::from_ptr(record.weechat, buffer);
            let list = Completion::from_raw(record.weechat, completion);
            let code = record.callback_data.complete(&buf, name.as_str(), &list);
            code.value()
        },
        None => ReturnCode::Error.value(),
    }
}

} // verus!
