//! Bar items: pieces of a host status bar whose text a callback renders.
use vstd::prelude::*;
use crate::buffer::{payload_from, Buffer};
use crate::registry::{hook_result, registration_outcome, release_outcome, Hook, Registry, RegistrationError};
use crate::strings::{host_bytes, LossyCString};
use crate::weechat::Weechat;

verus! {

/// A bar item as seen by its render callback, for the duration of the call.
#[derive(Clone, Copy, Debug)]
pub struct LightBarItem {
    ptr: usize,
    weechat: Weechat,
}

impl LightBarItem {
    /// The host's address of the bar item.
    pub closed spec fn host_ptr(self) -> usize {
        self.ptr
    }

    /// The context handle the item was reached through.
    pub closed spec fn context(self) -> Weechat {
        self.weechat
    }

    /// The host's address of the bar item.
    pub fn ptr(&self) -> (r: usize)
        ensures
            r == self.host_ptr(),
    {
        self.ptr
    }

    /// The context handle the item was reached through.
    pub fn get_weechat(&self) -> (r: Weechat)
        ensures
            r == self.context(),
    {
        self.weechat
    }
}

/// What renders a bar item; implemented by the payload handed to
/// `Weechat::new_bar_item`.
pub trait BarItemCallback {
    /// Returns the item's text for `buffer`.
    fn render(&self, item: &LightBarItem, buffer: &Buffer) -> String;
}

/// The callback record of a bar item.
pub struct BarItemCbData<T> {
    pub weechat: Weechat,
    pub callback_data: T,
}

/// The host's bar item creation call, without the context token.
pub struct BarItemRequest {
    pub name: LossyCString,
}

/// A bar item; tearing it down removes it from the host.
pub struct BarItem {
    pub hook: Hook,
}

/// The host handle that a bar item registration produced.
pub open spec fn baritem_result(r: Result<BarItem, RegistrationError>) -> Result<usize, RegistrationError> {
    match r {
        Ok(h) => Ok(h.hook.host_ptr()),
        Err(e) => Err(e),
    }
}

impl BarItem {
    /// Removes the bar item through the host's entry point
    /// `host_bar_item_remove`; see `Hook::unhook`.
    pub fn remove<T, U: FnOnce(usize)>(self, records: &mut Registry<BarItemCbData<T>>, host_bar_item_remove: U) -> (r: bool)
        requires
            old(records).wf(),
            host_bar_item_remove.requires((self.hook.host_ptr(),)),
        ensures
            final(records).wf(),
            r == old(records).live().contains_key(self.hook.record_token() as int),
            r ==> host_bar_item_remove.ensures((self.hook.host_ptr(),), ()),
            release_outcome(*old(records), *final(records), self.hook.record_token() as int),
    {
        self.hook.unhook(records, host_bar_item_remove)
    }
}

impl Weechat {
    /// Creates the bar item `name`, rendered by the payload `callback_data`
    /// (the type's default value when not given), through the host's entry
    /// point `host_bar_item_new`. If the host refuses, the callback record is
    /// reclaimed and the refusal returned.
    pub fn new_bar_item<T, H>(
        &self,
        records: &mut Registry<BarItemCbData<T>>,
        name: &str,
        callback_data: Option<T>,
        host_bar_item_new: H,
    ) -> (r: Result<BarItem, RegistrationError>)
        where
            T: BarItemCallback + Default,
            H: FnOnce(BarItemRequest, usize) -> Option<usize>,
        requires
            old(records).wf(),
            old(records).issued() < usize::MAX,
            forall|q: BarItemRequest, t: usize| host_bar_item_new.requires((q, t)),
        ensures
            final(records).wf(),
            r matches Ok(h) ==> h.hook.record_token() == old(records).issued() + 1 && h.hook.context() == *self,
            exists|q: BarItemRequest, rec: BarItemCbData<T>, answer: Option<usize>|
                {
                    &&& q.name@ == host_bytes(name@)
                    &&& rec.weechat == *self
                    &&& payload_from(callback_data, rec.callback_data)
                    &&& host_bar_item_new.ensures((q, (old(records).issued() + 1) as usize), answer)
                    &&& registration_outcome(*old(records), *final(records), rec, answer, baritem_result(r))
                },
    {
        let ghost given = callback_data;
        let record = BarItemCbData { weechat: *self, callback_data: callback_data.unwrap_or_default() };
        let ghost rec = record;
        let request = BarItemRequest { name: LossyCString::new(name) };
        let ghost q = request;
        let ghost before = *records;
        let ghost host = host_bar_item_new;
        let r = Hook::register(*self, records, record, request, host_bar_item_new);
        let ghost a = choose|a: Option<usize>|
            host.ensures((q, (before.issued() + 1) as usize), a) && registration_outcome(before, *records, rec, a, hook_result(r));
        let out = match r {
            Ok(hook) => Ok(BarItem { hook }),
            Err(e) => Err(e),
        };
        assert(baritem_result(out) == hook_result(r));
        assert({
            &&& q.name@ == host_bytes(name@)
            &&& rec.weechat == *self
            &&& payload_from(given, rec.callback_data)
            &&& host.ensures((q, (before.issued() + 1) as usize), a)
            &&& registration_outcome(before, *records, rec, a, baritem_result(out))
        });
        out
    }

    /// Asks the host, through its entry point `host_bar_item_update`, to
    /// render the bar item `name` again.
    pub fn update_bar_item<H: FnOnce(LossyCString)>(&self, name: &str, host_bar_item_update: H)
        requires
            forall|n: LossyCString| host_bar_item_update.requires((n,)),
        ensures
            exists|n: LossyCString| n@ == host_bytes(name@) && host_bar_item_update.ensures((n,), ()),
    {
        let n = LossyCString::new(name);
        let ghost g = n;
        let ghost host = host_bar_item_update;
        host_bar_item_update(n);
        assert(g@ == host_bytes(name@) && host.ensures((g,), ()));
    }
}

/// Dispatch adapter of a bar item. The host passes the record's token, the
/// bar item and the buffer; the callback's text goes back to the host as a
/// byte string without terminator bytes. A token without a live record gets
/// `None` (a null string) and nothing runs.
pub fn dispatch_bar_item<T: BarItemCallback>(
    records: &Registry<BarItemCbData<T>>,
    token: usize,
    bar_item: usize,
    buffer: usize,
) -> (r: Option<LossyCString>)
    requires
        records.wf(),
    ensures
        r is Some <==> records.live().contains_key(token as int),
        r matches Some(s) ==> !s@.contains(0),
        records.live().contains_key(token as int) ==> exists|item: LightBarItem, b: Buffer, text: String|
            #![trigger T::render.ensures((&records.live()[token as int].callback_data, &item, &b), text)]
            {
                &&& item.host_ptr() == bar_item && item.context() == records.live()[token as int].weechat
                &&& b.host_ptr() == buffer && b.context() == records.live()[token as int].weechat
                &&& T::render.ensures((&records.live()[token as int].callback_data, &item, &b), text)
                &&& r->Some_0@ == host_bytes(text@)
            },
{
    match records.get(token) {
        Some(record) => {
            let item = LightBarItem { ptr: bar_item, weechat: record.weechat };
            let buf = Buffer::from_ptr(record.weechat, buffer);
            let text = record.callback_data.render(&item, &buf);
            Some(LossyCString::new(text.as_str()))
        },
        None => None,
    }
}

} // verus!
