//! Buffers: host windows of text that carry two callbacks, one for each line
//! of user input and one for the buffer's closing.
use vstd::prelude::*;
use crate::registry::{dispatch_outcome, registration_outcome, release_outcome, Registry, RegistrationError};
use crate::status::ReturnCode;
use crate::strings::{from_host, host_bytes, host_text, LossyCString};
use crate::weechat::{print_to, prints, PrintRequest, Weechat};

verus! {

/// A non-owning handle on a host buffer. Dropping it does not close the
/// buffer.
#[derive(Clone, Copy, Debug)]
pub struct Buffer {
    weechat: Weechat,
    ptr: usize,
}

impl Buffer {
    /// The host's address of the buffer.
    pub closed spec fn host_ptr(self) -> usize {
        self.ptr
    }

    /// The context handle the buffer was reached through.
    pub closed spec fn context(self) -> Weechat {
        self.weechat
    }

    /// Pairs a host buffer with the context handle it belongs to.
    pub fn from_ptr(weechat: Weechat, ptr: usize) -> (r: Buffer)
        ensures
            r.host_ptr() == ptr,
            r.context() == weechat,
    {
        Buffer { weechat, ptr }
    }

    /// The host's address of the buffer.
    pub fn ptr(&self) -> (r: usize)
        ensures
            r == self.host_ptr(),
    {
        self.ptr
    }

    /// The context handle the buffer was reached through.
    pub fn get_weechat(&self) -> (r: Weechat)
        ensures
            r == self.context(),
    {
        self.weechat
    }
}

impl PartialEq for Buffer {
    /// Two handles are equal when they name the same host buffer.
    fn eq(&self, other: &Buffer) -> (r: bool) {
        self.ptr == other.ptr
    }
}

impl vstd::std_specs::cmp::PartialEqSpecImpl for Buffer {
    open spec fn obeys_eq_spec() -> bool {
        true
    }

    open spec fn eq_spec(&self, other: &Buffer) -> bool {
        self.host_ptr() == other.host_ptr()
    }
}

/// What a buffer does with a line of user input; implemented by the payload
/// handed to `Weechat::buffer_new`.
pub trait BufferInputCallback {
    /// Called with each line entered in the buffer.
    fn buffer_input(&mut self, buffer: &Buffer, input: &str);
}

/// What a buffer does when it closes; implemented by the payload handed to
/// `Weechat::buffer_new`.
pub trait BufferCloseCallback {
    /// Called once, when the host closes the buffer.
    fn buffer_closed(&self, buffer: &Buffer);
}

/// The callback record of a buffer: both payloads in one record, so that the
/// single release frees them together.
pub struct BufferPointers<A, B> {
    pub weechat: Weechat,
    pub input_data: A,
    pub close_cb_data: B,
}

/// The host's buffer creation call, without the context token.
pub struct BufferRequest {
    pub name: LossyCString,
}

/// `value` is the payload made from `given`: `given` itself, or the default
/// value of the type when none was given.
pub open spec fn payload_from<T: Default>(given: Option<T>, value: T) -> bool {
    match given {
        Some(x) => value == x,
        None => T::default.ensures((), value),
    }
}

/// The host handle that a buffer registration produced.
pub open spec fn buffer_result(r: Result<Buffer, RegistrationError>) -> Result<usize, RegistrationError> {
    match r {
        Ok(b) => Ok(b.host_ptr()),
        Err(e) => Err(e),
    }
}

impl Weechat {
    /// Creates a host buffer named `name` whose input and close callbacks are
    /// the payloads `input_data` and `close_cb_data` (their types' default
    /// values when not given). Both payloads go into one callback record,
    /// which is handed to the host; `host_buffer_new` is the host's creation
    /// entry point. If the host refuses, the record is reclaimed and the
    /// refusal returned.
    pub fn buffer_new<A, B, H>(
        &self,
        records: &mut Registry<BufferPointers<A, B>>,
        name: &str,
        input_data: Option<A>,
        close_cb_data: Option<B>,
        host_buffer_new: H,
    ) -> (r: Result<Buffer, RegistrationError>)
        where
            A: BufferInputCallback + Default,
            B: BufferCloseCallback + Default,
            H: FnOnce(BufferRequest, usize) -> Option<usize>,
        requires
            old(records).wf(),
            old(records).issued() < usize::MAX,
            forall|q: BufferRequest, t: usize| host_buffer_new.requires((q, t)),
        ensures
            final(records).wf(),
            r matches Ok(b) ==> b.context() == *self,
            exists|q: BufferRequest, rec: BufferPointers<A, B>, answer: Option<usize>|
                {
                    &&& q.name@ == host_bytes(name@)
                    &&& rec.weechat == *self
                    &&& payload_from(input_data, rec.input_data)
                    &&& payload_from(close_cb_data, rec.close_cb_data)
                    &&& host_buffer_new.ensures((q, (old(records).issued() + 1) as usize), answer)
                    &&& registration_outcome(*old(records), *final(records), rec, answer, buffer_result(r))
                },
    {
        let ghost given_input = input_data;
        let ghost given_close = close_cb_data;
        let record = BufferPointers {
            weechat: *self,
            input_data: input_data.unwrap_or_default(),
            close_cb_data: close_cb_data.unwrap_or_default(),
        };
        let ghost rec = record;
        let request = BufferRequest { name: LossyCString::new(name) };
        let ghost q = request;
        let ghost before = *records;
        let ghost host = host_buffer_new;
        let (token, answer) = records.register(record, request, host_buffer_new);
        let r = match answer {
            Ok(p) => Ok(Buffer::from_ptr(*self, p)),
            Err(e) => Err(e),
        };
        assert(buffer_result(r) == answer);
        let ghost a = choose|a: Option<usize>|
            host.ensures((q, token), a) && registration_outcome(before, *records, rec, a, answer);
        assert({
            &&& q.name@ == host_bytes(name@)
            &&& rec.weechat == *self
            &&& payload_from(given_input, rec.input_data)
            &&& payload_from(given_close, rec.close_cb_data)
            &&& host.ensures((q, (before.issued() + 1) as usize), a)
            &&& registration_outcome(before, *records, rec, a, buffer_result(r))
        });
        r
    }
}

/// Dispatch adapter of buffer input. The host passes the record's token, its
/// buffer and the entered text (`None` when the host gave no text). The
/// input callback runs with the record's input payload, and the host gets
/// 0. A token without a live record, or a missing text, gets -1 and nothing
/// runs.
pub fn dispatch_buffer_input<A: BufferInputCallback, B>(
    records: &mut Registry<BufferPointers<A, B>>,
    token: usize,
    buffer: usize,
    input: Option<&[u8]>,
) -> (r: i32)
    requires
        old(records).wf(),
    ensures
        final(records).wf(),
        old(records).live().contains_key(token as int) && input is Some ==> {
            &&& r == 0
            &&& dispatch_outcome(*old(records), *final(records), token as int)
            &&& final(records).live()[token as int].weechat == old(records).live()[token as int].weechat
            &&& final(records).live()[token as int].close_cb_data == old(records).live()[token as int].close_cb_data
            &&& exists|m: &mut A, b: Buffer, text: &str|
                #![trigger A::buffer_input.ensures((m, &b, text), ())]
                {
                    &&& *m == old(records).live()[token as int].input_data
                    &&& *final(m) == final(records).live()[token as int].input_data
                    &&& b.host_ptr() == buffer && b.context() == old(records).live()[token as int].weechat
                    &&& text@ == host_text(input->Some_0@)
                    &&& A::buffer_input.ensures((m, &b, text), ())
                }
        },
        !(old(records).live().contains_key(token as int) && input is Some) ==> r == -1
            && final(records).same_state(old(records)),
{
    proof { records.lemma_wf(); }
    let text = match input {
        Some(b) => from_host(b),
        None => {
            return ReturnCode::Error.value();
        },
    };
    match records.lend(token) {
        Some(mut record) => {
            let buf = Buffer::from_ptr(record.weechat, buffer);
            let m = &mut record.input_data;
            m.buffer_input(&buf, text.as_str());
            records.give_back(token, record);
            assert(records.live().dom() =~= old(records).live().dom());
            assert(records.lent() =~= old(records).lent());
            ReturnCode::Success.value()
        },
        None => {
            assert(final(records).live() =~= old(records).live());
            ReturnCode::Error.value()
        },
    }
}

/// Release adapter of a buffer, called once by the host when the buffer
/// closes. The close callback runs with the record's close payload, then the
/// record is dropped with both payloads; the host gets 0. A token without a
/// live record gets -1 and nothing is dropped twice.
pub fn release_buffer<A, B: BufferCloseCallback>(
    records: &mut Registry<BufferPointers<A, B>>,
    token: usize,
    buffer: usize,
) -> (r: i32)
    requires
        old(records).wf(),
    ensures
        final(records).wf(),
        release_outcome(*old(records), *final(records), token as int),
        r == (if old(records).live().contains_key(token as int) { 0i32 } else { -1i32 }),
        old(records).live().contains_key(token as int) ==> exists|b: Buffer|
            #![trigger B::buffer_closed.ensures((&old(records).live()[token as int].close_cb_data, &b), ())]
            b.host_ptr() == buffer && b.context() == old(records).live()[token as int].weechat && B::buffer_closed.ensures(
                (&old(records).live()[token as int].close_cb_data, &b),
                (),
            ),
{
    match records.reclaim(token) {
        Some(record) => {
            let buf = Buffer::from_ptr(record.weechat, buffer);
            record.close_cb_data.buffer_closed(&buf);
            ReturnCode::Success.value()
        },
        None => ReturnCode::Error.value(),
    }
}

/// Arguments of a new nick.
pub struct NickArgs<'a> {
    /// Name of the nick.
    pub name: &'a str,
    /// Color of the nick.
    pub color: &'a str,
    /// Prefix shown before the name.
    pub prefix: &'a str,
    /// Color of the prefix.
    pub prefix_color: &'a str,
    /// Whether the nick shows in the nicklist.
    pub visible: bool,
}

impl<'a> Default for NickArgs<'a> {
    /// Empty texts, visible.
    fn default() -> (r: NickArgs<'a>)
        ensures
            r.name@ == ""@,
            r.color@ == ""@,
            r.prefix@ == ""@,
            r.prefix_color@ == ""@,
            r.visible,
    {
        NickArgs { name: "", color: "", prefix: "", prefix_color: "", visible: true }
    }
}

/// A nick of a buffer's nicklist. It stays in the nicklist when the handle
/// is dropped.
#[derive(Clone, Copy, Debug)]
pub struct Nick {
    ptr: usize,
    buf_ptr: usize,
    weechat: Weechat,
}

/// A group of a buffer's nicklist. It stays in the nicklist when the handle
/// is dropped.
#[derive(Clone, Copy, Debug)]
pub struct NickGroup {
    ptr: usize,
    buf_ptr: usize,
}

/// The host's call that adds a nick; a group of 0 is the root group.
pub struct NickRequest {
    pub buffer: usize,
    pub group: usize,
    pub name: LossyCString,
    pub color: LossyCString,
    pub prefix: LossyCString,
    pub prefix_color: LossyCString,
    pub visible: i32,
}

/// The host's call that adds a nicklist group; a parent of 0 is the root
/// group.
pub struct GroupRequest {
    pub buffer: usize,
    pub parent: usize,
    pub name: LossyCString,
    pub color: LossyCString,
    pub visible: i32,
}

impl NickGroup {
    /// The host's address of the group.
    pub closed spec fn host_ptr(self) -> usize {
        self.ptr
    }

    /// The host's address of the buffer of the group.
    pub closed spec fn buffer_ptr(self) -> usize {
        self.buf_ptr
    }
}

impl Nick {
    /// The host's address of the nick.
    pub closed spec fn host_ptr(self) -> usize {
        self.ptr
    }

    /// The host's address of the buffer of the nick.
    pub closed spec fn buffer_ptr(self) -> usize {
        self.buf_ptr
    }

    /// The context handle the nick was reached through.
    pub closed spec fn context(self) -> Weechat {
        self.weechat
    }

    /// The context handle the nick was reached through.
    pub fn get_weechat(&self) -> (r: Weechat)
        ensures
            r == self.context(),
    {
        self.weechat
    }

    /// The nick's property `property` (name, color, prefix or prefix_color),
    /// read through the host's entry point `host_nick_get_string`, which gets
    /// the buffer, the nick and the property; `None` when the host gives
    /// none.
    pub fn get_string<H: FnOnce(usize, usize, LossyCString) -> Option<Vec<u8>>>(&self, property: &str, host_nick_get_string: H) -> (r:
        Option<String>)
        requires
            forall|b: usize, n: usize, p: LossyCString| host_nick_get_string.requires((b, n, p)),
        ensures
            exists|p: LossyCString, v: Option<Vec<u8>>|
                #![trigger host_nick_get_string.ensures((self.buffer_ptr(), self.host_ptr(), p), v)]
                p@ == host_bytes(property@) && host_nick_get_string.ensures((self.buffer_ptr(), self.host_ptr(), p), v)
                    && (r is Some <==> v is Some) && (r is Some ==> r->Some_0@ == host_text(v->Some_0@)),
    {
        let p = LossyCString::new(property);
        let ghost g = p;
        let ghost host = host_nick_get_string;
        let v = host_nick_get_string(self.buf_ptr, self.ptr, p);
        let r = match &v {
            Some(b) => Some(from_host(b.as_slice())),
            None => None,
        };
        assert(g@ == host_bytes(property@) && host.ensures((self.buffer_ptr(), self.host_ptr(), g), v));
        r
    }

    /// The nick's name; see `get_string`.
    pub fn get_name<H: FnOnce(usize, usize, LossyCString) -> Option<Vec<u8>>>(&self, host_nick_get_string: H) -> (r: Option<String>)
        requires
            forall|b: usize, n: usize, p: LossyCString| host_nick_get_string.requires((b, n, p)),
        ensures
            exists|p: LossyCString, v: Option<Vec<u8>>|
                #![trigger host_nick_get_string.ensures((self.buffer_ptr(), self.host_ptr(), p), v)]
                p@ == host_bytes("name"@) && host_nick_get_string.ensures((self.buffer_ptr(), self.host_ptr(), p), v)
                    && (r is Some <==> v is Some) && (r is Some ==> r->Some_0@ == host_text(v->Some_0@)),
    {
        self.get_string("name", host_nick_get_string)
    }
}

impl Buffer {
    /// Adds the nick `nick` to the buffer's nicklist, in `group` or in the
    /// root group, through the host's entry point `host_add_nick`. The nick
    /// stays when the returned handle is dropped.
    pub fn add_nick<H: FnOnce(NickRequest) -> usize>(&self, nick: NickArgs, group: Option<&NickGroup>, host_add_nick: H) -> (r: Nick)
        requires
            forall|q: NickRequest| host_add_nick.requires((q,)),
        ensures
            r.buffer_ptr() == self.host_ptr(),
            r.context() == self.context(),
            exists|q: NickRequest|
                #![trigger host_add_nick.ensures((q,), r.host_ptr())]
                {
                    &&& q.buffer == self.host_ptr()
                    &&& q.group == (match group {
                        Some(g) => g.host_ptr(),
                        None => 0usize,
                    })
                    &&& q.name@ == host_bytes(nick.name@)
                    &&& q.color@ == host_bytes(nick.color@)
                    &&& q.prefix@ == host_bytes(nick.prefix@)
                    &&& q.prefix_color@ == host_bytes(nick.prefix_color@)
                    &&& q.visible == (if nick.visible { 1i32 } else { 0i32 })
                    &&& host_add_nick.ensures((q,), r.host_ptr())
                },
    {
        let group_ptr: usize = match group {
            Some(g) => g.ptr,
            None => 0,
        };
        let q = NickRequest {
            buffer: self.ptr,
            group: group_ptr,
            name: LossyCString::new(nick.name),
            color: LossyCString::new(nick.color),
            prefix: LossyCString::new(nick.prefix),
            prefix_color: LossyCString::new(nick.prefix_color),
            visible: if nick.visible { 1 } else { 0 },
        };
        let ghost g = q;
        let ghost host = host_add_nick;
        let p = host_add_nick(q);
        let r = Nick { ptr: p, buf_ptr: self.ptr, weechat: self.weechat };
        assert({
            &&& g.buffer == self.host_ptr()
            &&& g.group == (match group {
                Some(gr) => gr.host_ptr(),
                None => 0usize,
            })
            &&& g.name@ == host_bytes(nick.name@)
            &&& g.color@ == host_bytes(nick.color@)
            &&& g.prefix@ == host_bytes(nick.prefix@)
            &&& g.prefix_color@ == host_bytes(nick.prefix_color@)
            &&& g.visible == (if nick.visible { 1i32 } else { 0i32 })
            &&& host.ensures((g,), r.host_ptr())
        });
        r
    }

    /// Adds a nicklist group named `name` with color `color`, under
    /// `parent_group` or the root group, through the host's entry point
    /// `host_add_group`. The group stays when the returned handle is dropped.
    pub fn add_group<H: FnOnce(GroupRequest) -> usize>(
        &self,
        name: &str,
        color: &str,
        visible: bool,
        parent_group: Option<&NickGroup>,
        host_add_group: H,
    ) -> (r: NickGroup)
        requires
            forall|q: GroupRequest| host_add_group.requires((q,)),
        ensures
            r.buffer_ptr() == self.host_ptr(),
            exists|q: GroupRequest|
                #![trigger host_add_group.ensures((q,), r.host_ptr())]
                {
                    &&& q.buffer == self.host_ptr()
                    &&& q.parent == (match parent_group {
                        Some(g) => g.host_ptr(),
                        None => 0usize,
                    })
                    &&& q.name@ == host_bytes(name@)
                    &&& q.color@ == host_bytes(color@)
                    &&& q.visible == (if visible { 1i32 } else { 0i32 })
                    &&& host_add_group.ensures((q,), r.host_ptr())
                },
    {
        let parent: usize = match parent_group {
            Some(g) => g.ptr,
            None => 0,
        };
        let q = GroupRequest {
            buffer: self.ptr,
            parent,
            name: LossyCString::new(name),
            color: LossyCString::new(color),
            visible: if visible { 1 } else { 0 },
        };
        let ghost g = q;
        let ghost host = host_add_group;
        let p = host_add_group(q);
        let r = NickGroup { ptr: p, buf_ptr: self.ptr };
        assert({
            &&& g.buffer == self.host_ptr()
            &&& g.parent == (match parent_group {
                Some(pg) => pg.host_ptr(),
                None => 0usize,
            })
            &&& g.name@ == host_bytes(name@)
            &&& g.color@ == host_bytes(color@)
            &&& g.visible == (if visible { 1i32 } else { 0i32 })
            &&& host.ensures((g,), r.host_ptr())
        });
        r
    }

    /// Sets the buffer's property `property` to `value` through the host's
    /// entry point `host_buffer_set`.
    pub fn set<H: FnOnce(usize, LossyCString, LossyCString)>(&self, property: &str, value: &str, host_buffer_set: H)
        requires
            forall|b: usize, p: LossyCString, v: LossyCString| host_buffer_set.requires((b, p, v)),
        ensures
            exists|p: LossyCString, v: LossyCString|
                #![trigger host_buffer_set.ensures((self.host_ptr(), p, v), ())]
                p@ == host_bytes(property@) && v@ == host_bytes(value@) && host_buffer_set.ensures((self.host_ptr(), p, v), ()),
    {
        let p = LossyCString::new(property);
        let v = LossyCString::new(value);
        let ghost gp = p;
        let ghost gv = v;
        let ghost host = host_buffer_set;
        host_buffer_set(self.ptr, p, v);
        assert(gp@ == host_bytes(property@) && gv@ == host_bytes(value@) && host.ensures((self.host_ptr(), gp, gv), ()));
    }

    /// The buffer's property `property`, read through the host's entry point
    /// `host_buffer_get_string`; `None` when the host gives none.
    pub fn get_string<H: FnOnce(usize, LossyCString) -> Option<Vec<u8>>>(&self, property: &str, host_buffer_get_string: H) -> (r:
        Option<String>)
        requires
            forall|b: usize, p: LossyCString| host_buffer_get_string.requires((b, p)),
        ensures
            exists|p: LossyCString, v: Option<Vec<u8>>|
                #![trigger host_buffer_get_string.ensures((self.host_ptr(), p), v)]
                p@ == host_bytes(property@) && host_buffer_get_string.ensures((self.host_ptr(), p), v) && (r is Some
                    <==> v is Some) && (r is Some ==> r->Some_0@ == host_text(v->Some_0@)),
    {
        let p = LossyCString::new(property);
        let ghost g = p;
        let ghost host = host_buffer_get_string;
        let v = host_buffer_get_string(self.ptr, p);
        let r = match &v {
            Some(b) => Some(from_host(b.as_slice())),
            None => None,
        };
        assert(g@ == host_bytes(property@) && host.ensures((self.host_ptr(), g), v));
        r
    }

    /// The buffer's local variable `name`; see `get_string`, whose property
    /// is `localvar_` followed by the name.
    pub fn get_localvar<H: FnOnce(usize, LossyCString) -> Option<Vec<u8>>>(&self, name: &str, host_buffer_get_string: H) -> (r:
        Option<String>)
        requires
            forall|b: usize, p: LossyCString| host_buffer_get_string.requires((b, p)),
        ensures
            exists|p: LossyCString, v: Option<Vec<u8>>|
                #![trigger host_buffer_get_string.ensures((self.host_ptr(), p), v)]
                p@ == host_bytes("localvar_"@ + name@) && host_buffer_get_string.ensures((self.host_ptr(), p), v) && (r is Some
                    <==> v is Some) && (r is Some ==> r->Some_0@ == host_text(v->Some_0@)),
    {
        let mut property = String::from_str("localvar_");
        property.append(name);
        self.get_string(property.as_str(), host_buffer_get_string)
    }

    /// Sets the buffer's local variable `name` to `value`; see `set`, whose
    /// property is `localvar_set_` followed by the name.
    pub fn set_localvar<H: FnOnce(usize, LossyCString, LossyCString)>(&self, name: &str, value: &str, host_buffer_set: H)
        requires
            forall|b: usize, p: LossyCString, v: LossyCString| host_buffer_set.requires((b, p, v)),
        ensures
            exists|p: LossyCString, v: LossyCString|
                #![trigger host_buffer_set.ensures((self.host_ptr(), p, v), ())]
                p@ == host_bytes("localvar_set_"@ + name@) && v@ == host_bytes(value@) && host_buffer_set.ensures(
                    (self.host_ptr(), p, v),
                    (),
                ),
    {
        let mut property = String::from_str("localvar_set_");
        property.append(name);
        self.set(property.as_str(), value, host_buffer_set)
    }
}

impl Weechat {
    /// Searches a buffer by plugin name and buffer name through the host's
    /// entry point `host_buffer_search`; `None` when the host finds none.
    pub fn buffer_search<H: FnOnce(Option<LossyCString>, Option<LossyCString>) -> Option<usize>>(
        &self,
        plugin_name: &str,
        buffer_name: &str,
        host_buffer_search: H,
    ) -> (r: Option<Buffer>)
        requires
            forall|p: Option<LossyCString>, n: Option<LossyCString>| host_buffer_search.requires((p, n)),
        ensures
            exists|p: LossyCString, n: LossyCString, a: Option<usize>|
                #![trigger host_buffer_search.ensures((Some(p), Some(n)), a)]
                p@ == host_bytes(plugin_name@) && n@ == host_bytes(buffer_name@) && host_buffer_search.ensures(
                    (Some(p), Some(n)),
                    a,
                ) && (r is Some <==> a is Some) && (r matches Some(b) ==> b.host_ptr() == a->Some_0 && b.context() == *self),
    {
        let p = LossyCString::new(plugin_name);
        let n = LossyCString::new(buffer_name);
        let ghost gp = p;
        let ghost gn = n;
        let ghost host = host_buffer_search;
        let a = host_buffer_search(Some(p), Some(n));
        let r = match a {
            Some(ptr) => Some(Buffer::from_ptr(*self, ptr)),
            None => None,
        };
        assert(gp@ == host_bytes(plugin_name@) && gn@ == host_bytes(buffer_name@) && host.ensures((Some(gp), Some(gn)), a));
        r
    }

    /// The buffer shown in the current window: the host's search without a
    /// name; `None` when the host finds none.
    pub fn current<H: FnOnce(Option<LossyCString>, Option<LossyCString>) -> Option<usize>>(&self, host_buffer_search: H) -> (r:
        Option<Buffer>)
        requires
            forall|p: Option<LossyCString>, n: Option<LossyCString>| host_buffer_search.requires((p, n)),
        ensures
            exists|a: Option<usize>|
                #![trigger host_buffer_search.ensures((None::<LossyCString>, None::<LossyCString>), a)]
                host_buffer_search.ensures((None::<LossyCString>, None::<LossyCString>), a) && (r is Some <==> a is Some) && (r matches Some(b)
                    ==> b.host_ptr() == a->Some_0 && b.context() == *self),
    {
        let ghost host = host_buffer_search;
        let a = host_buffer_search(None, None);
        let r = match a {
            Some(ptr) => Some(Buffer::from_ptr(*self, ptr)),
            None => None,
        };
        assert(host.ensures((None::<LossyCString>, None::<LossyCString>), a));
        r
    }
}

impl Buffer {
    /// The buffer's full name; see `get_string`.
    pub fn get_full_name<H: FnOnce(usize, LossyCString) -> Option<Vec<u8>>>(&self, host_buffer_get_string: H) -> (r: Option<String>)
        requires
            forall|b: usize, p: LossyCString| host_buffer_get_string.requires((b, p)),
        ensures
            exists|p: LossyCString, v: Option<Vec<u8>>|
                #![trigger host_buffer_get_string.ensures((self.host_ptr(), p), v)]
                p@ == host_bytes("full_name"@) && host_buffer_get_string.ensures((self.host_ptr(), p), v) && (r is Some
                    <==> v is Some) && (r is Some ==> r->Some_0@ == host_text(v->Some_0@)),
    {
        self.get_string("full_name", host_buffer_get_string)
    }

    /// Sets the buffer's full name; see `set`.
    pub fn set_full_name<H: FnOnce(usize, LossyCString, LossyCString)>(&self, name: &str, host_buffer_set: H)
        requires
            forall|b: usize, p: LossyCString, v: LossyCString| host_buffer_set.requires((b, p, v)),
        ensures
            exists|p: LossyCString, v: LossyCString|
                #![trigger host_buffer_set.ensures((self.host_ptr(), p, v), ())]
                p@ == host_bytes("full_name"@) && v@ == host_bytes(name@) && host_buffer_set.ensures((self.host_ptr(), p, v), ()),
    {
        self.set("full_name", name, host_buffer_set)
    }

    /// The buffer's name; see `get_string`.
    pub fn get_name<H: FnOnce(usize, LossyCString) -> Option<Vec<u8>>>(&self, host_buffer_get_string: H) -> (r: Option<String>)
        requires
            forall|b: usize, p: LossyCString| host_buffer_get_string.requires((b, p)),
        ensures
            exists|p: LossyCString, v: Option<Vec<u8>>|
                #![trigger host_buffer_get_string.ensures((self.host_ptr(), p), v)]
                p@ == host_bytes("name"@) && host_buffer_get_string.ensures((self.host_ptr(), p), v) && (r is Some
                    <==> v is Some) && (r is Some ==> r->Some_0@ == host_text(v->Some_0@)),
    {
        self.get_string("name", host_buffer_get_string)
    }

    /// Sets the buffer's name; see `set`.
    pub fn set_name<H: FnOnce(usize, LossyCString, LossyCString)>(&self, name: &str, host_buffer_set: H)
        requires
            forall|b: usize, p: LossyCString, v: LossyCString| host_buffer_set.requires((b, p, v)),
        ensures
            exists|p: LossyCString, v: LossyCString|
                #![trigger host_buffer_set.ensures((self.host_ptr(), p, v), ())]
                p@ == host_bytes("name"@) && v@ == host_bytes(name@) && host_buffer_set.ensures((self.host_ptr(), p, v), ()),
    {
        self.set("name", name, host_buffer_set)
    }

    /// The buffer's short name; see `get_string`.
    pub fn get_short_name<H: FnOnce(usize, LossyCString) -> Option<Vec<u8>>>(&self, host_buffer_get_string: H) -> (r: Option<String>)
        requires
            forall|b: usize, p: LossyCString| host_buffer_get_string.requires((b, p)),
        ensures
            exists|p: LossyCString, v: Option<Vec<u8>>|
                #![trigger host_buffer_get_string.ensures((self.host_ptr(), p), v)]
                p@ == host_bytes("short_name"@) && host_buffer_get_string.ensures((self.host_ptr(), p), v) && (r is Some
                    <==> v is Some) && (r is Some ==> r->Some_0@ == host_text(v->Some_0@)),
    {
        self.get_string("short_name", host_buffer_get_string)
    }

    /// Sets the buffer's short name; see `set`.
    pub fn set_short_name<H: FnOnce(usize, LossyCString, LossyCString)>(&self, name: &str, host_buffer_set: H)
        requires
            forall|b: usize, p: LossyCString, v: LossyCString| host_buffer_set.requires((b, p, v)),
        ensures
            exists|p: LossyCString, v: LossyCString|
                #![trigger host_buffer_set.ensures((self.host_ptr(), p, v), ())]
                p@ == host_bytes("short_name"@) && v@ == host_bytes(name@) && host_buffer_set.ensures((self.host_ptr(), p, v), ()),
    {
        self.set("short_name", name, host_buffer_set)
    }

    /// The name of the plugin that owns the buffer; see `get_string`.
    pub fn plugin_name<H: FnOnce(usize, LossyCString) -> Option<Vec<u8>>>(&self, host_buffer_get_string: H) -> (r: Option<String>)
        requires
            forall|b: usize, p: LossyCString| host_buffer_get_string.requires((b, p)),
        ensures
            exists|p: LossyCString, v: Option<Vec<u8>>|
                #![trigger host_buffer_get_string.ensures((self.host_ptr(), p), v)]
                p@ == host_bytes("plugin"@) && host_buffer_get_string.ensures((self.host_ptr(), p), v) && (r is Some
                    <==> v is Some) && (r is Some ==> r->Some_0@ == host_text(v->Some_0@)),
    {
        self.get_string("plugin", host_buffer_get_string)
    }

    /// Sets the buffer's title; see `set`.
    pub fn set_title<H: FnOnce(usize, LossyCString, LossyCString)>(&self, title: &str, host_buffer_set: H)
        requires
            forall|b: usize, p: LossyCString, v: LossyCString| host_buffer_set.requires((b, p, v)),
        ensures
            exists|p: LossyCString, v: LossyCString|
                #![trigger host_buffer_set.ensures((self.host_ptr(), p, v), ())]
                p@ == host_bytes("title"@) && v@ == host_bytes(title@) && host_buffer_set.ensures((self.host_ptr(), p, v), ()),
    {
        self.set("title", title, host_buffer_set)
    }

    /// Hides the time of every line of the buffer; see `set`.
    pub fn disable_time_for_each_line<H: FnOnce(usize, LossyCString, LossyCString)>(&self, host_buffer_set: H)
        requires
            forall|b: usize, p: LossyCString, v: LossyCString| host_buffer_set.requires((b, p, v)),
        ensures
            exists|p: LossyCString, v: LossyCString|
                #![trigger host_buffer_set.ensures((self.host_ptr(), p, v), ())]
                p@ == host_bytes("time_for_each_line"@) && v@ == host_bytes("0"@) && host_buffer_set.ensures((self.host_ptr(), p, v), ()),
    {
        self.set("time_for_each_line", "0", host_buffer_set)
    }

    /// Hides the buffer's nicklist; see `set`.
    pub fn disable_nicklist<H: FnOnce(usize, LossyCString, LossyCString)>(&self, host_buffer_set: H)
        requires
            forall|b: usize, p: LossyCString, v: LossyCString| host_buffer_set.requires((b, p, v)),
        ensures
            exists|p: LossyCString, v: LossyCString|
                #![trigger host_buffer_set.ensures((self.host_ptr(), p, v), ())]
                p@ == host_bytes("nicklist"@) && v@ == host_bytes("0"@) && host_buffer_set.ensures((self.host_ptr(), p, v), ()),
    {
        self.set("nicklist", "0", host_buffer_set)
    }

    /// Turns logging off for the buffer; see `set`.
    pub fn disable_log<H: FnOnce(usize, LossyCString, LossyCString)>(&self, host_buffer_set: H)
        requires
            forall|b: usize, p: LossyCString, v: LossyCString| host_buffer_set.requires((b, p, v)),
        ensures
            exists|p: LossyCString, v: LossyCString|
                #![trigger host_buffer_set.ensures((self.host_ptr(), p, v), ())]
                p@ == host_bytes("localvar_set_no_log"@) && v@ == host_bytes("1"@) && host_buffer_set.ensures((self.host_ptr(), p, v), ()),
    {
        self.set("localvar_set_no_log", "1", host_buffer_set)
    }
}

impl Buffer {
    /// Prints `message` in the buffer through the host's entry point
    /// `host_printf`.
    pub fn print<H: FnOnce(PrintRequest)>(&self, message: &str, host_printf: H)
        requires
            forall|q: PrintRequest| host_printf.requires((q,)),
        ensures
            exists|q: PrintRequest|
                #![trigger host_printf.ensures((q,), ())]
                prints(q, self.host_ptr(), message@) && host_printf.ensures((q,), ()),
    {
        print_to(self.ptr, message, host_printf)
    }
}

} // verus!
