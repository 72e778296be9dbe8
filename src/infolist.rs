//! Info lists: host-built lists of items, read through a cursor.
use vstd::prelude::*;
use crate::buffer::Buffer;
use crate::strings::{from_host, host_bytes, host_text, LossyCString};
use crate::weechat::Weechat;

verus! {

/// A host info list, read through a cursor that moves over its items. It is
/// freed once, by `free`.
pub struct Infolist {
    ptr: usize,
    weechat: Weechat,
}

/// The host's info list request.
pub struct InfolistRequest {
    pub name: LossyCString,
    pub arguments: LossyCString,
}

impl Infolist {
    /// The host's address of the list.
    pub closed spec fn host_ptr(&self) -> usize {
        self.ptr
    }

    /// The context handle the list was obtained through.
    pub closed spec fn context(&self) -> Weechat {
        self.weechat
    }

    /// Moves the cursor to the next item, through the host's entry point
    /// `host_infolist_next`; returns whether there is one (the host answers 1).
    pub fn next<H: FnOnce(usize) -> i32>(&self, host_infolist_next: H) -> (r: bool)
        requires
            forall|p: usize| host_infolist_next.requires((p,)),
        ensures
            exists|v: i32| host_infolist_next.ensures((self.host_ptr(),), v) && r == (v == 1),
    {
        let ghost host = host_infolist_next;
        let v = host_infolist_next(self.ptr);
        assert(host.ensures((self.host_ptr(),), v));
        v == 1
    }

    /// Moves the cursor to the previous item, through the host's entry point
    /// `host_infolist_prev`; returns whether there is one (the host answers 1).
    pub fn prev<H: FnOnce(usize) -> i32>(&self, host_infolist_prev: H) -> (r: bool)
        requires
            forall|p: usize| host_infolist_prev.requires((p,)),
        ensures
            exists|v: i32| host_infolist_prev.ensures((self.host_ptr(),), v) && r == (v == 1),
    {
        let ghost host = host_infolist_prev;
        let v = host_infolist_prev(self.ptr);
        assert(host.ensures((self.host_ptr(),), v));
        v == 1
    }

    /// The fields of the current item, as the host lists them (for example
    /// "i:my_integer,s:my_string"), read through `host_infolist_fields`;
    /// `None` when the host gives none.
    pub fn fields<H: FnOnce(usize) -> Option<Vec<u8>>>(&self, host_infolist_fields: H) -> (r: Option<String>)
        requires
            forall|p: usize| host_infolist_fields.requires((p,)),
        ensures
            exists|b: Option<Vec<u8>>|
                #[trigger] host_infolist_fields.ensures((self.host_ptr(),), b) && (r is Some <==> b is Some) && (r is Some
                    ==> r->Some_0@ == host_text(b->Some_0@)),
    {
        let ghost host = host_infolist_fields;
        let b = host_infolist_fields(self.ptr);
        let r = match &b {
            Some(v) => Some(from_host(v.as_slice())),
            None => None,
        };
        assert(host.ensures((self.host_ptr(),), b) && (r is Some <==> b is Some) && (r is Some ==> r->Some_0@ == host_text(
            b->Some_0@)));
        r
    }

    /// The address held by the variable `name` of the current item, read
    /// through `host_infolist_pointer` (0 when there is none).
    pub fn get_pointer<H: FnOnce(usize, LossyCString) -> usize>(&self, name: &str, host_infolist_pointer: H) -> (r: usize)
        requires
            forall|p: usize, n: LossyCString| host_infolist_pointer.requires((p, n)),
        ensures
            exists|n: LossyCString| n@ == host_bytes(name@) && host_infolist_pointer.ensures((self.host_ptr(), n), r),
    {
        let n = LossyCString::new(name);
        let ghost g = n;
        let r = host_infolist_pointer(self.ptr, n);
        assert(g@ == host_bytes(name@));
        r
    }

    /// The buffer of the current item, or `None` when it has none (a null
    /// address in its variable "buffer").
    pub fn get_buffer<H: FnOnce(usize, LossyCString) -> usize>(&self, host_infolist_pointer: H) -> (r: Option<Buffer>)
        requires
            forall|p: usize, n: LossyCString| host_infolist_pointer.requires((p, n)),
        ensures
            exists|n: LossyCString, a: usize|
                n@ == host_bytes("buffer"@) && host_infolist_pointer.ensures((self.host_ptr(), n), a) && (a == 0
                    <==> r is None) && (r matches Some(b) ==> b.host_ptr() == a && b.context() == self.context()),
    {
        let a = self.get_pointer("buffer", host_infolist_pointer);
        if a == 0 {
            None
        } else {
            Some(Buffer::from_ptr(self.weechat, a))
        }
    }

    /// The value of the string variable `name` of the current item, read
    /// through `host_infolist_string`; `None` when the host gives none.
    pub fn get_string<H: FnOnce(usize, LossyCString) -> Option<Vec<u8>>>(&self, name: &str, host_infolist_string: H) -> (r:
        Option<String>)
        requires
            forall|p: usize, n: LossyCString| host_infolist_string.requires((p, n)),
        ensures
            exists|n: LossyCString, b: Option<Vec<u8>>|
                n@ == host_bytes(name@) && host_infolist_string.ensures((self.host_ptr(), n), b) && (r is Some <==> b is Some)
                    && (r is Some ==> r->Some_0@ == host_text(b->Some_0@)),
    {
        let n = LossyCString::new(name);
        let ghost g = n;
        let ghost host = host_infolist_string;
        let b = host_infolist_string(self.ptr, n);
        let r = match &b {
            Some(v) => Some(from_host(v.as_slice())),
            None => None,
        };
        assert(g@ == host_bytes(name@) && host.ensures((self.host_ptr(), g), b));
        r
    }

    /// Runs `body` on the list, then frees it as `free` does, whatever `body`
    /// returned; returns what `body` returned.
    pub fn scoped<T, F, H>(self, host_infolist_free: H, body: F) -> (r: T)
        where
            F: FnOnce(&Infolist) -> T,
            H: FnOnce(usize),
        requires
            host_infolist_free.requires((self.host_ptr(),)),
            forall|l: &Infolist| #[trigger] body.requires((l,)),
        ensures
            body.ensures((&self,), r),
            host_infolist_free.ensures((self.host_ptr(),), ()),
    {
        let out = body(&self);
        self.free(host_infolist_free);
        out
    }

    /// Frees the list through the host's entry point `host_infolist_free`,
    /// called once with the list's address.
    pub fn free<H: FnOnce(usize)>(self, host_infolist_free: H)
        requires
            host_infolist_free.requires((self.host_ptr(),)),
        ensures
            host_infolist_free.ensures((self.host_ptr(),), ()),
    {
        host_infolist_free(self.ptr)
    }
}

impl Weechat {
    /// Asks the host, through `host_infolist_get`, for the info list `name`
    /// with `arguments`; `None` when the host has none (a null answer).
    pub fn infolist_get<H: FnOnce(InfolistRequest) -> Option<usize>>(
        &self,
        name: &str,
        arguments: &str,
        host_infolist_get: H,
    ) -> (r: Option<Infolist>)
        requires
            forall|q: InfolistRequest| host_infolist_get.requires((q,)),
        ensures
            exists|q: InfolistRequest, a: Option<usize>|
                q.name@ == host_bytes(name@) && q.arguments@ == host_bytes(arguments@) && host_infolist_get.ensures((q,), a)
                    && (r is Some <==> a is Some) && (r matches Some(l) ==> l.host_ptr() == a->Some_0),
    {
        let q = InfolistRequest { name: LossyCString::new(name), arguments: LossyCString::new(arguments) };
        let ghost g = q;
        let ghost host = host_infolist_get;
        let a = host_infolist_get(q);
        let r = match a {
            Some(p) => Some(Infolist { ptr: p, weechat: *self }),
            None => None,
        };
        assert(g.name@ == host_bytes(name@) && g.arguments@ == host_bytes(arguments@) && host.ensures((g,), a));
        r
    }
}

} // verus!
