//! Ownership transfer of callback records to the host.
//!
//! A record handed to the host is stored here and the host receives a token
//! in its place. Each token goes through three states: live (the host may
//! dispatch events to it), lent (an event is being dispatched and the record
//! is borrowed by the dispatch adapter) and released (the record has been
//! reclaimed and dropped). A released token never becomes live again, so a
//! record is reclaimed at most once and never used after its release.
use vstd::prelude::*;
use crate::weechat::Weechat;

verus! {

/// Why a registration could not be completed.
#[derive(Clone, Copy, Debug, PartialEq, Eq, Structural)]
pub enum RegistrationError {
    /// The host's registration entry point reported failure (returned null).
    HostRefused,
}

/// Holds the callback records whose ownership was handed to the host.
pub struct Registry<R> {
    slots: Vec<Option<R>>,
    lent: Ghost<Set<int>>,
    released: Ghost<Set<int>>,
}

/// Tokens are numbered from 1, so that none of them reads as a null pointer.
pub open spec fn token_range(issued: nat, t: int) -> bool {
    1 <= t <= issued
}

impl<R> Registry<R> {
    /// Number of tokens issued so far; the tokens are `1..=issued()`.
    pub closed spec fn issued(&self) -> nat {
        self.slots@.len()
    }

    /// The records the host currently holds, by token.
    pub closed spec fn live(&self) -> Map<int, R> {
        Map::new(
            |t: int| 1 <= t <= self.slots@.len() && self.slots@[t - 1] is Some,
            |t: int| self.slots@[t - 1]->Some_0,
        )
    }

    /// Tokens whose record is borrowed by a dispatch in progress.
    pub closed spec fn lent(&self) -> Set<int> {
        self.lent@
    }

    /// Tokens whose record has been reclaimed.
    pub closed spec fn released(&self) -> Set<int> {
        self.released@
    }

    /// Every issued token is in exactly one state: live, lent or released.
    pub closed spec fn wf(&self) -> bool {
        &&& forall|t: int| #[trigger] self.lent@.contains(t) ==> token_range(self.slots@.len(), t)
        &&& forall|t: int| #[trigger] self.released@.contains(t) ==> token_range(self.slots@.len(), t)
        &&& forall|t: int| #[trigger] self.lent@.contains(t) ==> !self.released@.contains(t)
        &&& forall|i: int|
            0 <= i < self.slots@.len() ==> (#[trigger] self.slots@[i] is None <==> (
            self.lent@.contains(i + 1) || self.released@.contains(i + 1)))
    }

    /// The same registry state as `other`, token for token.
    pub open spec fn same_state(&self, other: &Registry<R>) -> bool {
        &&& self.issued() == other.issued()
        &&& self.live() == other.live()
        &&& self.lent() == other.lent()
        &&& self.released() == other.released()
    }

    proof fn lemma_states(&self, t: int)
        requires
            self.wf(),
            token_range(self.issued(), t),
        ensures
            self.live().contains_key(t) <==> (!self.lent().contains(t) && !self.released().contains(t)),
            self.live().contains_key(t) ==> self.live()[t] == self.slots@[t - 1]->Some_0,
    {
        assert(self.slots@[t - 1] is None <==> (self.lent@.contains(t) || self.released@.contains(t)));
    }

    /// Every token the registry knows is issued, and the other way round.
    pub proof fn lemma_wf(&self)
        requires
            self.wf(),
        ensures
            forall|t: int| #[trigger] self.live().contains_key(t) ==> token_range(self.issued(), t),
            forall|t: int| #[trigger] self.lent().contains(t) ==> token_range(self.issued(), t),
            forall|t: int| #[trigger] self.released().contains(t) ==> token_range(self.issued(), t),
            forall|t: int|
                token_range(self.issued(), t) ==> (#[trigger] self.live().contains_key(t) <==> (
                !self.lent().contains(t) && !self.released().contains(t))),
            forall|t: int| #[trigger] self.lent().contains(t) ==> !self.released().contains(t),
    {
        assert forall|t: int|
            token_range(self.issued(), t) implies (#[trigger] self.live().contains_key(t) <==> (
            !self.lent().contains(t) && !self.released().contains(t))) by {
            self.lemma_states(t);
        }
    }

    /// An empty registry.
    pub fn new() -> (r: Registry<R>)
        ensures
            r.wf(),
            r.issued() == 0,
            r.live() == Map::<int, R>::empty(),
            r.lent() == Set::<int>::empty(),
            r.released() == Set::<int>::empty(),
    {
        let r = Registry { slots: Vec::new(), lent: Ghost(Set::empty()), released: Ghost(Set::empty()) };
        assert(r.live() =~= Map::<int, R>::empty());
        r
    }

    /// The token that the next call of `leak` will hand out.
    pub fn next_token(&self) -> (t: usize)
        requires
            self.issued() < usize::MAX,
        ensures
            t == self.issued() + 1,
    {
        self.slots.len() + 1
    }

    /// Hands `record` over to the host: the record is stored under a fresh
    /// token, which is returned. Nothing drops the record until `reclaim`.
    pub fn leak(&mut self, record: R) -> (t: usize)
        requires
            old(self).wf(),
            old(self).issued() < usize::MAX,
        ensures
            final(self).wf(),
            t == old(self).issued() + 1,
            final(self).issued() == t,
            final(self).live() == old(self).live().insert(t as int, record),
            final(self).lent() == old(self).lent(),
            final(self).released() == old(self).released(),
    {
        proof { self.lemma_wf(); }
        self.slots.push(Some(record));
        let t = self.slots.len();
        assert(final(self).live() =~= old(self).live().insert(t as int, record));
        assert forall|i: int| 0 <= i < self.slots@.len() implies (#[trigger] self.slots@[i] is None <==> (
            self.lent@.contains(i + 1) || self.released@.contains(i + 1))) by {
            if i < t - 1 {
                assert(old(self).slots@[i] == self.slots@[i]);
            }
        }
        t
    }

    /// Whether `t` names a record that the host still holds.
    pub fn is_live(&self, t: usize) -> (r: bool)
        requires
            self.wf(),
        ensures
            r == self.live().contains_key(t as int),
    {
        if t == 0 || t > self.slots.len() {
            false
        } else {
            match &self.slots[t - 1] {
                Some(_) => true,
                None => false,
            }
        }
    }

    /// A shared view of the record under `t`, if it is live.
    pub fn get(&self, t: usize) -> (r: Option<&R>)
        requires
            self.wf(),
        ensures
            r is Some <==> self.live().contains_key(t as int),
            r is Some ==> *r->Some_0 == self.live()[t as int],
    {
        if t == 0 || t > self.slots.len() {
            None
        } else {
            self.slots[t - 1].as_ref()
        }
    }

    /// Takes back ownership of the record under `t`, so that it can be
    /// dropped. This is the only way a record leaves the registry for good;
    /// once done, the token stays released and a second call finds nothing.
    pub fn reclaim(&mut self, t: usize) -> (r: Option<R>)
        requires
            old(self).wf(),
        ensures
            final(self).wf(),
            r is Some <==> old(self).live().contains_key(t as int),
            r is Some ==> r->Some_0 == old(self).live()[t as int],
            final(self).issued() == old(self).issued(),
            final(self).live() == old(self).live().remove(t as int),
            final(self).lent() == old(self).lent(),
            final(self).released() == (if old(self).live().contains_key(t as int) {
                old(self).released().insert(t as int)
            } else {
                old(self).released()
            }),
    {
        if t == 0 || t > self.slots.len() {
            assert(final(self).live() =~= old(self).live().remove(t as int));
            return None;
        }
        proof { self.lemma_states(t as int); }
        let r = self.slots[t - 1].take();
        if r.is_some() {
            self.released = Ghost(self.released@.insert(t as int));
        }
        assert(final(self).live() =~= old(self).live().remove(t as int));
        assert forall|i: int| 0 <= i < self.slots@.len() implies (#[trigger] self.slots@[i] is None <==> (
            self.lent@.contains(i + 1) || self.released@.contains(i + 1))) by {
            if i != t - 1 {
                assert(old(self).slots@[i] == self.slots@[i]);
            }
        }
        r
    }

    /// Borrows the record under `t` for the duration of one dispatch. The
    /// token is lent until `give_back`; it cannot be reclaimed meanwhile.
    pub fn lend(&mut self, t: usize) -> (r: Option<R>)
        requires
            old(self).wf(),
        ensures
            final(self).wf(),
            r is Some <==> old(self).live().contains_key(t as int),
            r is Some ==> r->Some_0 == old(self).live()[t as int],
            final(self).issued() == old(self).issued(),
            final(self).live() == old(self).live().remove(t as int),
            final(self).lent() == (if old(self).live().contains_key(t as int) {
                old(self).lent().insert(t as int)
            } else {
                old(self).lent()
            }),
            final(self).released() == old(self).released(),
    {
        if t == 0 || t > self.slots.len() {
            assert(final(self).live() =~= old(self).live().remove(t as int));
            return None;
        }
        proof { self.lemma_states(t as int); }
        let r = self.slots[t - 1].take();
        if r.is_some() {
            self.lent = Ghost(self.lent@.insert(t as int));
        }
        assert(final(self).live() =~= old(self).live().remove(t as int));
        assert forall|i: int| 0 <= i < self.slots@.len() implies (#[trigger] self.slots@[i] is None <==> (
            self.lent@.contains(i + 1) || self.released@.contains(i + 1))) by {
            if i != t - 1 {
                assert(old(self).slots@[i] == self.slots@[i]);
            }
        }
        r
    }

    /// Ends the dispatch that borrowed the record under `t`: the record is
    /// live again, under the same token.
    pub fn give_back(&mut self, t: usize, record: R)
        requires
            old(self).wf(),
            old(self).lent().contains(t as int),
        ensures
            final(self).wf(),
            final(self).issued() == old(self).issued(),
            final(self).live() == old(self).live().insert(t as int, record),
            final(self).lent() == old(self).lent().remove(t as int),
            final(self).released() == old(self).released(),
    {
        proof { self.lemma_wf(); }
        self.slots.set(t - 1, Some(record));
        self.lent = Ghost(self.lent@.remove(t as int));
        assert(final(self).live() =~= old(self).live().insert(t as int, record));
        assert forall|i: int| 0 <= i < self.slots@.len() implies (#[trigger] self.slots@[i] is None <==> (
            self.lent@.contains(i + 1) || self.released@.contains(i + 1))) by {
            if i != t - 1 {
                assert(old(self).slots@[i] == self.slots@[i]);
            }
        }
    }
}

/// What a registration leaves behind once the host answered `answer` to the
/// request made for `record`: the record got the next token; it stays with
/// the host if the host accepted, and is already reclaimed if it refused.
pub open spec fn registration_outcome<R>(
    before: Registry<R>,
    after: Registry<R>,
    record: R,
    answer: Option<usize>,
    r: Result<usize, RegistrationError>,
) -> bool {
    let t = before.issued() as int + 1;
    &&& after.issued() == t
    &&& after.lent() == before.lent()
    &&& match answer {
        Some(p) => {
            &&& r == Ok::<usize, RegistrationError>(p)
            &&& after.live() == before.live().insert(t, record)
            &&& after.released() == before.released()
        },
        None => {
            &&& r == Err::<usize, RegistrationError>(RegistrationError::HostRefused)
            &&& after.live() == before.live()
            &&& after.released() == before.released().insert(t)
        },
    }
}

/// What a dispatch to the record under `t` leaves behind: the same tokens in
/// the same states; only the record under `t` may have changed.
pub open spec fn dispatch_outcome<R>(before: Registry<R>, after: Registry<R>, t: int) -> bool {
    &&& after.issued() == before.issued()
    &&& after.lent() == before.lent()
    &&& after.released() == before.released()
    &&& after.live().dom() == before.live().dom()
    &&& forall|k: int| #[trigger] before.live().contains_key(k) && k != t ==> after.live()[k] == before.live()[k]
}

/// What a release of the record under `t` leaves behind.
pub open spec fn release_outcome<R>(before: Registry<R>, after: Registry<R>, t: int) -> bool {
    &&& after.issued() == before.issued()
    &&& after.lent() == before.lent()
    &&& after.live() == before.live().remove(t)
    &&& after.released() == (if before.live().contains_key(t) {
        before.released().insert(t)
    } else {
        before.released()
    })
}

/// A record is released at most once: once its token is released it is
/// neither live nor lent, so a later release finds nothing to drop and a
/// later dispatch finds no record to call.
pub proof fn lemma_release_at_most_once<R>(reg: &Registry<R>, t: int)
    requires
        reg.wf(),
        reg.released().contains(t),
    ensures
        !reg.live().contains_key(t),
        !reg.lent().contains(t),
{
    reg.lemma_wf();
}

/// Tearing a registration down happens once: the first teardown of a live
/// record releases it, and a second teardown, or a release by the host, then
/// finds nothing and changes nothing (so `Hook::unhook` calls the host once).
pub proof fn lemma_teardown_exactly_once<R>(before: Registry<R>, mid: Registry<R>, after: Registry<R>, t: int)
    requires
        before.live().contains_key(t),
        release_outcome(before, mid, t),
        release_outcome(mid, after, t),
    ensures
        !mid.live().contains_key(t),
        mid.released() == before.released().insert(t),
        after.live() == mid.live(),
        after.released() == mid.released(),
{
    assert(after.live() =~= mid.live());
}

/// A registration refused by the host leaves no record behind: the record it
/// allocated is already released, and the host holds exactly what it held
/// before.
pub proof fn lemma_refused_registration_reclaims<R>(
    before: Registry<R>,
    after: Registry<R>,
    record: R,
    r: Result<usize, RegistrationError>,
)
    requires
        registration_outcome(before, after, record, None, r),
    ensures
        r is Err,
        after.live() == before.live(),
        !after.live().contains_key(before.issued() as int + 1),
        after.released().contains(before.issued() as int + 1),
{
}

/// Dispatch and release exclude each other in time: every operation keeps
/// the released tokens released, so once a record is released no later
/// state holds it, and every dispatch adapter answers -1 to its token without
/// running a callback.
pub proof fn lemma_no_dispatch_after_release<R>(released_in: Registry<R>, later: Registry<R>, t: int)
    requires
        later.wf(),
        released_in.released().contains(t),
        released_in.released().subset_of(later.released()),
    ensures
        !later.live().contains_key(t),
        !later.lent().contains(t),
{
    later.lemma_wf();
}

impl<R> Registry<R> {
    /// Finishes a registration whose record was leaked under `t` and whose
    /// host call answered `answer`: a null answer (`None`) means the host
    /// refused, and the record is reclaimed and dropped before returning.
    pub fn complete_registration(&mut self, t: usize, answer: Option<usize>) -> (r: Result<usize, RegistrationError>)
        requires
            old(self).wf(),
            old(self).live().contains_key(t as int),
        ensures
            final(self).wf(),
            final(self).issued() == old(self).issued(),
            final(self).lent() == old(self).lent(),
            answer is Some ==> r == Ok::<usize, RegistrationError>(answer->Some_0) && final(self).live() == old(self).live()
                && final(self).released() == old(self).released(),
            answer is None ==> r == Err::<usize, RegistrationError>(RegistrationError::HostRefused)
                && final(self).live() == old(self).live().remove(t as int)
                && final(self).released() == old(self).released().insert(t as int),
    {
        match answer {
            Some(p) => Ok(p),
            None => {
                let _dropped = self.reclaim(t);
                Err(RegistrationError::HostRefused)
            },
        }
    }

    /// Leaks `record` and asks the host to register `request` through
    /// `host_call`, which gets the record's token as its opaque context; then
    /// completes the registration with the host's answer. Returns the token
    /// and the host's handle, or the refusal.
    pub fn register<Q, F>(&mut self, record: R, request: Q, host_call: F) -> (r: (usize, Result<usize, RegistrationError>))
        where
            F: FnOnce(Q, usize) -> Option<usize>,
        requires
            old(self).wf(),
            old(self).issued() < usize::MAX,
            host_call.requires((request, (old(self).issued() + 1) as usize)),
        ensures
            final(self).wf(),
            r.0 == old(self).issued() + 1,
            exists|answer: Option<usize>|
                host_call.ensures((request, r.0), answer) && registration_outcome(*old(self), *final(self), record, answer, r.1),
    {
        let ghost before = *self;
        let ghost rec = record;
        let ghost req = request;
        proof { before.lemma_wf(); }
        let t = self.leak(record);
        let answer = host_call(request, t);
        let r = self.complete_registration(t, answer);
        assert(answer is None ==> self.live() =~= before.live());
        assert(registration_outcome(before, *self, rec, answer, r));
        let out = (t, r);
        assert(host_call.ensures((req, out.0), answer) && registration_outcome(before, *self, rec, answer, out.1));
        out
    }
}

/// The host handle that a registration produced.
pub open spec fn hook_result(r: Result<Hook, RegistrationError>) -> Result<usize, RegistrationError> {
    match r {
        Ok(h) => Ok(h.host_ptr()),
        Err(e) => Err(e),
    }
}

/// Release adapter of a hook record, called by the host when it ends the
/// registration itself (a timer after its last call): the record under
/// `token` is reclaimed and dropped, and the host gets 0. A token without a
/// live record gets -1 and nothing is dropped twice.
pub fn release_record<R>(records: &mut Registry<R>, token: usize) -> (r: i32)
    requires
        old(records).wf(),
    ensures
        final(records).wf(),
        release_outcome(*old(records), *final(records), token as int),
        r == (if old(records).live().contains_key(token as int) { 0i32 } else { -1i32 }),
{
    match records.reclaim(token) {
        Some(_record) => 0,
        None => -1,
    }
}

/// A live registration with the host: the host's handle and the token of the
/// callback record. Tearing it down unregisters it with the host once.
pub struct Hook {
    ptr: usize,
    token: usize,
    weechat: Weechat,
}

impl Hook {
    /// The host's handle of the registration.
    pub closed spec fn host_ptr(&self) -> usize {
        self.ptr
    }

    /// The token under which the callback record was handed to the host.
    pub closed spec fn record_token(&self) -> usize {
        self.token
    }

    /// The context handle the registration was made with.
    pub closed spec fn context(&self) -> Weechat {
        self.weechat
    }

    /// Pairs the host's handle with the record's token.
    pub fn new(weechat: Weechat, ptr: usize, token: usize) -> (r: Hook)
        ensures
            r.host_ptr() == ptr,
            r.record_token() == token,
            r.context() == weechat,
    {
        Hook { ptr, token, weechat }
    }

    /// Registers `record` with the host through `host_call` (see
    /// `Registry::register`) and, if the host accepts, returns the handle
    /// pairing the host's answer with the record's token.
    pub fn register<R, Q, F>(weechat: Weechat, records: &mut Registry<R>, record: R, request: Q, host_call: F) -> (r: Result<Hook, RegistrationError>)
        where
            F: FnOnce(Q, usize) -> Option<usize>,
        requires
            old(records).wf(),
            old(records).issued() < usize::MAX,
            host_call.requires((request, (old(records).issued() + 1) as usize)),
        ensures
            final(records).wf(),
            r matches Ok(h) ==> h.record_token() == old(records).issued() + 1 && h.context() == weechat,
            exists|answer: Option<usize>|
                host_call.ensures((request, (old(records).issued() + 1) as usize), answer)
                    && registration_outcome(*old(records), *final(records), record, answer, hook_result(r)),
    {
        let (token, answer) = records.register(record, request, host_call);
        match answer {
            Ok(p) => Ok(Hook { ptr: p, token, weechat }),
            Err(e) => Err(e),
        }
    }

    /// The host's handle of the registration.
    pub fn ptr(&self) -> (r: usize)
        ensures
            r == self.host_ptr(),
    {
        self.ptr
    }

    /// The token of the callback record.
    pub fn token(&self) -> (r: usize)
        ensures
            r == self.record_token(),
    {
        self.token
    }

    /// The context handle the registration was made with.
    pub fn get_weechat(&self) -> (r: Weechat)
        ensures
            r == self.context(),
    {
        self.weechat
    }

    /// Tears the registration down. While its record is live, the host's
    /// unregister entry point `host_unhook` is called exactly once with the
    /// host's handle and the record is reclaimed; if the host already released
    /// the record, nothing is called. Returns whether the host was called.
    pub fn unhook<R, U>(self, records: &mut Registry<R>, host_unhook: U) -> (r: bool)
        where
            U: FnOnce(usize),
        requires
            old(records).wf(),
            host_unhook.requires((self.host_ptr(),)),
        ensures
            final(records).wf(),
            r == old(records).live().contains_key(self.record_token() as int),
            r ==> host_unhook.ensures((self.host_ptr(),), ()),
            release_outcome(*old(records), *final(records), self.record_token() as int),
    {
        if records.is_live(self.token) {
            host_unhook(self.ptr);
            let _dropped = records.reclaim(self.token);
            true
        } else {
            let _none = records.reclaim(self.token);
            false
        }
    }
}

impl Hook {
    /// Runs `body` while the registration is live, then tears it down as
    /// `unhook` does, whatever `body` returned: the scope of the
    /// registration ends with exactly one teardown. `body` holds the registry
    /// meanwhile, so that events can be dispatched, and hands it back.
    /// Returns what `body` returned and whether the host was called.
    pub fn scoped<R, U, T, F>(self, records: &mut Registry<R>, host_unhook: U, body: F) -> (r: (T, bool))
        where
            U: FnOnce(usize),
            F: FnOnce(Registry<R>, &Hook) -> (Registry<R>, T),
        requires
            old(records).wf(),
            host_unhook.requires((self.host_ptr(),)),
            forall|reg: Registry<R>, h: &Hook| reg.wf() ==> #[trigger] body.requires((reg, h)),
            forall|reg: Registry<R>, h: &Hook, out: (Registry<R>, T)| #[trigger] body.ensures((reg, h), out) ==> out.0.wf(),
        ensures
            final(records).wf(),
            !final(records).live().contains_key(self.record_token() as int),
            r.1 ==> host_unhook.ensures((self.host_ptr(),), ()),
            exists|out: (Registry<R>, T)|
                #![trigger body.ensures((*old(records), &self), out)]
                {
                    &&& body.ensures((*old(records), &self), out)
                    &&& r.0 == out.1
                    &&& r.1 == out.0.live().contains_key(self.record_token() as int)
                    &&& release_outcome(out.0, *final(records), self.record_token() as int)
                },
    {
        let mut held = Registry::new();
        core::mem::swap(records, &mut held);
        let ghost given = held;
        let ghost b = body;
        let result = body(held, &self);
        let ghost g = result;
        let (back, out) = result;
        *records = back;
        let ghost host = host_unhook;
        let ghost p = self.host_ptr();
        let ghost me = self;
        let done = self.unhook(records, host_unhook);
        assert(done ==> host.ensures((p,), ()));
        assert(b.ensures((given, &me), g));
        (out, done)
    }
}

} // verus!
