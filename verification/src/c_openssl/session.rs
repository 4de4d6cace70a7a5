//! Resumption of TLS sessions.
//!
//! A context that keeps its sessions reports each new one to
//! [`new_session_cb`], which stores it in the [`SessionCache`] under the context
//! and the host. Before the next handshake with that host,
//! [`try_set_cached_session`] finds it there.
//!
//! A resumed handshake verifies nothing. So a session is only offered by the very
//! context that obtained it, even to the same host. Sessions are found by the
//! address of their context, and an address may be used again once a context is
//! freed. Each entry therefore holds a reference to its context, which keeps it
//! from being freed; and [`SessionCache::forget_context`] gives these references
//! up together with the sessions.
//!
//! Sessions are counted by reference too. The cache owns one reference for each
//! session it holds; whatever it gives up is handed out to be released.

use libc::c_int;
use vstd::prelude::*;
use vstd::set_lib::lemma_set_disjoint_lens;
use vstd::utf8::{
    decode_utf8, decode_utf8_encode_utf8, encode_utf8, encode_utf8_decode_utf8,
    encode_utf8_first_scalar, encode_utf8_valid_utf8, valid_utf8,
};

use crate::c_openssl::ctx::{up_ref_step, SslContext, SslContextRef, Step};

verus! {

/// The selector of `SSL_get_servername` for the host name.
pub const TLSEXT_NAMETYPE_HOST_NAME: c_int = 0;

/// An owned reference to an `SSL_SESSION`, by its address.
pub struct Session {
    ptr: usize,
}

impl Session {
    #[verifier::type_invariant]
    spec fn non_null(self) -> bool {
        self.ptr != 0
    }

    /// The address of the `SSL_SESSION`.
    pub closed spec fn address(self) -> usize {
        self.ptr
    }

    /// Takes over the one reference that comes with `ptr`.
    pub fn from_owned(ptr: usize) -> (r: Self)
        requires
            ptr != 0,
        ensures
            r.address() == ptr,
    {
        Session { ptr }
    }

    /// The address of the `SSL_SESSION`; it is never null.
    pub fn as_ptr(&self) -> (r: usize)
        ensures
            r == self.address(),
            r != 0,
    {
        proof {
            use_type_invariant(self);
        }
        self.ptr
    }

    /// Gives the reference up: `SSL_SESSION_free` is to be called with the
    /// address.
    pub fn drop(self) -> (ptr: usize)
        ensures
            ptr == self.address(),
            ptr != 0,
    {
        self.as_ptr()
    }
}

/// The key of a session: the context that obtained it, and the host.
pub type SessionKey = (usize, Seq<char>);

/// A session in the cache, with the host and an owned reference to the context
/// that obtained it.
pub struct CachedSession {
    context: SslContext,
    host: String,
    session: Session,
}

impl CachedSession {
    /// The key that the session is kept under.
    pub closed spec fn key(self) -> SessionKey {
        (self.context.handle(), self.host@)
    }

    /// The address of the session.
    pub closed spec fn address(self) -> usize {
        self.session.address()
    }

    /// The two references, to be released.
    pub fn into_parts(self) -> (r: (Session, SslContext))
        ensures
            r.0.address() == self.address(),
            r.1.handle() == self.key().0,
    {
        (self.session, self.context)
    }
}

/// Whether `key` is the key of the entry at `i`.
pub open spec fn holds_at(entries: Seq<CachedSession>, key: SessionKey, i: int) -> bool {
    0 <= i < entries.len() && entries[i].key() == key
}

/// Whether no key occurs twice.
pub open spec fn distinct_keys(entries: Seq<CachedSession>) -> bool {
    forall|i: int, j: int|
        0 <= i < j < entries.len() ==> (#[trigger] entries[i]).key() != (
        #[trigger] entries[j]).key()
}

/// The address of the session under each key.
pub open spec fn by_key(entries: Seq<CachedSession>) -> Map<SessionKey, usize> {
    Map::new(
        |key: SessionKey| exists|i: int| holds_at(entries, key, i),
        |key: SessionKey| entries[choose|i: int| holds_at(entries, key, i)].address(),
    )
}

proof fn lemma_by_key_at(entries: Seq<CachedSession>, i: int)
    requires
        distinct_keys(entries),
        0 <= i < entries.len(),
    ensures
        by_key(entries).contains_key(entries[i].key()),
        by_key(entries)[entries[i].key()] == entries[i].address(),
{
    assert(holds_at(entries, entries[i].key(), i));
}

/// Where `after` differs from `before` in the session of one entry alone, or in
/// one more entry under a new key, it holds the sessions of `before` and that of
/// this entry.
proof fn lemma_by_key_extends(
    before: Seq<CachedSession>,
    after: Seq<CachedSession>,
    key: SessionKey,
    at: int,
)
    requires
        distinct_keys(before),
        holds_at(after, key, at),
        before.len() <= after.len() <= before.len() + 1,
        after.len() > before.len() ==> at == before.len() && !by_key(before).contains_key(key),
        forall|i: int| 0 <= i < before.len() ==> (#[trigger] after[i]).key() == before[i].key(),
        forall|i: int|
            0 <= i < before.len() && i != at ==> (#[trigger] after[i]).address()
                == before[i].address(),
    ensures
        distinct_keys(after),
        by_key(after) == by_key(before).insert(key, after[at].address()),
{
    assert forall|i: int, j: int| 0 <= i < j < after.len() implies (#[trigger] after[i]).key() != (
    #[trigger] after[j]).key() by {
        assert(before[i].key() == after[i].key());
        lemma_by_key_at(before, i);
        if j < before.len() {
            assert(before[j].key() == after[j].key());
        }
    }
    let expected = by_key(before).insert(key, after[at].address());
    lemma_by_key_at(after, at);
    assert forall|k: SessionKey| #[trigger]
        by_key(after).dom().contains(k) implies expected.dom().contains(k) && by_key(after)[k]
        == expected[k] by {
        let i = choose|i: int| holds_at(after, k, i);
        lemma_by_key_at(after, i);
        if i != at {
            assert(before[i].key() == after[i].key());
            lemma_by_key_at(before, i);
        }
    }
    assert forall|k: SessionKey| expected.dom().contains(k) implies #[trigger] by_key(
        after,
    ).dom().contains(k) by {
        if k != key {
            let i = choose|i: int| holds_at(before, k, i);
            lemma_by_key_at(after, i);
        }
    }
    assert(by_key(after) =~= expected);
}

/// Without the entry at `at`, its key is gone and all else is as it was.
proof fn lemma_by_key_shrinks(before: Seq<CachedSession>, at: int)
    requires
        distinct_keys(before),
        0 <= at < before.len(),
    ensures
        distinct_keys(before.remove(at)),
        by_key(before.remove(at)) == by_key(before).remove(before[at].key()),
{
    let after = before.remove(at);
    let expected = by_key(before).remove(before[at].key());
    assert forall|i: int, j: int| 0 <= i < j < after.len() implies (#[trigger] after[i]).key() != (
    #[trigger] after[j]).key() by {
        assert(after[i] == before[if i < at { i } else { i + 1 }]);
        assert(after[j] == before[if j < at { j } else { j + 1 }]);
    }
    assert forall|k: SessionKey| #[trigger]
        by_key(after).dom().contains(k) implies expected.dom().contains(k) && by_key(after)[k]
        == expected[k] by {
        let i = choose|i: int| holds_at(after, k, i);
        lemma_by_key_at(after, i);
        lemma_by_key_at(
            before,
            if i < at {
                i
            } else {
                i + 1
            },
        );
    }
    assert forall|k: SessionKey| expected.dom().contains(k) implies #[trigger] by_key(
        after,
    ).dom().contains(k) by {
        let i = choose|i: int| holds_at(before, k, i);
        lemma_by_key_at(
            after,
            if i < at {
                i
            } else {
                i - 1
            },
        );
    }
    assert(by_key(after) =~= expected);
}

/// The sessions that are kept for resumption.
pub struct SessionCache {
    entries: Vec<CachedSession>,
}

impl View for SessionCache {
    type V = Map<SessionKey, usize>;

    /// The address of the session under each key.
    closed spec fn view(&self) -> Map<SessionKey, usize> {
        by_key(self.entries@)
    }
}

/// The sessions of a context in a cache.
pub open spec fn sessions_of(cache: Map<SessionKey, usize>, ctx: usize) -> Map<SessionKey, usize> {
    cache.restrict(context_keys(cache, ctx))
}

/// The keys of a context in a cache.
pub open spec fn context_keys(cache: Map<SessionKey, usize>, ctx: usize) -> Set<SessionKey> {
    cache.dom().filter(|key: SessionKey| key.0 == ctx)
}

/// A cache without the sessions of a context.
pub open spec fn forgotten(cache: Map<SessionKey, usize>, ctx: usize) -> Map<SessionKey, usize> {
    cache.remove_keys(context_keys(cache, ctx))
}

impl SessionCache {
    /// No key occurs twice.
    pub closed spec fn wf(&self) -> bool {
        distinct_keys(self.entries@)
    }

    fn position(&self, ctx: usize, host: &String) -> (r: Option<usize>)
        requires
            self.wf(),
        ensures
            match r {
                Some(i) => holds_at(self.entries@, (ctx, host@), i as int),
                None => !self@.contains_key((ctx, host@)),
            },
    {
        let mut i: usize = 0;
        while i < self.entries.len()
            invariant
                i <= self.entries@.len(),
                forall|j: int| 0 <= j < i ==> !holds_at(self.entries@, (ctx, host@), j),
            decreases self.entries@.len() - i,
        {
            let entry = &self.entries[i];
            if entry.context.as_ptr() == ctx && entry.host == *host {
                return Some(i);
            }
            i += 1;
        }
        None
    }

    /// The session under a key.
    fn get(&self, ctx: usize, host: &String) -> (r: Option<&Session>)
        requires
            self.wf(),
        ensures
            match r {
                Some(session) => self@.contains_key((ctx, host@)) && session.address() == self@[(
                    ctx,
                    host@,
                )],
                None => !self@.contains_key((ctx, host@)),
            },
    {
        match self.position(ctx, host) {
            Some(i) => {
                proof {
                    lemma_by_key_at(self.entries@, i as int);
                }
                Some(&self.entries[i].session)
            },
            None => None,
        }
    }

    /// Puts a session under a key, and hands out the one that was there. An entry
    /// under a new key holds a reference to its context; the call that takes it
    /// is handed out too.
    fn insert(&mut self, ctx: usize, host: String, session: Session) -> (r: (
        Option<Session>,
        Option<Step>,
    ))
        requires
            old(self).wf(),
        ensures
            final(self).wf(),
            final(self)@ == old(self)@.insert((ctx, host@), session.address()),
            match r.0 {
                Some(displaced) => old(self)@.contains_key((ctx, host@)) && displaced.address()
                    == old(self)@[(ctx, host@)],
                None => !old(self)@.contains_key((ctx, host@)),
            },
            match r.1 {
                Some(step) => !old(self)@.contains_key((ctx, host@)) && step@ == up_ref_step(ctx),
                None => old(self)@.contains_key((ctx, host@)),
            },
    {
        match self.position(ctx, &host) {
            Some(i) => {
                let mut displaced = session;
                std::mem::swap(&mut displaced, &mut self.entries[i].session);
                proof {
                    lemma_by_key_at(old(self).entries@, i as int);
                    lemma_by_key_extends(
                        old(self).entries@,
                        self.entries@,
                        (ctx, host@),
                        i as int,
                    );
                }
                (Some(displaced), None)
            },
            None => {
                let (step, context) = SslContextRef::from_ptr(ctx).to_owned();
                self.entries.push(CachedSession { context, host, session });
                proof {
                    lemma_by_key_extends(
                        old(self).entries@,
                        self.entries@,
                        (ctx, host@),
                        self.entries@.len() - 1,
                    );
                }
                (None, Some(step))
            },
        }
    }

    /// Takes all sessions of a context out of the cache. This is due when the
    /// last owner of the context lets go of it: until then the references in the
    /// cache keep the context alive, and no other context can come to stand at
    /// its address.
    pub fn forget_context(&mut self, ctx: usize) -> (r: Vec<CachedSession>)
        requires
            old(self).wf(),
        ensures
            final(self).wf(),
            final(self)@ == forgotten(old(self)@, ctx),
            distinct_keys(r@),
            by_key(r@) == sessions_of(old(self)@, ctx),
            r@.len() == context_keys(old(self)@, ctx).len(),
    {
        let mut removed: Vec<CachedSession> = Vec::new();
        let mut i: usize = 0;
        assert(by_key(removed@) =~= Map::<SessionKey, usize>::empty());
        while i < self.entries.len()
            invariant
                i <= self.entries@.len(),
                distinct_keys(self.entries@),
                distinct_keys(removed@),
                forall|j: int| 0 <= j < i ==> (#[trigger] self.entries@[j]).key().0 != ctx,
                forall|k: SessionKey|
                    #![trigger by_key(self.entries@).contains_key(k)]
                    #![trigger old(self)@.contains_key(k)]
                    by_key(self.entries@).contains_key(k) <==> old(self)@.contains_key(k)
                        && !by_key(removed@).contains_key(k),
                forall|k: SessionKey| #[trigger]
                    by_key(self.entries@).contains_key(k) ==> by_key(self.entries@)[k] == old(
                        self,
                    )@[k],
                forall|k: SessionKey| #[trigger]
                    by_key(removed@).contains_key(k) ==> old(self)@.contains_key(k) && k.0 == ctx
                        && by_key(removed@)[k] == old(self)@[k],
            decreases self.entries@.len() - i,
        {
            let ghost before = self.entries@;
            let ghost taken = removed@;
            if self.entries[i].context.as_ptr() == ctx {
                let entry = self.entries.remove(i);
                removed.push(entry);
                proof {
                    lemma_by_key_at(before, i as int);
                    lemma_by_key_shrinks(before, i as int);
                    lemma_by_key_extends(taken, removed@, entry.key(), taken.len() as int);
                }
            } else {
                i += 1;
            }
        }
        proof {
            assert forall|k: SessionKey| by_key(self.entries@).contains_key(k) implies k.0
                != ctx by {
                let j = choose|j: int| holds_at(self.entries@, k, j);
                assert(self.entries@[j].key().0 != ctx);
            }
            assert(by_key(removed@) =~= sessions_of(old(self)@, ctx));
            assert(by_key(self.entries@) =~= forgotten(old(self)@, ctx));
            assert(by_key(removed@).dom() =~= context_keys(old(self)@, ctx));
            lemma_by_key_len(removed@);
        }
        removed
    }
}

/// Entries with distinct keys are as many as their keys.
proof fn lemma_by_key_len(entries: Seq<CachedSession>)
    requires
        distinct_keys(entries),
    ensures
        by_key(entries).dom().finite(),
        by_key(entries).dom().len() == entries.len(),
    decreases entries.len(),
{
    if entries.len() == 0 {
        assert(by_key(entries).dom() =~= Set::<SessionKey>::empty());
    } else {
        let last = entries.len() - 1;
        lemma_by_key_at(entries, last);
        lemma_by_key_shrinks(entries, last);
        lemma_by_key_len(entries.remove(last));
    }
}

/// The cache of a process before libssl has reported any session.
pub fn session_cache() -> (r: SessionCache)
    ensures
        r.wf(),
        r@ == Map::<SessionKey, usize>::empty(),
{
    SessionCache { entries: Vec::new() }
}

/// A connection as libssl knows it: the addresses of the `SSL` and of its
/// `SSL_CTX`, each zero for null.
pub struct Ssl {
    pub ptr: usize,
    pub ctx: usize,
}

/// What comes of a reported session.
pub struct Reported {
    /// The answer to libssl: 1 where its reference was taken over, else 0.
    pub ret: c_int,
    /// A reference to release now.
    pub released: Option<Session>,
    /// The call that takes the reference to the context for a new entry. It is to
    /// be made before the connection that reported the session is let go.
    pub retain: Option<Step>,
}

/// The address of a session, if there is one.
pub open spec fn address_of(session: Option<Session>) -> Option<usize> {
    match session {
        Some(session) => Some(session.address()),
        None => None,
    }
}

/// The key of the sessions of a connection: its context, and its server name
/// where that is text and not empty.
pub open spec fn key_of(ssl: Ssl, server_name: Option<Seq<u8>>) -> Option<SessionKey> {
    match server_name {
        Some(name) => if ssl.ptr != 0 && ssl.ctx != 0 && name.len() > 0 && valid_utf8(name) {
            Some((ssl.ctx, decode_utf8(name)))
        } else {
            None
        },
        None => None,
    }
}

/// A session that libssl reports: the key of its connection, its address (zero
/// for null), and whether the cache is out of use.
pub struct Report {
    pub key: Option<SessionKey>,
    pub session: usize,
    pub poisoned: bool,
}

/// Whether a report hands its reference over.
pub open spec fn is_taken(report: Report) -> bool {
    report.key is Some && report.session != 0
}

/// Whether a report changes the cache.
pub open spec fn is_stored(report: Report) -> bool {
    is_taken(report) && !report.poisoned
}

/// The cache after a report.
pub open spec fn cache_after(cache: Map<SessionKey, usize>, report: Report) -> Map<
    SessionKey,
    usize,
> {
    if is_stored(report) {
        cache.insert(report.key->0, report.session)
    } else {
        cache
    }
}

/// The session to release upon a report: the one that the new session takes the
/// place of, or the new one where it cannot be stored.
pub open spec fn released_by(cache: Map<SessionKey, usize>, report: Report) -> Option<usize> {
    if !is_taken(report) {
        None
    } else if report.poisoned {
        Some(report.session)
    } else if cache.contains_key(report.key->0) {
        Some(cache[report.key->0])
    } else {
        None
    }
}

/// The context to take a reference to upon a report: that of an entry under a
/// new key.
pub open spec fn retained_by(cache: Map<SessionKey, usize>, report: Report) -> Option<usize> {
    match report.key {
        Some(key) => if is_stored(report) && !cache.contains_key(key) {
            Some(key.0)
        } else {
            None
        },
        None => None,
    }
}

/// The session to offer to a connection to `host`: the one that its own context
/// has in the cache.
pub open spec fn offer_for(
    cache: Map<SessionKey, usize>,
    poisoned: bool,
    ssl: Ssl,
    host: Seq<char>,
) -> Option<usize> {
    if ssl.ptr != 0 && ssl.ctx != 0 && host.len() > 0 && !poisoned && cache.contains_key(
        (ssl.ctx, host),
    ) {
        Some(cache[(ssl.ctx, host)])
    } else {
        None
    }
}

/// The text that `bytes` encode, if they are UTF-8.
///
/// Calls `core::str::from_utf8`, which succeeds exactly on valid UTF-8 and then
/// returns the string that has these bytes.
#[verifier::external_body]
fn utf8_text(bytes: &[u8]) -> (r: Option<&str>)
    ensures
        match r {
            Some(text) => valid_utf8(bytes@) && encode_utf8(text@) == bytes@,
            None => !valid_utf8(bytes@),
        },
{
    core::str::from_utf8(bytes).ok()
}

/// Takes a new session that libssl reports for a connection, with the server
/// name of the connection if it has one.
///
/// Without a key for the session the reference is declined, and libssl frees
/// it. Else it is taken over: it goes into the cache, or, while the cache is
/// out of use (`poisoned`), is released at once.
pub fn new_session_cb(
    cache: &mut SessionCache,
    poisoned: bool,
    ssl: &Ssl,
    server_name: Option<&[u8]>,
    session: usize,
) -> (r: Reported)
    requires
        old(cache).wf(),
    ensures
        final(cache).wf(),
        ({
            let name: Option<Seq<u8>> = match server_name {
                Some(name) => Some(name@),
                None => None,
            };
            let report = Report { key: key_of(*ssl, name), session, poisoned };
            &&& final(cache)@ == cache_after(old(cache)@, report)
            &&& r.ret == (if is_taken(report) {
                1int
            } else {
                0
            })
            &&& address_of(r.released) == released_by(old(cache)@, report)
            &&& match r.retain {
                Some(step) => step@ == up_ref_step(ssl.ctx) && retained_by(old(cache)@, report)
                    == Some(ssl.ctx),
                None => retained_by(old(cache)@, report) is None,
            }
        }),
{
    if ssl.ptr == 0 || session == 0 {
        return Reported { ret: 0, released: None, retain: None };
    }
    let name = match server_name {
        Some(name) => name,
        None => return Reported { ret: 0, released: None, retain: None },
    };
    let host = match utf8_text(name) {
        Some(host) => if name.len() > 0 {
            host.to_owned()
        } else {
            return Reported { ret: 0, released: None, retain: None };
        },
        None => return Reported { ret: 0, released: None, retain: None },
    };
    proof {
        encode_utf8_decode_utf8(host@);
    }
    if ssl.ctx == 0 {
        return Reported { ret: 0, released: None, retain: None };
    }
    let owned = Session::from_owned(session);
    if poisoned {
        return Reported { ret: 1, released: Some(owned), retain: None };
    }
    let (displaced, retain) = cache.insert(ssl.ctx, host, owned);
    Reported { ret: 1, released: displaced, retain }
}

/// The attempt to resume a session on a connection.
#[derive(Clone, Copy, PartialEq, Eq, Structural, Debug)]
pub enum Resume {
    /// `SSL_set_session` is to be called with these addresses. The cache keeps
    /// its own reference.
    SetSession { ssl: usize, session: usize },
    /// Whether a session is installed.
    Done(bool),
}

impl Resume {
    /// Goes on after `SSL_set_session` returned `ret`.
    pub fn on_set(ret: c_int) -> (r: Resume)
        ensures
            r == Resume::Done(ret == 1),
    {
        Resume::Done(ret == 1)
    }
}

/// Looks up a session for a new connection to `host`. Where there is none, the
/// connection makes a full handshake.
pub fn try_set_cached_session(cache: &SessionCache, poisoned: bool, ssl: &Ssl, host: &str) -> (r:
    Resume)
    requires
        cache.wf(),
    ensures
        r == (match offer_for(cache@, poisoned, *ssl, host@) {
            Some(session) => Resume::SetSession { ssl: ssl.ptr, session },
            None => Resume::Done(false),
        }),
        r matches Resume::SetSession { session, .. } ==> session != 0,
{
    proof {
        if host@.len() > 0 {
            encode_utf8_first_scalar(host@);
        }
    }
    if ssl.ptr == 0 || host.as_bytes().len() == 0 {
        return Resume::Done(false);
    }
    if ssl.ctx == 0 || poisoned {
        return Resume::Done(false);
    }
    match cache.get(ssl.ctx, &host.to_owned()) {
        Some(session) => Resume::SetSession { ssl: ssl.ptr, session: session.as_ptr() },
        None => Resume::Done(false),
    }
}

/// What happens to a cache and to the contexts of its sessions.
pub enum CacheEvent {
    /// libssl reports a session, and [`new_session_cb`] takes it.
    Reported(Report),
    /// The sessions of the context at this address are taken out by
    /// [`SessionCache::forget_context`], and all their references are released.
    Forgotten(usize),
    /// Someone else takes a reference to the context at this address: it is
    /// created, an owner clones it, or a connection is made with it.
    Taken(usize),
    /// Someone else gives a reference to the context at this address up.
    Dropped(usize),
}

/// The cache after an event.
pub open spec fn cache_step(cache: Map<SessionKey, usize>, event: CacheEvent) -> Map<
    SessionKey,
    usize,
> {
    match event {
        CacheEvent::Reported(report) => cache_after(cache, report),
        CacheEvent::Forgotten(ctx) => forgotten(cache, ctx),
        CacheEvent::Taken(ctx) => cache,
        CacheEvent::Dropped(ctx) => cache,
    }
}

/// The cache after a history, from [`session_cache`] on.
pub open spec fn cache_run(events: Seq<CacheEvent>) -> Map<SessionKey, usize>
    decreases events.len(),
{
    if events.len() == 0 {
        Map::empty()
    } else {
        cache_step(cache_run(events.drop_last()), events.last())
    }
}

/// Whether an event stores a session under `key`.
pub open spec fn stores_under(event: CacheEvent, key: SessionKey) -> bool {
    event matches CacheEvent::Reported(report) && is_stored(report) && report.key == Some(key)
}

/// Whether the session under `key`, if any, leaves the cache with an event.
pub open spec fn clears(event: CacheEvent, key: SessionKey) -> bool {
    stores_under(event, key) || event == CacheEvent::Forgotten(key.0)
}

/// Whether the event at `i` stored the session that the cache has under `key`.
pub open spec fn is_latest(events: Seq<CacheEvent>, key: SessionKey, i: int) -> bool {
    &&& 0 <= i < events.len()
    &&& stores_under(events[i], key)
    &&& forall|j: int| i < j < events.len() ==> !clears(#[trigger] events[j], key)
}

/// The session that an event reports.
pub open spec fn session_in(event: CacheEvent) -> usize {
    event->Reported_0.session
}

proof fn lemma_cache_holds_latest(events: Seq<CacheEvent>, key: SessionKey)
    ensures
        cache_run(events).contains_key(key) ==> exists|i: int| #[trigger]
            is_latest(events, key, i),
        forall|i: int| #[trigger]
            is_latest(events, key, i) ==> cache_run(events).contains_key(key) && cache_run(
                events,
            )[key] == session_in(events[i]),
    decreases events.len(),
{
    if events.len() > 0 {
        let before = events.drop_last();
        let last = events.last();
        let n = before.len() as int;
        lemma_cache_holds_latest(before, key);
        if stores_under(last, key) {
            assert(is_latest(events, key, n));
        } else if cache_run(events).contains_key(key) {
            let i = choose|i: int| is_latest(before, key, i);
            assert forall|j: int| i < j < events.len() implies !clears(
                #[trigger] events[j],
                key,
            ) by {
                assert(j < n ==> before[j] == events[j]);
            }
            assert(is_latest(events, key, i));
        }
        assert forall|i: int| #[trigger] is_latest(events, key, i) implies cache_run(
            events,
        ).contains_key(key) && cache_run(events)[key] == session_in(events[i]) by {
            if i < n {
                assert(events[n] == last);
                assert forall|j: int| i < j < before.len() implies !clears(
                    #[trigger] before[j],
                    key,
                ) by {
                    assert(before[j] == events[j]);
                }
                assert(is_latest(before, key, i));
            }
        }
    }
}

/// Whatever happened, a connection is offered the latest session that was stored
/// under the address of its context and its host and not forgotten since, and no
/// other.
pub proof fn law_latest_session_is_offered(events: Seq<CacheEvent>, ssl: Ssl, host: Seq<char>)
    ensures
        offer_for(cache_run(events), false, ssl, host) is Some ==> exists|i: int| #[trigger]
            is_latest(events, (ssl.ctx, host), i),
        forall|i: int| #[trigger]
            is_latest(events, (ssl.ctx, host), i) && ssl.ptr != 0 && ssl.ctx != 0 && host.len()
                > 0 ==> offer_for(cache_run(events), false, ssl, host) == Some(
                session_in(events[i]),
            ),
{
    lemma_cache_holds_latest(events, (ssl.ctx, host));
}

/// How many references to the context at `ctx` the cache has taken.
pub open spec fn retained_count(events: Seq<CacheEvent>, ctx: usize) -> nat
    decreases events.len(),
{
    if events.len() == 0 {
        0
    } else {
        let before = events.drop_last();
        let now = match events.last() {
            CacheEvent::Reported(report) => if retained_by(cache_run(before), report) == Some(ctx) {
                1nat
            } else {
                0
            },
            _ => 0,
        };
        retained_count(before, ctx) + now
    }
}

/// How many references to the context at `ctx` the cache has given up.
pub open spec fn given_up_count(events: Seq<CacheEvent>, ctx: usize) -> nat
    decreases events.len(),
{
    if events.len() == 0 {
        0
    } else {
        let before = events.drop_last();
        let now = if events.last() == CacheEvent::Forgotten(ctx) {
            context_keys(cache_run(before), ctx).len()
        } else {
            0
        };
        given_up_count(before, ctx) + now
    }
}

/// The cache holds one reference to a context for each session of it: of each
/// context, the references that were taken are those for the sessions in the
/// cache and those that were given up.
pub proof fn law_context_references_balance(events: Seq<CacheEvent>, ctx: usize)
    ensures
        context_keys(cache_run(events), ctx).finite(),
        retained_count(events, ctx) == given_up_count(events, ctx) + context_keys(
            cache_run(events),
            ctx,
        ).len(),
    decreases events.len(),
{
    let keys = context_keys(cache_run(events), ctx);
    if events.len() == 0 {
        assert(keys =~= Set::<SessionKey>::empty());
    } else {
        let before = events.drop_last();
        let earlier = context_keys(cache_run(before), ctx);
        law_context_references_balance(before, ctx);
        match events.last() {
            CacheEvent::Reported(report) => {
                if is_stored(report) {
                    let key = report.key->0;
                    assert(keys =~= if key.0 == ctx {
                        earlier.insert(key)
                    } else {
                        earlier
                    });
                }
            },
            CacheEvent::Forgotten(other) => {
                assert(keys =~= if other == ctx {
                    Set::<SessionKey>::empty()
                } else {
                    earlier
                });
            },
            CacheEvent::Taken(other) => {},
            CacheEvent::Dropped(other) => {},
        }
    }
}

/// How many references to the context at `ctx` others hold.
pub open spec fn others_count(events: Seq<CacheEvent>, ctx: usize) -> nat
    decreases events.len(),
{
    if events.len() == 0 {
        0
    } else {
        let before = others_count(events.drop_last(), ctx);
        if events.last() == CacheEvent::Taken(ctx) {
            before + 1
        } else if events.last() == CacheEvent::Dropped(ctx) && before > 0 {
            (before - 1) as nat
        } else {
            before
        }
    }
}

/// The reference count of the context at `ctx`: the references of others and
/// those that the cache has taken and not given up. libssl frees a context when
/// its count comes to zero; until then no other context can stand at its address.
pub open spec fn reference_count(events: Seq<CacheEvent>, ctx: usize) -> int {
    others_count(events, ctx) + retained_count(events, ctx) - given_up_count(events, ctx)
}

/// Whether the context at `ctx` was never freed after event `i`.
pub open spec fn lives_since(events: Seq<CacheEvent>, ctx: usize, i: int) -> bool {
    forall|j: int|
        i < j <= events.len() ==> #[trigger] reference_count(events.take(j), ctx) > 0
}

/// A session is only ever offered by the very context that obtained it: what a
/// connection is offered was reported by the context that stands at this address
/// now, not by one that stood there before.
pub proof fn law_session_stays_with_its_context(events: Seq<CacheEvent>, ssl: Ssl, host: Seq<char>)
    ensures
        offer_for(cache_run(events), false, ssl, host) matches Some(session) ==> exists|i: int|
            #[trigger] is_latest(events, (ssl.ctx, host), i) && session_in(events[i]) == session
                && lives_since(events, ssl.ctx, i),
{
    let key = (ssl.ctx, host);
    lemma_cache_holds_latest(events, key);
    if offer_for(cache_run(events), false, ssl, host) is Some {
        let i = choose|i: int| is_latest(events, key, i);
        assert forall|j: int| i < j <= events.len() implies #[trigger] reference_count(
            events.take(j),
            ssl.ctx,
        ) > 0 by {
            let past = events.take(j);
            assert forall|n: int| i < n < past.len() implies !clears(#[trigger] past[n], key) by {
                assert(past[n] == events[n]);
            }
            assert(is_latest(past, key, i));
            lemma_cache_holds_latest(past, key);
            law_context_references_balance(past, ssl.ctx);
            assert(context_keys(cache_run(past), ssl.ctx).contains(key));
        }
    }
}

/// A context that was freed leaves nothing behind: a connection of a later
/// context at the same address is offered no session until that context has
/// reported one. `freed` counts the events up to the one that brought the
/// reference count to zero.
pub proof fn law_later_context_starts_afresh(
    events: Seq<CacheEvent>,
    freed: int,
    ssl: Ssl,
    host: Seq<char>,
)
    requires
        0 <= freed <= events.len(),
        reference_count(events.take(freed), ssl.ctx) == 0,
        forall|j: int|
            freed <= j < events.len() ==> !stores_under(#[trigger] events[j], (ssl.ctx, host)),
    ensures
        offer_for(cache_run(events), false, ssl, host) is None,
{
    law_session_stays_with_its_context(events, ssl, host);
}

/// A session of a context at one address changes nothing for a connection of a
/// context at another, even to the same host.
pub proof fn law_contexts_stay_apart(
    cache: Map<SessionKey, usize>,
    report: Report,
    poisoned: bool,
    ssl: Ssl,
    host: Seq<char>,
)
    requires
        report.key matches Some(key) ==> key.0 != ssl.ctx,
    ensures
        offer_for(cache_after(cache, report), poisoned, ssl, host) == offer_for(
            cache,
            poisoned,
            ssl,
            host,
        ),
{
}

/// The keys under which a cache holds the session at `ptr`.
pub open spec fn holding_keys(cache: Map<SessionKey, usize>, ptr: usize) -> Set<SessionKey> {
    cache.dom().filter(|key: SessionKey| cache[key] == ptr)
}

/// How many references to the session at `ptr` were handed over.
pub open spec fn taken_count(events: Seq<CacheEvent>, ptr: usize) -> nat
    decreases events.len(),
{
    if events.len() == 0 {
        0
    } else {
        let now = match events.last() {
            CacheEvent::Reported(report) => if is_taken(report) && report.session == ptr {
                1nat
            } else {
                0
            },
            _ => 0,
        };
        taken_count(events.drop_last(), ptr) + now
    }
}

/// How many references to the session at `ptr` were released.
pub open spec fn released_count(events: Seq<CacheEvent>, ptr: usize) -> nat
    decreases events.len(),
{
    if events.len() == 0 {
        0
    } else {
        let before = cache_run(events.drop_last());
        let now = match events.last() {
            CacheEvent::Reported(report) => if released_by(before, report) == Some(ptr) {
                1nat
            } else {
                0
            },
            CacheEvent::Forgotten(ctx) => holding_keys(sessions_of(before, ctx), ptr).len(),
            CacheEvent::Taken(ctx) => 0,
            CacheEvent::Dropped(ctx) => 0,
        };
        released_count(events.drop_last(), ptr) + now
    }
}

/// No reference is lost and none is released twice: of each session, the
/// references that were handed over are those that the cache holds and those
/// that were released.
pub proof fn law_references_balance(events: Seq<CacheEvent>, ptr: usize)
    ensures
        holding_keys(cache_run(events), ptr).finite(),
        taken_count(events, ptr) == released_count(events, ptr) + holding_keys(
            cache_run(events),
            ptr,
        ).len(),
    decreases events.len(),
{
    let keys = holding_keys(cache_run(events), ptr);
    if events.len() == 0 {
        assert(keys =~= Set::<SessionKey>::empty());
    } else {
        let before = cache_run(events.drop_last());
        let earlier = holding_keys(before, ptr);
        law_references_balance(events.drop_last(), ptr);
        match events.last() {
            CacheEvent::Reported(report) => {
                if is_stored(report) {
                    let key = report.key->0;
                    let kept = earlier.remove(key);
                    assert(keys =~= if report.session == ptr {
                        kept.insert(key)
                    } else {
                        kept
                    });
                    assert(!kept.contains(key));
                }
            },
            CacheEvent::Forgotten(ctx) => {
                let gone = holding_keys(sessions_of(before, ctx), ptr);
                assert(gone =~= earlier.filter(|key: SessionKey| key.0 == ctx));
                assert(keys =~= earlier.filter(|key: SessionKey| key.0 != ctx));
                assert(keys + gone =~= earlier);
                assert(keys.disjoint(gone));
                lemma_set_disjoint_lens(keys, gone);
            },
            CacheEvent::Taken(ctx) => {},
            CacheEvent::Dropped(ctx) => {},
        }
    }
}

/// The report of a session on a connection with a server name.
pub open spec fn report_of(
    ssl: Ssl,
    server_name: Option<Seq<u8>>,
    session: usize,
    poisoned: bool,
) -> Report {
    Report { key: key_of(ssl, server_name), session, poisoned }
}

proof fn lemma_encoded_len(host: Seq<char>)
    ensures
        host.len() > 0 <==> encode_utf8(host).len() > 0,
{
    if host.len() > 0 {
        encode_utf8_first_scalar(host);
    }
}

/// A session that is reported for a host is filed under that very host and its
/// context, and is what a connection of the same context to the same host is offered
/// next; for every other host and every other context the offer stays as it was.
pub proof fn law_reported_session_is_offered(
    cache: Map<SessionKey, usize>,
    ssl: Ssl,
    host: Seq<char>,
    session: usize,
)
    requires
        ssl.ptr != 0,
        ssl.ctx != 0,
        session != 0,
        host.len() > 0,
    ensures
        ({
            let report = report_of(ssl, Some(encode_utf8(host)), session, false);
            let after = cache_after(cache, report);
            &&& is_taken(report)
            &&& after == cache.insert((ssl.ctx, host), session)
            &&& forall|other: Ssl| #[trigger]
                offer_for(after, false, other, host) == (if other.ctx != ssl.ctx {
                    offer_for(cache, false, other, host)
                } else if other.ptr != 0 {
                    Some(session)
                } else {
                    None
                })
            &&& forall|other: Ssl, name: Seq<char>|
                name != host ==> #[trigger] offer_for(after, false, other, name) == offer_for(
                    cache,
                    false,
                    other,
                    name,
                )
        }),
{
    lemma_encoded_len(host);
    encode_utf8_valid_utf8(host);
    encode_utf8_decode_utf8(host);
}

/// A reference is taken over exactly for a session on a connection with a context
/// and a server name that is the encoding of a host that is not empty.
pub proof fn law_taken_with_a_host(
    ssl: Ssl,
    server_name: Option<Seq<u8>>,
    session: usize,
    poisoned: bool,
)
    ensures
        is_taken(report_of(ssl, server_name, session, poisoned)) <==> ssl.ptr != 0 && ssl.ctx != 0
            && session != 0 && exists|host: Seq<char>|
            host.len() > 0 && server_name == Some(#[trigger] encode_utf8(host)),
{
    if let Some(name) = server_name {
        if valid_utf8(name) {
            decode_utf8_encode_utf8(name);
            lemma_encoded_len(decode_utf8(name));
        }
        if exists|host: Seq<char>| host.len() > 0 && name == #[trigger] encode_utf8(host) {
            let host = choose|host: Seq<char>| host.len() > 0 && name == #[trigger] encode_utf8(host);
            encode_utf8_valid_utf8(host);
            lemma_encoded_len(host);
        }
    }
}

/// What comes of a report: one that is not taken changes nothing and gives nothing
/// to release; one that is taken while the cache is out of use changes nothing and
/// is released itself; any other is stored, and what the context was offered for
/// the host before, if anything, is released in its place. A reference to the
/// context is due exactly where nothing was there before.
pub proof fn law_reports_are_settled(
    cache: Map<SessionKey, usize>,
    ssl: Ssl,
    host: Seq<char>,
    session: usize,
    report: Report,
)
    requires
        ssl.ptr != 0,
        ssl.ctx != 0,
        host.len() > 0,
    ensures
        !is_taken(report) ==> cache_after(cache, report) == cache && released_by(cache, report)
            is None && retained_by(cache, report) is None,
        is_taken(report) && report.poisoned ==> cache_after(cache, report) == cache && released_by(
            cache,
            report,
        ) == Some(report.session) && retained_by(cache, report) is None,
        session != 0 ==> ({
            let stored = report_of(ssl, Some(encode_utf8(host)), session, false);
            let before = offer_for(cache, false, ssl, host);
            &&& released_by(cache, stored) == before
            &&& retained_by(cache, stored) == (if before is None {
                Some(ssl.ctx)
            } else {
                None
            })
        }),
{
    lemma_encoded_len(host);
    encode_utf8_valid_utf8(host);
    encode_utf8_decode_utf8(host);
}

/// A lookup gives what the cache holds for the context and the host, and nothing
/// where the cache is out of use or the connection, its context or the host is not
/// there.
pub proof fn law_lookup(cache: Map<SessionKey, usize>, poisoned: bool, ssl: Ssl, host: Seq<char>)
    ensures
        ssl.ptr == 0 || ssl.ctx == 0 || host.len() == 0 || poisoned ==> offer_for(
            cache,
            poisoned,
            ssl,
            host,
        ) is None,
        !cache.dom().contains((ssl.ctx, host)) ==> offer_for(cache, poisoned, ssl, host) is None,
        ssl.ptr != 0 && ssl.ctx != 0 && host.len() > 0 && !poisoned && cache.dom().contains(
            (ssl.ctx, host),
        ) ==> offer_for(cache, poisoned, ssl, host) == Some(cache[(ssl.ctx, host)]),
{
}

/// A context that is forgotten has nothing left in the cache, all others have what
/// they had, and what is taken out is what that context had.
pub proof fn law_forgetting(
    cache: Map<SessionKey, usize>,
    ctx: usize,
    ssl: Ssl,
    host: Seq<char>,
    key: SessionKey,
)
    ensures
        offer_for(forgotten(cache, ctx), false, ssl, host) == (if ssl.ctx == ctx {
            None
        } else {
            offer_for(cache, false, ssl, host)
        }),
        forgotten(cache, ctx).dom().contains(key) <==> cache.dom().contains(key) && key.0 != ctx,
        forgotten(cache, ctx).dom().contains(key) ==> forgotten(cache, ctx)[key] == cache[key],
        sessions_of(cache, ctx).dom().contains(key) <==> cache.dom().contains(key) && key.0 == ctx,
        sessions_of(cache, ctx).dom().contains(key) ==> sessions_of(cache, ctx)[key] == cache[key],
        context_keys(cache, ctx).contains(key) <==> cache.dom().contains(key) && key.0 == ctx,
{
}

/// Entries with distinct keys hold, under the key of each, its session and nothing
/// more.
pub proof fn law_entries_by_key(entries: Seq<CachedSession>)
    ensures
        distinct_keys(entries) <==> forall|i: int, j: int|
            0 <= i < entries.len() && 0 <= j < entries.len() && (#[trigger] entries[i]).key() == (
            #[trigger] entries[j]).key() ==> i == j,
        distinct_keys(entries) ==> {
            &&& forall|i: int|
                0 <= i < entries.len() ==> by_key(entries).dom().contains(
                    (#[trigger] entries[i]).key(),
                ) && by_key(entries)[entries[i].key()] == entries[i].address()
            &&& forall|key: SessionKey| #[trigger]
                by_key(entries).dom().contains(key) ==> exists|i: int|
                    0 <= i < entries.len() && (#[trigger] entries[i]).key() == key
        },
{
    if distinct_keys(entries) {
        assert forall|i: int| 0 <= i < entries.len() implies by_key(entries).dom().contains(
            (#[trigger] entries[i]).key(),
        ) && by_key(entries)[entries[i].key()] == entries[i].address() by {
            lemma_by_key_at(entries, i);
        }
        assert forall|key: SessionKey| #[trigger] by_key(entries).dom().contains(key) implies exists|
            i: int,
        |
            0 <= i < entries.len() && (#[trigger] entries[i]).key() == key by {
            let i = choose|i: int| holds_at(entries, key, i);
            assert(entries[i].key() == key);
        }
    }
}

/// An optional session shows its address, and the selector of the host name is
/// zero.
pub proof fn law_session_values(session: Session)
    ensures
        address_of(Some(session)) == Some(session.address()),
        address_of(None) is None,
        TLSEXT_NAMETYPE_HOST_NAME == 0,
{
}

/// A session that is reported for a host is what the next connection of the same
/// context to that host is offered, and what was there before is released; other
/// hosts and other contexts are offered what they were before.
pub proof fn law_report_then_lookup(
    cache: &mut SessionCache,
    before: &SessionCache,
    after: &SessionCache,
    ssl: &Ssl,
    name: &[u8],
    named: &str,
    session: usize,
    reported: Reported,
    other: &Ssl,
    host: &str,
    earlier: Resume,
    r: Resume,
)
    requires
        *before == *old(cache),
        *after == *final(cache),
        call_ensures(new_session_cb, (cache, false, ssl, Some(name), session), reported),
        call_ensures(try_set_cached_session, (before, false, other, host), earlier),
        call_ensures(try_set_cached_session, (after, false, other, host), r),
        ssl.ptr != 0,
        ssl.ctx != 0,
        session != 0,
        named@.len() > 0,
        name@ == encode_utf8(named@),
    ensures
        reported.ret == 1,
        other.ptr != 0 && other.ctx == ssl.ctx && host@ == named@ ==> r == (Resume::SetSession {
            ssl: other.ptr,
            session,
        }),
        other.ctx != ssl.ctx || host@ != named@ ==> r == earlier,
        other.ptr != 0 && other.ctx == ssl.ctx && host@ == named@ ==> match earlier {
            Resume::SetSession { ssl: s, session: displaced } => {
                &&& s == other.ptr
                &&& reported.released matches Some(released)
                &&& released.address() == displaced
                &&& reported.retain is None
            },
            Resume::Done(installed) => {
                &&& !installed
                &&& reported.released is None
                &&& reported.retain matches Some(step)
                &&& step@.ctx == ssl.ctx
                &&& step@.call is UpRef
            },
        },
{
    lemma_encoded_len(named@);
    encode_utf8_valid_utf8(named@);
    encode_utf8_decode_utf8(named@);
}

/// A report without a connection, a context, a session or the name of a host is
/// declined and changes nothing. One that comes while the cache is out of use is
/// taken, released at once, and changes nothing either.
pub proof fn law_declined_or_released(
    cache: &mut SessionCache,
    poisoned: bool,
    ssl: &Ssl,
    server_name: Option<&[u8]>,
    session: usize,
    r: Reported,
)
    requires
        call_ensures(new_session_cb, (cache, poisoned, ssl, server_name, session), r),
    ensures
        ({
            let named = server_name matches Some(name) && exists|host: Seq<char>|
                host.len() > 0 && name@ == #[trigger] encode_utf8(host);
            let taken = ssl.ptr != 0 && ssl.ctx != 0 && session != 0 && named;
            &&& r.ret == 1 <==> taken
            &&& r.ret == 0 <==> !taken
            &&& !taken ==> r.released is None && r.retain is None && final(cache)@ == old(cache)@
            &&& taken && poisoned ==> {
                &&& r.released matches Some(released)
                &&& released.address() == session
                &&& r.retain is None
                &&& final(cache)@ == old(cache)@
            }
        }),
{
    let name = match server_name {
        Some(name) => Some(name@),
        None => None,
    };
    law_taken_with_a_host(*ssl, name, session, poisoned);
}

/// A lookup finds nothing in a new cache, while the cache is out of use, or without
/// a connection, a context or a host; and a session is installed exactly if libssl
/// returns 1.
pub proof fn law_nothing_to_resume(
    fresh: SessionCache,
    cache: &SessionCache,
    poisoned: bool,
    ssl: &Ssl,
    host: &str,
    r: Resume,
    ret: c_int,
    end: Resume,
)
    requires
        call_ensures(session_cache, (), fresh),
        call_ensures(try_set_cached_session, (cache, poisoned, ssl, host), r),
        call_ensures(Resume::on_set, (ret,), end),
    ensures
        *cache == fresh || poisoned || ssl.ptr == 0 || ssl.ctx == 0 || host@.len() == 0 ==> r
            == Resume::Done(false),
        r matches Resume::SetSession { ssl: s, session } ==> s == ssl.ptr && session != 0,
        r matches Resume::Done(installed) ==> !installed,
        end == Resume::Done(true) <==> ret == 1,
        end == Resume::Done(false) <==> ret != 1,
{
}

/// After a context is forgotten none of its connections is offered a session, and
/// all others are offered what they were before. What is taken out are sessions of
/// that context, each with a reference to it.
pub proof fn law_forget_then_lookup(
    cache: &mut SessionCache,
    before: &SessionCache,
    after: &SessionCache,
    ctx: usize,
    removed: Vec<CachedSession>,
    ssl: &Ssl,
    host: &str,
    earlier: Resume,
    r: Resume,
    i: int,
    parts: (Session, SslContext),
)
    requires
        *before == *old(cache),
        *after == *final(cache),
        call_ensures(SessionCache::forget_context, (cache, ctx), removed),
        call_ensures(try_set_cached_session, (before, false, ssl, host), earlier),
        call_ensures(try_set_cached_session, (after, false, ssl, host), r),
        0 <= i < removed@.len(),
        call_ensures(CachedSession::into_parts, (removed@[i],), parts),
    ensures
        ssl.ctx == ctx ==> r == Resume::Done(false),
        ssl.ctx != ctx ==> r == earlier,
        parts.1.handle() == ctx,
        old(cache)@.dom().contains(removed@[i].key()) && parts.0.address() == old(
            cache,
        )@[removed@[i].key()],
{
    law_entries_by_key(removed@);
    assert(by_key(removed@).dom().contains(removed@[i].key()));
    law_forgetting(old(cache)@, ctx, *ssl, host@, removed@[i].key());
}

/// All that a context has in the cache is taken out with it.
pub proof fn law_forget_takes_all(
    cache: &mut SessionCache,
    ctx: usize,
    removed: Vec<CachedSession>,
    key: SessionKey,
)
    requires
        call_ensures(SessionCache::forget_context, (cache, ctx), removed),
        old(cache)@.dom().contains(key),
        key.0 == ctx,
    ensures
        exists|i: int| 0 <= i < removed@.len() && (#[trigger] removed@[i]).key() == key,
        !final(cache)@.dom().contains(key),
{
    law_entries_by_key(removed@);
    law_forgetting(old(cache)@, ctx, Ssl { ptr: 0, ctx: 0 }, Seq::empty(), key);
    assert(by_key(removed@).dom().contains(key));
}

/// A session keeps the address that it is made with, to the end.
pub proof fn law_session_address(ptr: usize, session: Session, shown: usize, given_up: usize)
    requires
        call_ensures(Session::from_owned, (ptr,), session),
        call_ensures(Session::as_ptr, (&session,), shown),
        call_ensures(Session::drop, (session,), given_up),
    ensures
        shown == ptr,
        given_up == ptr,
{
}

} // verus!
