//! The cache of TLS sessions.

use https_proxy::c_openssl::ctx::{Check, CtxCall};
use https_proxy::c_openssl::session::{
    new_session_cb, session_cache, try_set_cached_session, Reported, Resume, Session,
    SessionCache, Ssl, TLSEXT_NAMETYPE_HOST_NAME,
};

fn ssl(ptr: usize, ctx: usize) -> Ssl {
    Ssl { ptr, ctx }
}

/// The context that a call takes a reference to.
fn retained(reported: &Reported) -> Option<usize> {
    match &reported.retain {
        Some(step) => {
            assert!(matches!(step.call, CtxCall::UpRef));
            assert_eq!(step.check, Check::Any);
            Some(step.ctx)
        }
        None => None,
    }
}

/// The answer to libssl and the address of the session to release.
fn shown(reported: Reported) -> (i32, Option<usize>) {
    (reported.ret, reported.released.map(|session| session.drop()))
}

fn report(cache: &mut SessionCache, ctx: usize, host: &str, session: usize) -> (i32, Option<usize>) {
    shown(new_session_cb(cache, false, &ssl(100, ctx), Some(host.as_bytes()), session))
}

fn lookup(cache: &SessionCache, ctx: usize, host: &str) -> Resume {
    try_set_cached_session(cache, false, &ssl(200, ctx), host)
}

#[test]
fn a_stored_session_is_offered() {
    let mut cache = session_cache();
    assert_eq!(lookup(&cache, 1, "a.example"), Resume::Done(false));
    assert_eq!(report(&mut cache, 1, "a.example", 11), (1, None));
    assert_eq!(
        lookup(&cache, 1, "a.example"),
        Resume::SetSession { ssl: 200, session: 11 }
    );
    assert_eq!(
        lookup(&cache, 1, "a.example"),
        Resume::SetSession { ssl: 200, session: 11 }
    );
}

#[test]
fn sessions_are_kept_apart_by_context_and_host() {
    let mut cache = session_cache();
    assert_eq!(report(&mut cache, 1, "a.example", 11), (1, None));
    assert_eq!(lookup(&cache, 2, "a.example"), Resume::Done(false));
    assert_eq!(lookup(&cache, 1, "b.example"), Resume::Done(false));
    assert_eq!(report(&mut cache, 2, "a.example", 21), (1, None));
    assert_eq!(report(&mut cache, 1, "b.example", 12), (1, None));
    assert_eq!(lookup(&cache, 1, "a.example"), Resume::SetSession { ssl: 200, session: 11 });
    assert_eq!(lookup(&cache, 2, "a.example"), Resume::SetSession { ssl: 200, session: 21 });
    assert_eq!(lookup(&cache, 1, "b.example"), Resume::SetSession { ssl: 200, session: 12 });
}

#[test]
fn the_latest_session_takes_the_place_of_the_one_before() {
    let mut cache = session_cache();
    assert_eq!(report(&mut cache, 1, "a.example", 11), (1, None));
    assert_eq!(report(&mut cache, 1, "b.example", 12), (1, None));
    assert_eq!(report(&mut cache, 1, "a.example", 13), (1, Some(11)));
    assert_eq!(report(&mut cache, 1, "a.example", 14), (1, Some(13)));
    assert_eq!(lookup(&cache, 1, "a.example"), Resume::SetSession { ssl: 200, session: 14 });
    assert_eq!(lookup(&cache, 1, "b.example"), Resume::SetSession { ssl: 200, session: 12 });
}

#[test]
fn references_balance() {
    let mut cache = session_cache();
    let mut taken = 0;
    let mut released = 0;
    for (ctx, host, session) in [(1, "a", 7), (1, "a", 7), (2, "a", 7), (1, "", 7), (1, "a", 8)] {
        let (ret, freed) = report(&mut cache, ctx, host, session);
        if ret == 1 && session == 7 {
            taken += 1;
        }
        if freed == Some(7) {
            released += 1;
        }
    }
    let held = if lookup(&cache, 2, "a") == (Resume::SetSession { ssl: 200, session: 7 }) { 1 } else { 0 };
    assert_eq!(lookup(&cache, 1, "a"), Resume::SetSession { ssl: 200, session: 8 });
    assert_eq!((taken, released, held), (3, 2, 1));
}

#[test]
fn sessions_without_a_key_are_declined() {
    let mut cache = session_cache();
    let name: &[u8] = b"a.example";
    assert_eq!(shown(new_session_cb(&mut cache, false, &ssl(0, 1), Some(name), 11)), (0, None));
    assert_eq!(shown(new_session_cb(&mut cache, false, &ssl(100, 0), Some(name), 11)), (0, None));
    assert_eq!(shown(new_session_cb(&mut cache, false, &ssl(100, 1), Some(name), 0)), (0, None));
    assert_eq!(shown(new_session_cb(&mut cache, false, &ssl(100, 1), None, 11)), (0, None));
    assert_eq!(shown(new_session_cb(&mut cache, false, &ssl(100, 1), Some(b""), 11)), (0, None));
    assert_eq!(lookup(&cache, 1, "a.example"), Resume::Done(false));
}

#[test]
fn server_names_have_to_be_text() {
    let mut cache = session_cache();
    let cases: [&[u8]; 4] = [b"\xff", b"a\xc3", b"\xc0\x80", b"\xed\xa0\x80"];
    for name in cases {
        assert_eq!(shown(new_session_cb(&mut cache, false, &ssl(100, 1), Some(name), 11)), (0, None));
    }
    assert_eq!(report(&mut cache, 1, "b\u{fc}cher.example", 12), (1, None));
    assert_eq!(
        lookup(&cache, 1, "b\u{fc}cher.example"),
        Resume::SetSession { ssl: 200, session: 12 }
    );
    assert_eq!(lookup(&cache, 1, "bucher.example"), Resume::Done(false));
}

#[test]
fn a_poisoned_cache_stores_and_offers_nothing() {
    let mut cache = session_cache();
    assert_eq!(report(&mut cache, 1, "a.example", 11), (1, None));
    let name: &[u8] = b"a.example";
    assert_eq!(
        shown(new_session_cb(&mut cache, true, &ssl(100, 1), Some(name), 12)),
        (1, Some(12))
    );
    assert_eq!(
        try_set_cached_session(&cache, true, &ssl(200, 1), "a.example"),
        Resume::Done(false)
    );
    assert_eq!(lookup(&cache, 1, "a.example"), Resume::SetSession { ssl: 200, session: 11 });
}

#[test]
fn lookups_need_a_connection_and_a_host() {
    let mut cache = session_cache();
    assert_eq!(report(&mut cache, 1, "a.example", 11), (1, None));
    assert_eq!(
        try_set_cached_session(&cache, false, &ssl(0, 1), "a.example"),
        Resume::Done(false)
    );
    assert_eq!(
        try_set_cached_session(&cache, false, &ssl(200, 0), "a.example"),
        Resume::Done(false)
    );
    assert_eq!(try_set_cached_session(&cache, false, &ssl(200, 1), ""), Resume::Done(false));
}

#[test]
fn a_session_is_installed_if_libssl_says_so() {
    assert_eq!(Resume::on_set(1), Resume::Done(true));
    assert_eq!(Resume::on_set(0), Resume::Done(false));
    assert_eq!(Resume::on_set(-1), Resume::Done(false));
    assert_eq!(TLSEXT_NAMETYPE_HOST_NAME, 0);
}

#[test]
fn a_session_owns_its_reference() {
    let session = Session::from_owned(5);
    assert_eq!(session.as_ptr(), 5);
    assert_eq!(session.drop(), 5);
}

/// What is taken out with a context: each session with its context, by session.
fn forget(cache: &mut SessionCache, ctx: usize) -> Vec<(usize, usize)> {
    let mut gone: Vec<(usize, usize)> = cache
        .forget_context(ctx)
        .into_iter()
        .map(|entry| {
            let (session, context) = entry.into_parts();
            (session.drop(), context.drop())
        })
        .collect();
    gone.sort();
    gone
}

#[test]
fn an_entry_holds_its_context() {
    let mut cache = session_cache();
    let name: &[u8] = b"a.example";
    let first = new_session_cb(&mut cache, false, &ssl(100, 1), Some(name), 11);
    assert_eq!(retained(&first), Some(1));
    let again = new_session_cb(&mut cache, false, &ssl(100, 1), Some(name), 12);
    assert_eq!(retained(&again), None);
    let other_host = new_session_cb(&mut cache, false, &ssl(100, 1), Some(b"b.example"), 13);
    assert_eq!(retained(&other_host), Some(1));
    let other_context = new_session_cb(&mut cache, false, &ssl(100, 2), Some(name), 14);
    assert_eq!(retained(&other_context), Some(2));
    let poisoned = new_session_cb(&mut cache, true, &ssl(100, 3), Some(name), 15);
    assert_eq!(retained(&poisoned), None);
    let declined = new_session_cb(&mut cache, false, &ssl(100, 3), None, 16);
    assert_eq!(retained(&declined), None);
}

#[test]
fn a_later_context_at_the_same_address_starts_afresh() {
    let mut cache = session_cache();
    assert_eq!(report(&mut cache, 1, "a.example", 11), (1, None));
    // The context goes: its entry is given up before it can be freed.
    assert_eq!(forget(&mut cache, 1), vec![(11, 1)]);
    // Another context stands at its address.
    assert_eq!(lookup(&cache, 1, "a.example"), Resume::Done(false));
    assert_eq!(report(&mut cache, 1, "a.example", 12), (1, None));
    assert_eq!(lookup(&cache, 1, "a.example"), Resume::SetSession { ssl: 200, session: 12 });
}

#[test]
fn forgetting_a_context_leaves_the_others() {
    let mut cache = session_cache();
    assert_eq!(report(&mut cache, 1, "a.example", 11), (1, None));
    assert_eq!(report(&mut cache, 2, "a.example", 21), (1, None));
    assert_eq!(report(&mut cache, 1, "b.example", 12), (1, None));
    assert_eq!(report(&mut cache, 2, "b.example", 22), (1, None));
    assert_eq!(report(&mut cache, 1, "a.example", 13), (1, Some(11)));
    assert_eq!(forget(&mut cache, 1), vec![(12, 1), (13, 1)]);
    assert_eq!(lookup(&cache, 1, "a.example"), Resume::Done(false));
    assert_eq!(lookup(&cache, 1, "b.example"), Resume::Done(false));
    assert_eq!(lookup(&cache, 2, "a.example"), Resume::SetSession { ssl: 200, session: 21 });
    assert_eq!(lookup(&cache, 2, "b.example"), Resume::SetSession { ssl: 200, session: 22 });
    assert_eq!(forget(&mut cache, 1), vec![]);
    assert_eq!(forget(&mut cache, 3), vec![]);
    assert_eq!(forget(&mut cache, 2), vec![(21, 2), (22, 2)]);
}

#[test]
fn context_references_balance() {
    let mut cache = session_cache();
    let mut taken = 0;
    for (host, session) in [("a", 7), ("b", 8), ("a", 9), ("c", 10)] {
        let reported =
            new_session_cb(&mut cache, false, &ssl(100, 1), Some(host.as_bytes()), session);
        if retained(&reported) == Some(1) {
            taken += 1;
        }
    }
    assert_eq!(taken, 3);
    assert_eq!(forget(&mut cache, 1).len(), 3);
}
