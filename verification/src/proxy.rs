//! A proxy hop: TLS to the proxy where the proxy is secured, then `CONNECT`.
//!
//! [`Tunneling`] is the hop as a state machine, and [`TunnelConnect`] is what a
//! proxy protocol implements to start one. A connector that drives a
//! [`Tunneling`] does not need to know the protocol.

use vstd::prelude::*;

use crate::async_impl;
use crate::async_impl::proxy::CreateTunnelErr;
use crate::c_openssl::adapter::TlsConfig;
use crate::error::{Cause, ErrorKind, HttpClientError, IoError};
use crate::sync_impl;
use crate::tunnel::{
    advance as exchange_advance, asks_for, connect_request, explains, law_request_text,
    lemma_exchange_step, means, opening,
    reply_added as exchange_reply_added, stands, text_of, ConnectTunnel, Exchange, Io,
    TunnelFailure, Verdict,
};

verus! {

/// The transport that carries the origin connection through a proxy, where `T`
/// is a TCP stream and `S` a TLS session to a proxy.
#[derive(Debug)]
pub enum ProxyTunnel<T, S> {
    /// Plain TCP: a direct connection or a tunnel through a plaintext proxy.
    Plain(T),
    /// The TLS session to a secured proxy.
    Tls(Box<S>),
}

/// The client that a hop is made for. The two word their errors differently.
#[derive(Clone, Copy, PartialEq, Eq, Structural, Debug)]
pub enum ClientKind {
    Async,
    Sync,
}

/// A TLS handshake to run.
pub struct Handshake {
    pub config: TlsConfig,
    /// The name that is sent as SNI and verified.
    pub server_name: String,
    /// Whether the public keys pinned for `server_name` in `config`, if any,
    /// bind this handshake.
    pub pinning: bool,
}

/// The mathematical value of a [`Handshake`].
pub struct HandshakeValue {
    pub config: TlsConfig,
    pub server_name: Seq<char>,
    pub pinning: bool,
}

impl View for Handshake {
    type V = HandshakeValue;

    open spec fn view(&self) -> HandshakeValue {
        HandshakeValue {
            config: self.config,
            server_name: self.server_name@,
            pinning: self.pinning,
        }
    }
}

/// Where a tunnel leads, and the credentials for the proxy.
pub struct Target {
    pub host: String,
    pub port: u16,
    pub auth: Option<String>,
}

/// The mathematical value of a [`Target`].
pub struct TargetValue {
    pub host: Seq<char>,
    pub port: u16,
    pub auth: Option<Seq<char>>,
}

impl View for Target {
    type V = TargetValue;

    open spec fn view(&self) -> TargetValue {
        TargetValue { host: self.host@, port: self.port, auth: text_of(self.auth) }
    }
}

/// The stage of a proxy hop: the work that is due, and the streams it is due on.
pub enum Stage<T, S, E> {
    /// The handshake with the proxy is to be run over `tcp`.
    SecureProxy { tcp: T, handshake: Handshake, target: Target },
    /// The exchange runs over plain TCP.
    Plain(ConnectTunnel<T, E>),
    /// The exchange runs inside the TLS session to the proxy.
    Tls(ConnectTunnel<S, E>),
    /// The hop is over.
    Done(Result<ProxyTunnel<T, S>, HttpClientError<E>>),
}

/// The mathematical value of a [`Stage`].
pub enum StageValue<T, S, E> {
    SecureProxy { tcp: T, handshake: HandshakeValue, target: TargetValue },
    Plain(Exchange<T, E>),
    Tls(Exchange<S, E>),
    Done(Result<ProxyTunnel<T, S>, HttpClientError<E>>),
}

impl<T, S, E> View for Stage<T, S, E> {
    type V = StageValue<T, S, E>;

    open spec fn view(&self) -> StageValue<T, S, E> {
        match *self {
            Stage::SecureProxy { tcp, handshake, target } => StageValue::SecureProxy {
                tcp,
                handshake: handshake@,
                target: target@,
            },
            Stage::Plain(exchange) => StageValue::Plain(exchange@),
            Stage::Tls(exchange) => StageValue::Tls(exchange@),
            Stage::Done(result) => StageValue::Done(result),
        }
    }
}

/// A proxy hop under way.
pub struct Tunneling<T, S, E> {
    pub kind: ClientKind,
    pub stage: Stage<T, S, E>,
}

/// The mathematical value of a [`Tunneling`].
pub struct Hop<T, S, E> {
    pub kind: ClientKind,
    pub stage: StageValue<T, S, E>,
}

impl<T, S, E> View for Tunneling<T, S, E> {
    type V = Hop<T, S, E>;

    open spec fn view(&self) -> Hop<T, S, E> {
        Hop { kind: self.kind, stage: self.stage@ }
    }
}

/// The error for a failed handshake with a proxy.
pub open spec fn handshake_error<E>(kind: ClientKind, e: E) -> HttpClientError<E> {
    HttpClientError {
        kind: ErrorKind::Connect,
        cause: match kind {
            ClientKind::Async => Cause::Tls(IoError::Other(e)),
            ClientKind::Sync => Cause::Error(e),
        },
    }
}

/// The error for an exchange that opened no tunnel.
pub open spec fn tunnel_error<E>(kind: ClientKind, failure: TunnelFailure<E>) -> HttpClientError<E> {
    match kind {
        ClientKind::Async => HttpClientError {
            kind: ErrorKind::Connect,
            cause: Cause::Io(async_impl::proxy::io_error_of(failure)),
        },
        ClientKind::Sync => sync_impl::proxy::client_error_of(failure),
    }
}

/// The stage of a hop whose exchange over plain TCP stands at `exchange`.
pub open spec fn plain_stage<T, S, E>(kind: ClientKind, exchange: Exchange<T, E>) -> StageValue<T, S, E> {
    match exchange {
        Exchange::Done(Ok(conn)) => StageValue::Done(Ok(ProxyTunnel::Plain(conn))),
        Exchange::Done(Err(failure)) => StageValue::Done(Err(tunnel_error(kind, failure))),
        _ => StageValue::Plain(exchange),
    }
}

/// The stage of a hop whose exchange inside TLS stands at `exchange`.
pub open spec fn tls_stage<T, S, E>(kind: ClientKind, exchange: Exchange<S, E>) -> StageValue<T, S, E> {
    match exchange {
        Exchange::Done(Ok(conn)) => StageValue::Done(Ok(ProxyTunnel::Tls(Box::new(conn)))),
        Exchange::Done(Err(failure)) => StageValue::Done(Err(tunnel_error(kind, failure))),
        _ => StageValue::Tls(exchange),
    }
}

/// The stage of a hop after the handshake with the proxy.
pub open spec fn secured_stage<T, S, E>(
    kind: ClientKind,
    target: TargetValue,
    result: Result<S, E>,
) -> StageValue<T, S, E> {
    match result {
        Ok(session) => StageValue::Tls(
            opening(session, target.host, target.port, target.auth),
        ),
        Err(e) => StageValue::Done(Err(handshake_error(kind, e))),
    }
}

/// A hop through a plaintext proxy, before anything was sent.
pub open spec fn plain_hop<T, S, E>(kind: ClientKind, tcp: T, target: TargetValue) -> Hop<T, S, E> {
    Hop {
        kind,
        stage: StageValue::Plain(opening(tcp, target.host, target.port, target.auth)),
    }
}

/// A hop through a secured proxy, before anything was sent.
pub open spec fn secured_hop<T, S, E>(
    kind: ClientKind,
    tcp: T,
    handshake: HandshakeValue,
    target: TargetValue,
) -> Hop<T, S, E> {
    Hop { kind, stage: StageValue::SecureProxy { tcp, handshake, target } }
}

/// A proxy protocol. To support another one, implement this trait.
pub trait TunnelConnect<T, S, E> {
    /// The hop that the protocol starts with.
    spec fn first_hop(&self, tcp: T, target: TargetValue) -> Hop<T, S, E>;

    /// Starts a hop over a freshly connected `tcp` to `host:port`.
    fn tunnel(&self, tcp: T, host: &str, port: u16, auth: Option<String>) -> (r: Tunneling<T, S, E>)
        ensures
            r@ == self.first_hop(
                tcp,
                TargetValue { host: host@, port, auth: text_of(auth) },
            ),
    ;
}

fn tunnel_error_for<E>(kind: ClientKind, failure: TunnelFailure<E>) -> (r: HttpClientError<E>)
    ensures
        r == tunnel_error(kind, failure),
{
    match kind {
        ClientKind::Async => HttpClientError::from_io_error(
            ErrorKind::Connect,
            async_impl::proxy::io_error(failure),
        ),
        ClientKind::Sync => sync_impl::proxy::client_error(failure),
    }
}

impl<T, S, E> Tunneling<T, S, E> {
    /// Goes on after the handshake with the proxy.
    pub fn on_secured(kind: ClientKind, target: Target, result: Result<S, E>) -> (r: Self)
        ensures
            r@ == (Hop::<T, S, E> { kind, stage: secured_stage(kind, target@, result) }),
    {
        let stage = match result {
            Ok(session) => {
                let Target { host, port, auth } = target;
                Stage::Tls(ConnectTunnel::open(session, host.as_str(), port, auth))
            },
            Err(e) => Stage::Done(
                Err(
                    match kind {
                        ClientKind::Async => HttpClientError::from_tls_error(
                            ErrorKind::Connect,
                            IoError::Other(e),
                        ),
                        ClientKind::Sync => HttpClientError::from_error(ErrorKind::Connect, e),
                    },
                ),
            ),
        };
        Tunneling { kind, stage }
    }

    /// Goes on after a step of the exchange over plain TCP.
    pub fn on_plain(kind: ClientKind, exchange: ConnectTunnel<T, E>) -> (r: Self)
        ensures
            r@ == (Hop::<T, S, E> { kind, stage: plain_stage(kind, exchange@) }),
    {
        let stage = match exchange {
            ConnectTunnel::Done(Ok(conn)) => Stage::Done(Ok(ProxyTunnel::Plain(conn))),
            ConnectTunnel::Done(Err(failure)) => Stage::Done(Err(tunnel_error_for(kind, failure))),
            exchange => Stage::Plain(exchange),
        };
        Tunneling { kind, stage }
    }

    /// Goes on after a step of the exchange inside TLS.
    pub fn on_tls(kind: ClientKind, exchange: ConnectTunnel<S, E>) -> (r: Self)
        ensures
            r@ == (Hop::<T, S, E> { kind, stage: tls_stage(kind, exchange@) }),
    {
        let stage = match exchange {
            ConnectTunnel::Done(Ok(conn)) => Stage::Done(Ok(ProxyTunnel::Tls(Box::new(conn)))),
            ConnectTunnel::Done(Err(failure)) => Stage::Done(Err(tunnel_error_for(kind, failure))),
            exchange => Stage::Tls(exchange),
        };
        Tunneling { kind, stage }
    }
}

/// What came of the work that a hop asked for.
pub enum HopEvent<S, E> {
    /// The result of the handshake with the proxy.
    ProxySecured(Result<S, E>),
    /// The result of a read or write of the exchange.
    Exchanged(Io<E>),
}

/// One step of a hop. A result that was not asked for changes nothing.
pub open spec fn advance<T, S, E>(hop: Hop<T, S, E>, event: HopEvent<S, E>) -> Hop<T, S, E> {
    let kind = hop.kind;
    match (hop.stage, event) {
        (
            StageValue::SecureProxy { tcp, handshake, target },
            HopEvent::ProxySecured(result),
        ) => Hop { kind, stage: secured_stage(kind, target, result) },
        (StageValue::Plain(exchange), HopEvent::Exchanged(io)) => Hop {
            kind,
            stage: plain_stage(kind, exchange_advance(exchange, io)),
        },
        (StageValue::Tls(exchange), HopEvent::Exchanged(io)) => Hop {
            kind,
            stage: tls_stage(kind, exchange_advance(exchange, io)),
        },
        _ => hop,
    }
}

/// A hop after a sequence of steps.
pub open spec fn run<T, S, E>(hop: Hop<T, S, E>, events: Seq<HopEvent<S, E>>) -> Hop<T, S, E>
    decreases events.len(),
{
    if events.len() == 0 {
        hop
    } else {
        advance(run(hop, events.drop_last()), events.last())
    }
}

/// What a hop has obtained so far.
pub struct Record<S> {
    /// The TLS session to the proxy.
    pub session: Option<S>,
    /// The bytes of the proxy's reply.
    pub reply: Seq<u8>,
}

/// Nothing obtained yet.
pub open spec fn blank<S>() -> Record<S> {
    Record { session: None, reply: Seq::empty() }
}

/// What one step adds to the record.
pub open spec fn note<T, S, E>(
    record: Record<S>,
    hop: Hop<T, S, E>,
    event: HopEvent<S, E>,
) -> Record<S> {
    match (hop.stage, event) {
        (
            StageValue::SecureProxy { tcp, handshake, target },
            HopEvent::ProxySecured(Ok(session)),
        ) => Record { session: Some(session), reply: record.reply },
        (StageValue::Plain(exchange), HopEvent::Exchanged(io)) => Record {
            session: record.session,
            reply: record.reply + exchange_reply_added(exchange, io),
        },
        (StageValue::Tls(exchange), HopEvent::Exchanged(io)) => Record {
            session: record.session,
            reply: record.reply + exchange_reply_added(exchange, io),
        },
        _ => record,
    }
}

/// What a hop has obtained after a sequence of steps.
pub open spec fn obtained<T, S, E>(hop: Hop<T, S, E>, events: Seq<HopEvent<S, E>>) -> Record<S>
    decreases events.len(),
{
    if events.len() == 0 {
        blank()
    } else {
        note(
            obtained(hop, events.drop_last()),
            run(hop, events.drop_last()),
            events.last(),
        )
    }
}

/// The request that asks for a tunnel to `target`.
pub open spec fn request_for(target: TargetValue) -> Seq<u8> {
    connect_request(target.host, target.port, target.auth)
}

/// How a hop stands that began as `plain_hop(kind, tcp, target)`: it never runs
/// a handshake, and it sends the request for `target` over `tcp` and nothing else.
pub open spec fn plain_stands<T, S, E>(
    hop: Hop<T, S, E>,
    kind: ClientKind,
    tcp: T,
    target: TargetValue,
    record: Record<S>,
) -> bool {
    &&& hop.kind == kind
    &&& record.session is None
    &&& match hop.stage {
        StageValue::SecureProxy { tcp: t, handshake: h, target: g } => false,
        StageValue::Plain(exchange) => exchange !is Done && stands(
            exchange,
            tcp,
            request_for(target),
            record.reply,
        ),
        StageValue::Tls(exchange) => false,
        StageValue::Done(Ok(tunnel)) => tunnel == ProxyTunnel::<T, S>::Plain(tcp) && means(
            record.reply,
            Verdict::Established,
        ),
        StageValue::Done(Err(error)) => exists|failure: TunnelFailure<E>| #[trigger]
            tunnel_error(kind, failure) == error && explains(failure, record.reply),
    }
}

/// How a hop stands that began as `secured_hop(kind, tcp, handshake, target)`:
/// until the handshake succeeded, nothing was exchanged; from then on it sends
/// the request for `target` inside the session that the handshake gave, and
/// nothing else anywhere.
pub open spec fn secured_stands<T, S, E>(
    hop: Hop<T, S, E>,
    kind: ClientKind,
    tcp: T,
    handshake: HandshakeValue,
    target: TargetValue,
    record: Record<S>,
) -> bool {
    &&& hop.kind == kind
    &&& match hop.stage {
        StageValue::SecureProxy { tcp: t, handshake: h, target: g } => t == tcp && h == handshake
            && g == target && record.session is None && record.reply.len() == 0,
        StageValue::Plain(exchange) => false,
        StageValue::Tls(exchange) => record.session matches Some(session) && exchange !is Done
            && stands(exchange, session, request_for(target), record.reply),
        StageValue::Done(Ok(tunnel)) => record.session matches Some(session) && tunnel
            == ProxyTunnel::<T, S>::Tls(Box::new(session)) && means(
            record.reply,
            Verdict::Established,
        ),
        StageValue::Done(Err(error)) => match record.session {
            None => record.reply.len() == 0 && exists|e: E| #[trigger]
                handshake_error(kind, e) == error,
            Some(session) => exists|failure: TunnelFailure<E>| #[trigger]
                tunnel_error(kind, failure) == error && explains(failure, record.reply),
        },
    }
}

/// One step keeps a hop through a plaintext proxy in line with its record.
pub proof fn lemma_plain_step<T, S, E>(
    hop: Hop<T, S, E>,
    kind: ClientKind,
    tcp: T,
    target: TargetValue,
    record: Record<S>,
    event: HopEvent<S, E>,
)
    requires
        plain_stands(hop, kind, tcp, target, record),
    ensures
        plain_stands(advance(hop, event), kind, tcp, target, note(record, hop, event)),
{
    if let (StageValue::Plain(exchange), HopEvent::Exchanged(io)) = (hop.stage, event) {
        lemma_exchange_step(exchange, tcp, request_for(target), record.reply, io);
        if let Exchange::Done(Err(failure)) = exchange_advance(exchange, io) {
            assert(tunnel_error(kind, failure) == tunnel_error(kind, failure));
        }
    }
}

/// One step keeps a hop through a secured proxy in line with its record.
pub proof fn lemma_secured_step<T, S, E>(
    hop: Hop<T, S, E>,
    kind: ClientKind,
    tcp: T,
    handshake: HandshakeValue,
    target: TargetValue,
    record: Record<S>,
    event: HopEvent<S, E>,
)
    requires
        secured_stands(hop, kind, tcp, handshake, target, record),
    ensures
        secured_stands(
            advance(hop, event),
            kind,
            tcp,
            handshake,
            target,
            note(record, hop, event),
        ),
{
    match (hop.stage, event) {
        (StageValue::Tls(exchange), HopEvent::Exchanged(io)) => {
            let session = record.session->0;
            lemma_exchange_step(exchange, session, request_for(target), record.reply, io);
            if let Exchange::Done(Err(failure)) = exchange_advance(exchange, io) {
                assert(tunnel_error(kind, failure) == tunnel_error(kind, failure));
            }
        },
        (StageValue::SecureProxy { tcp, handshake, target }, HopEvent::ProxySecured(Err(e))) => {
            assert(handshake_error(kind, e) == handshake_error(kind, e));
        },
        _ => {},
    }
}

/// A hop through a plaintext proxy talks over the TCP stream it was given and
/// runs no handshake. It succeeds exactly when the proxy accepted the tunnel,
/// and then hands back that same stream.
pub proof fn law_plain_hop<T, S, E>(
    kind: ClientKind,
    tcp: T,
    target: TargetValue,
    events: Seq<HopEvent<S, E>>,
)
    ensures
        ({
            let start = plain_hop::<T, S, E>(kind, tcp, target);
            plain_stands(run(start, events), kind, tcp, target, obtained(start, events))
        }),
    decreases events.len(),
{
    let start = plain_hop::<T, S, E>(kind, tcp, target);
    if events.len() > 0 {
        let before = events.drop_last();
        law_plain_hop(kind, tcp, target, before);
        lemma_plain_step(
            run(start, before),
            kind,
            tcp,
            target,
            obtained(start, before),
            events.last(),
        );
    }
}

/// A hop through a secured proxy sends nothing before the handshake with the
/// proxy succeeded, and sends everything inside the session that it gave. It
/// succeeds exactly when the proxy accepted the tunnel over that session, and
/// then hands back that same session. A failed handshake ends the hop.
pub proof fn law_secured_hop<T, S, E>(
    kind: ClientKind,
    tcp: T,
    handshake: HandshakeValue,
    target: TargetValue,
    events: Seq<HopEvent<S, E>>,
)
    ensures
        ({
            let start = secured_hop::<T, S, E>(kind, tcp, handshake, target);
            secured_stands(
                run(start, events),
                kind,
                tcp,
                handshake,
                target,
                obtained(start, events),
            )
        }),
    decreases events.len(),
{
    let start = secured_hop::<T, S, E>(kind, tcp, handshake, target);
    if events.len() > 0 {
        let before = events.drop_last();
        law_secured_hop(kind, tcp, handshake, target, before);
        lemma_secured_step(
            run(start, before),
            kind,
            tcp,
            handshake,
            target,
            obtained(start, before),
            events.last(),
        );
    }
}

/// A hop is a success exactly when the proxy accepted the tunnel. Any other
/// answer is reported as what it is, and every failure as one of establishing
/// the connection. `handshake` is there for a secured proxy.
pub proof fn law_hop_reports_the_answer<T, S, E>(
    kind: ClientKind,
    tcp: T,
    handshake: Option<HandshakeValue>,
    target: TargetValue,
    events: Seq<HopEvent<S, E>>,
)
    ensures
        ({
            let start = match handshake {
                Some(handshake) => secured_hop::<T, S, E>(kind, tcp, handshake, target),
                None => plain_hop::<T, S, E>(kind, tcp, target),
            };
            let end = run(start, events).stage;
            let reply = obtained(start, events).reply;
            let failed = |failure: TunnelFailure<E>|
                end == StageValue::<T, S, E>::Done(Err(tunnel_error(kind, failure)));
            &&& end matches StageValue::Done(Err(error)) ==> error.kind == ErrorKind::Connect
            &&& (end matches StageValue::Done(Ok(_))) <==> means(reply, Verdict::Established)
            &&& means(reply, Verdict::AuthenticationRequired) ==> failed(
                TunnelFailure::AuthenticationRequired,
            )
            &&& means(reply, Verdict::Refused) ==> failed(TunnelFailure::Refused)
            &&& means(reply, Verdict::HeadersTooLong) ==> failed(TunnelFailure::HeadersTooLong)
        }),
{
    match handshake {
        Some(handshake) => law_secured_hop(kind, tcp, handshake, target, events),
        None => law_plain_hop(kind, tcp, target, events),
    }
}

/// A secured proxy that accepts the tunnel is a success: if the handshake gives
/// `session`, the request is written and the proxy answers `reply`, the hop ends
/// with that session.
pub proof fn law_secured_hop_succeeds<T, S, E>(
    kind: ClientKind,
    tcp: T,
    handshake: HandshakeValue,
    target: TargetValue,
    session: S,
    reply: Seq<u8>,
)
    requires
        means(reply, Verdict::Established),
    ensures
        ({
            let events = seq![
                HopEvent::<S, E>::ProxySecured(Ok(session)),
                HopEvent::<S, E>::Exchanged(Io::Wrote(Ok(()))),
                HopEvent::<S, E>::Exchanged(Io::Got(Ok(reply))),
            ];
            run(secured_hop::<T, S, E>(kind, tcp, handshake, target), events) == (Hop::<T, S, E> {
                kind,
                stage: StageValue::Done(Ok(ProxyTunnel::Tls(Box::new(session)))),
            })
        }),
{
    let first = HopEvent::<S, E>::ProxySecured(Ok(session));
    let second = HopEvent::<S, E>::Exchanged(Io::Wrote(Ok(())));
    let third = HopEvent::<S, E>::Exchanged(Io::Got(Ok(reply)));
    let events = seq![first, second, third];
    assert(events.drop_last() =~= seq![first, second]);
    assert(seq![first, second].drop_last() =~= seq![first]);
    assert(seq![first].drop_last() =~= seq![]);
    assert(Seq::<u8>::empty() + reply =~= reply);
    reveal_with_fuel(run, 4);
}

/// A plaintext proxy that accepts the tunnel is a success: if the request is
/// written and the proxy answers `reply`, the hop ends with the TCP stream.
pub proof fn law_plain_hop_succeeds<T, S, E>(
    kind: ClientKind,
    tcp: T,
    target: TargetValue,
    reply: Seq<u8>,
)
    requires
        means(reply, Verdict::Established),
    ensures
        ({
            let events = seq![
                HopEvent::<S, E>::Exchanged(Io::Wrote(Ok(()))),
                HopEvent::<S, E>::Exchanged(Io::Got(Ok(reply))),
            ];
            run(plain_hop::<T, S, E>(kind, tcp, target), events) == (Hop::<T, S, E> {
                kind,
                stage: StageValue::Done(Ok(ProxyTunnel::Plain(tcp))),
            })
        }),
{
    let first = HopEvent::<S, E>::Exchanged(Io::Wrote(Ok(())));
    let second = HopEvent::<S, E>::Exchanged(Io::Got(Ok(reply)));
    let events = seq![first, second];
    assert(events.drop_last() =~= seq![first]);
    assert(seq![first].drop_last() =~= seq![]);
    assert(Seq::<u8>::empty() + reply =~= reply);
    reveal_with_fuel(run, 3);
}

/// What each client reports, letter by letter. All failures are of establishing
/// the connection. The asynchronous client passes an error of the transport on
/// and names a tunnel error for the rest; the synchronous client has a message
/// of its own for each.
pub proof fn law_failures_are_reported<E>(e: E)
    ensures
        ({
            let report = |cause: Cause<E>| HttpClientError::<E> { kind: ErrorKind::Connect, cause };
            let tunnel = |error: CreateTunnelErr| report(Cause::Io(IoError::Tunnel(error)));
            let (a, s) = (ClientKind::Async, ClientKind::Sync);
            &&& handshake_error(a, e) == report(Cause::Tls(IoError::Other(e)))
            &&& handshake_error(s, e) == report(Cause::Error(e))
            &&& tunnel_error(a, TunnelFailure::Io(e)) == report(Cause::Io(IoError::Transport(e)))
            &&& tunnel_error(a, TunnelFailure::<E>::Closed) == tunnel(CreateTunnelErr::Unsuccessful)
            &&& tunnel_error(a, TunnelFailure::<E>::Refused) == tunnel(
                CreateTunnelErr::Unsuccessful,
            )
            &&& tunnel_error(a, TunnelFailure::<E>::HeadersTooLong) == tunnel(
                CreateTunnelErr::ProxyHeadersTooLong,
            )
            &&& tunnel_error(a, TunnelFailure::<E>::AuthenticationRequired) == tunnel(
                CreateTunnelErr::ProxyAuthenticationRequired,
            )
            &&& tunnel_error(s, TunnelFailure::Io(e)) == report(Cause::Error(e))
            &&& tunnel_error(s, TunnelFailure::<E>::Closed) == report(
                Cause::Text("Error receiving from proxy"),
            )
            &&& tunnel_error(s, TunnelFailure::<E>::Refused) == report(
                Cause::Text("unsuccessful tunnel"),
            )
            &&& tunnel_error(s, TunnelFailure::<E>::HeadersTooLong) == report(
                Cause::Text("proxy headers too long for tunnel"),
            )
            &&& tunnel_error(s, TunnelFailure::<E>::AuthenticationRequired) == report(
                Cause::Text("proxy authentication required"),
            )
        }),
{
}

/// A hop through a plaintext proxy begins with the request for its target on the
/// bare TCP stream. A hop through a secured proxy begins with the handshake that
/// it was given; once that gives a session, the request for the same target is
/// due inside that session, and a failure of it ends the hop.
pub proof fn law_hop_begins<T, S, E>(
    kind: ClientKind,
    tcp: T,
    handshake: HandshakeValue,
    target: TargetValue,
    session: S,
    e: E,
)
    ensures
        ({
            let request = connect_request(target.host, target.port, target.auth);
            &&& plain_hop::<T, S, E>(kind, tcp, target) == (Hop::<T, S, E> {
                kind,
                stage: StageValue::Plain(Exchange::Write { conn: tcp, request }),
            })
            &&& secured_hop::<T, S, E>(kind, tcp, handshake, target) == (Hop::<T, S, E> {
                kind,
                stage: StageValue::SecureProxy { tcp, handshake, target },
            })
            &&& secured_stage::<T, S, E>(kind, target, Ok(session)) == StageValue::<T, S, E>::Tls(
                Exchange::Write { conn: session, request },
            )
            &&& secured_stage::<T, S, E>(kind, target, Err(e)) == StageValue::<T, S, E>::Done(
                Err(
                    HttpClientError {
                        kind: ErrorKind::Connect,
                        cause: if kind == ClientKind::Async {
                            Cause::Tls(IoError::Other(e))
                        } else {
                            Cause::Error(e)
                        },
                    },
                ),
            )
        }),
{
}

/// A hop goes on as its exchange does, on the same connection, until the exchange
/// is over. The connection is then the tunnel: the TCP stream as such, a session
/// as such.
pub proof fn law_hop_goes_on<T, S, E>(
    kind: ClientKind,
    tcp: T,
    session: S,
    plain: Exchange<T, E>,
    inside: Exchange<S, E>,
    failure: TunnelFailure<E>,
)
    ensures
        plain !is Done ==> plain_stage::<T, S, E>(kind, plain) == StageValue::<T, S, E>::Plain(
            plain,
        ),
        plain_stage::<T, S, E>(kind, Exchange::Done(Ok(tcp))) == StageValue::<T, S, E>::Done(
            Ok(ProxyTunnel::Plain(tcp)),
        ),
        plain_stage::<T, S, E>(kind, Exchange::Done(Err(failure))) == StageValue::<T, S, E>::Done(
            Err(tunnel_error(kind, failure)),
        ),
        inside !is Done ==> tls_stage::<T, S, E>(kind, inside) == StageValue::<T, S, E>::Tls(
            inside,
        ),
        tls_stage::<T, S, E>(kind, Exchange::Done(Ok(session))) == StageValue::<T, S, E>::Done(
            Ok(ProxyTunnel::Tls(Box::new(session))),
        ),
        tls_stage::<T, S, E>(kind, Exchange::Done(Err(failure))) == StageValue::<T, S, E>::Done(
            Err(tunnel_error(kind, failure)),
        ),
{
}

/// Whether some event is a handshake with the proxy that gave `session`.
pub open spec fn gave_session<S, E>(events: Seq<HopEvent<S, E>>, session: S) -> bool {
    exists|i: int|
        0 <= i < events.len() && #[trigger] events[i] == HopEvent::<S, E>::ProxySecured(Ok(session))
}

proof fn lemma_session_was_given<T, S, E>(hop: Hop<T, S, E>, events: Seq<HopEvent<S, E>>)
    ensures
        obtained(hop, events).session matches Some(session) ==> gave_session(events, session),
    decreases events.len(),
{
    if events.len() > 0 {
        let past = events.drop_last();
        lemma_session_was_given(hop, past);
        if let Some(session) = obtained(hop, events).session {
            if obtained(hop, past).session == Some(session) {
                let i = choose|i: int|
                    0 <= i < past.len() && #[trigger] past[i] == HopEvent::<S, E>::ProxySecured(
                        Ok(session),
                    );
                assert(events[i] == past[i]);
            } else {
                assert(events[events.len() - 1] == HopEvent::<S, E>::ProxySecured(Ok(session)));
            }
        }
    }
}

/// Whether a hop keeps to TLS: it never speaks over the bare TCP stream; it waits
/// for the handshake, or failed, until a handshake gave a session; and what it
/// sends, it sends inside such a session, and it is `request` for as long as that
/// is still to be written.
pub open spec fn keeps_to_tls<T, S, E>(
    stage: StageValue<T, S, E>,
    events: Seq<HopEvent<S, E>>,
    request: Seq<u8>,
) -> bool {
    match stage {
        StageValue::SecureProxy { tcp, handshake, target } => true,
        StageValue::Plain(exchange) => false,
        StageValue::Tls(Exchange::Write { conn, request: r }) => gave_session(events, conn) && r
            == request,
        StageValue::Tls(Exchange::Read { conn, received }) => gave_session(events, conn),
        StageValue::Tls(Exchange::Done(end)) => false,
        StageValue::Done(Ok(ProxyTunnel::Tls(session))) => gave_session(events, *session),
        StageValue::Done(Ok(ProxyTunnel::Plain(tcp))) => false,
        StageValue::Done(Err(error)) => true,
    }
}

/// A hop that begins with a handshake keeps to TLS, whatever happens.
pub proof fn law_secured_hop_keeps_to_tls<T, S, E>(
    start: Hop<T, S, E>,
    events: Seq<HopEvent<S, E>>,
)
    requires
        start.stage is SecureProxy,
    ensures
        ({
            let target = start.stage->target;
            keeps_to_tls(
                run(start, events).stage,
                events,
                connect_request(target.host, target.port, target.auth),
            )
        }),
{
    let tcp = start.stage->SecureProxy_tcp;
    let handshake = start.stage->handshake;
    let target = start.stage->target;
    law_secured_hop(start.kind, tcp, handshake, target, events);
    lemma_session_was_given(start, events);
}

/// The mathematical value of a hop shows all that it holds.
pub proof fn law_hop_value<T, S, E>(
    kind: ClientKind,
    stage: Stage<T, S, E>,
    tcp: T,
    handshake: Handshake,
    target: Target,
    plain: ConnectTunnel<T, E>,
    inside: ConnectTunnel<S, E>,
    end: Result<ProxyTunnel<T, S>, HttpClientError<E>>,
)
    ensures
        (Tunneling { kind, stage })@ == (Hop::<T, S, E> { kind, stage: stage@ }),
        (Stage::<T, S, E>::SecureProxy { tcp, handshake, target })@ == (StageValue::<
            T,
            S,
            E,
        >::SecureProxy { tcp, handshake: handshake@, target: target@ }),
        Stage::<T, S, E>::Plain(plain)@ == StageValue::<T, S, E>::Plain(plain@),
        Stage::<T, S, E>::Tls(inside)@ == StageValue::<T, S, E>::Tls(inside@),
        Stage::<T, S, E>::Done(end)@ == StageValue::<T, S, E>::Done(end),
        handshake@.config == handshake.config,
        handshake@.server_name == handshake.server_name@,
        handshake@.pinning == handshake.pinning,
        target@.host == target.host@,
        target@.port == target.port,
        target@.auth is Some <==> target.auth is Some,
        target.auth matches Some(value) ==> target@.auth == Some(value@),
{
}

/// After the handshake with the proxy, the request for the target is due inside the
/// session that it gave; a failure of it is the end, with its error.
pub proof fn law_on_secured<T, S, E>(
    kind: ClientKind,
    target: Target,
    result: Result<S, E>,
    r: Tunneling<T, S, E>,
)
    requires
        call_ensures(Tunneling::<T, S, E>::on_secured, (kind, target, result), r),
    ensures
        r.kind == kind,
        result matches Ok(session) ==> (r.stage matches Stage::Tls(
            ConnectTunnel::Write { conn, request },
        ) && conn == session && (target.auth matches Some(value) ==> asks_for(
            request@,
            target.host@,
            target.port,
            Some(value@),
        )) && (target.auth is None ==> asks_for(request@, target.host@, target.port, None))),
        result matches Err(e) ==> (r.stage matches Stage::Done(Err(error)) && error.kind
            == ErrorKind::Connect && (kind == ClientKind::Async ==> error.cause == Cause::<E>::Tls(
            IoError::Other(e),
        )) && (kind == ClientKind::Sync ==> error.cause == Cause::<E>::Error(e))),
{
    law_request_text(target.host@, target.port, target@.auth);
}

/// A hop over plain TCP goes on with its exchange; the TCP stream is the tunnel when
/// that succeeds.
pub proof fn law_on_plain<T, S, E>(
    kind: ClientKind,
    exchange: ConnectTunnel<T, E>,
    r: Tunneling<T, S, E>,
)
    requires
        call_ensures(Tunneling::<T, S, E>::on_plain, (kind, exchange), r),
    ensures
        r.kind == kind,
        exchange !is Done ==> (r.stage matches Stage::Plain(same) && same@ == exchange@),
        exchange matches ConnectTunnel::Done(Ok(tcp)) ==> r.stage == Stage::<T, S, E>::Done(
            Ok(ProxyTunnel::Plain(tcp)),
        ),
        exchange matches ConnectTunnel::Done(Err(failure)) ==> (r.stage matches Stage::Done(
            Err(error),
        ) && is_report(kind, failure, error)),
{
}

/// A hop inside TLS goes on with its exchange; the session is the tunnel when that
/// succeeds.
pub proof fn law_on_tls<T, S, E>(
    kind: ClientKind,
    exchange: ConnectTunnel<S, E>,
    r: Tunneling<T, S, E>,
)
    requires
        call_ensures(Tunneling::<T, S, E>::on_tls, (kind, exchange), r),
    ensures
        r.kind == kind,
        exchange !is Done ==> (r.stage matches Stage::Tls(same) && same@ == exchange@),
        exchange matches ConnectTunnel::Done(Ok(session)) ==> r.stage == Stage::<T, S, E>::Done(
            Ok(ProxyTunnel::Tls(Box::new(session))),
        ),
        exchange matches ConnectTunnel::Done(Err(failure)) ==> (r.stage matches Stage::Done(
            Err(error),
        ) && is_report(kind, failure, error)),
{
}

/// Whether `error` is how a client reports `failure`.
pub open spec fn is_report<E>(
    kind: ClientKind,
    failure: TunnelFailure<E>,
    error: HttpClientError<E>,
) -> bool {
    error.kind == ErrorKind::Connect && error.cause == match (kind, failure) {
        (ClientKind::Async, TunnelFailure::Io(e)) => Cause::<E>::Io(IoError::Transport(e)),
        (ClientKind::Async, TunnelFailure::Closed) => Cause::Io(
            IoError::Tunnel(CreateTunnelErr::Unsuccessful),
        ),
        (ClientKind::Async, TunnelFailure::Refused) => Cause::Io(
            IoError::Tunnel(CreateTunnelErr::Unsuccessful),
        ),
        (ClientKind::Async, TunnelFailure::HeadersTooLong) => Cause::Io(
            IoError::Tunnel(CreateTunnelErr::ProxyHeadersTooLong),
        ),
        (ClientKind::Async, TunnelFailure::AuthenticationRequired) => Cause::Io(
            IoError::Tunnel(CreateTunnelErr::ProxyAuthenticationRequired),
        ),
        (ClientKind::Sync, TunnelFailure::Io(e)) => Cause::Error(e),
        (ClientKind::Sync, TunnelFailure::Closed) => Cause::Text("Error receiving from proxy"),
        (ClientKind::Sync, TunnelFailure::Refused) => Cause::Text("unsuccessful tunnel"),
        (ClientKind::Sync, TunnelFailure::HeadersTooLong) => Cause::Text(
            "proxy headers too long for tunnel",
        ),
        (ClientKind::Sync, TunnelFailure::AuthenticationRequired) => Cause::Text(
            "proxy authentication required",
        ),
    }
}

} // verus!
