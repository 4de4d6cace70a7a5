//! The connector of the synchronous client.
//!
//! [`Connecting`] is the establishment of one connection as a state machine: TCP
//! to the origin or to the proxy, the hop through the proxy, and TLS to the
//! origin, as far as the request needs them.

use vstd::prelude::*;

use crate::c_openssl::adapter::TlsConfig;
use crate::config::{ConnectorConfig, HeaderValue, ProxyInfo, Scheme, Uri};
use crate::error::{Cause, ErrorKind, HttpClientError};
use crate::proxy::{
    advance as hop_advance, blank, handshake_error, lemma_plain_step, lemma_secured_step,
    note as hop_note, plain_hop, plain_stands, secured_hop, secured_stands, tunnel_error,
    ClientKind, Handshake, HandshakeValue, Hop, HopEvent, ProxyTunnel, Record, Stage, StageValue,
    Target, TargetValue, TunnelConnect, Tunneling,
};
use crate::sync_impl::proxy::{client_error_of, HttpProxyTunnel, HttpsProxyTunnel};
use crate::tunnel::{
    asks_for, connect_request, credentials_line, explains, law_request_text, means, occurs,
    ConnectTunnel, Exchange, Io, TunnelFailure, Verdict,
};

verus! {

/// The proxy hop of a connection.
pub enum ProxyKind {
    /// No proxy.
    Direct,
    /// A plaintext proxy.
    Http,
    /// A secured proxy.
    Https { config: TlsConfig, proxy_host: String },
}

/// The mathematical value of a [`ProxyKind`].
pub enum ProxyKindValue {
    Direct,
    Http,
    Https { config: TlsConfig, proxy_host: Seq<char> },
}

impl View for ProxyKind {
    type V = ProxyKindValue;

    open spec fn view(&self) -> ProxyKindValue {
        match *self {
            ProxyKind::Direct => ProxyKindValue::Direct,
            ProxyKind::Http => ProxyKindValue::Http,
            ProxyKind::Https { config, proxy_host } => ProxyKindValue::Https {
                config,
                proxy_host: proxy_host@,
            },
        }
    }
}

/// What a connection needs once TCP is up.
pub struct Route {
    pub scheme: Scheme,
    /// Where a tunnel has to lead.
    pub target: Target,
    pub proxy: ProxyKind,
    /// The handshake with the origin.
    pub origin: Handshake,
}

/// The mathematical value of a [`Route`].
pub struct RouteValue {
    pub scheme: Scheme,
    pub target: TargetValue,
    pub proxy: ProxyKindValue,
    pub origin: HandshakeValue,
}

impl View for Route {
    type V = RouteValue;

    open spec fn view(&self) -> RouteValue {
        RouteValue {
            scheme: self.scheme,
            target: self.target@,
            proxy: self.proxy@,
            origin: self.origin@,
        }
    }
}

/// A connection that is up: `M` carries a plain HTTP conversation, or `O` is the
/// TLS session to the origin.
pub enum MixStream<M, O> {
    Http(M),
    Https(O),
}

/// A connection under way: the work that is due, and the streams it is due on.
/// `T` is a TCP stream, `S` a TLS session to a proxy, `O` one to an origin, and
/// work fails with an `E`.
pub enum Connecting<T, S, O, E> {
    /// A TCP connection to `addr` is to be opened.
    Dial { addr: String, route: Route },
    /// The handshake with the proxy is to be run over `tcp`; the conversation
    /// then runs inside it.
    SecureProxy { tcp: T, handshake: Handshake },
    /// The hop through the proxy is under way.
    Tunnel { hop: Tunneling<T, S, E>, origin: Handshake },
    /// The handshake with the origin is to be run over `transport`.
    SecureOrigin { transport: ProxyTunnel<T, S>, handshake: Handshake },
    /// The connection is up, or failed.
    Done(Result<MixStream<ProxyTunnel<T, S>, O>, HttpClientError<E>>),
}

/// The mathematical value of a [`Connecting`].
pub enum Connection<T, S, O, E> {
    Dial { addr: Seq<char>, route: RouteValue },
    SecureProxy { tcp: T, handshake: HandshakeValue },
    Tunnel { hop: Hop<T, S, E>, origin: HandshakeValue },
    SecureOrigin { transport: ProxyTunnel<T, S>, handshake: HandshakeValue },
    Done(Result<MixStream<ProxyTunnel<T, S>, O>, HttpClientError<E>>),
}

impl<T, S, O, E> View for Connecting<T, S, O, E> {
    type V = Connection<T, S, O, E>;

    open spec fn view(&self) -> Connection<T, S, O, E> {
        match *self {
            Connecting::Dial { addr, route } => Connection::Dial { addr: addr@, route: route@ },
            Connecting::SecureProxy { tcp, handshake } => Connection::SecureProxy {
                tcp,
                handshake: handshake@,
            },
            Connecting::Tunnel { hop, origin } => Connection::Tunnel {
                hop: hop@,
                origin: origin@,
            },
            Connecting::SecureOrigin { transport, handshake } => Connection::SecureOrigin {
                transport,
                handshake: handshake@,
            },
            Connecting::Done(result) => Connection::Done(result),
        }
    }
}

/// The error for a failure of the outside world.
pub open spec fn connect_error<E>(e: E) -> HttpClientError<E> {
    HttpClientError { kind: ErrorKind::Connect, cause: Cause::Error(e) }
}

/// The handshake with a secured proxy.
pub open spec fn proxy_handshake(config: TlsConfig, proxy_host: Seq<char>) -> HandshakeValue {
    HandshakeValue { config, server_name: proxy_host, pinning: false }
}

/// Where TCP has to lead: to the proxy if there is one, else to the origin.
pub open spec fn dial_addr(uri: Uri, proxy: Option<ProxyInfo>) -> Seq<char> {
    match proxy {
        Some(info) => info.authority@,
        None => uri.authority->0@,
    }
}

/// The route to the origin that `uri` names.
pub open spec fn route_to(uri: Uri, proxy: Option<ProxyInfo>, tls: TlsConfig) -> RouteValue {
    RouteValue {
        scheme: uri.scheme->0,
        target: TargetValue {
            host: uri.host->0@,
            port: uri.port->0,
            auth: match proxy {
                Some(info) => info.credentials(),
                None => None,
            },
        },
        proxy: match proxy {
            None => ProxyKindValue::Direct,
            Some(info) => if info.is_secured() {
                ProxyKindValue::Https { config: info.tls_settings(), proxy_host: info.host@ }
            } else {
                ProxyKindValue::Http
            },
        },
        origin: HandshakeValue { config: tls, server_name: uri.host->0@, pinning: false },
    }
}

/// The connection after TCP is up, or failed. An HTTP conversation through a
/// secured proxy runs inside TLS to the proxy and needs no tunnel.
pub open spec fn after_dial<T, S, O, E>(route: RouteValue, result: Result<T, E>) -> Connection<T, S, O, E> {
    match result {
        Err(e) => Connection::Done(Err(connect_error(e))),
        Ok(tcp) => match (route.scheme, route.proxy) {
            (Scheme::HTTP, ProxyKindValue::Https { config, proxy_host }) => Connection::SecureProxy {
                tcp,
                handshake: proxy_handshake(config, proxy_host),
            },
            (Scheme::HTTP, _) => Connection::Done(Ok(MixStream::Http(ProxyTunnel::Plain(tcp)))),
            (Scheme::HTTPS, ProxyKindValue::Direct) => Connection::SecureOrigin {
                transport: ProxyTunnel::Plain(tcp),
                handshake: route.origin,
            },
            (Scheme::HTTPS, ProxyKindValue::Http) => Connection::Tunnel {
                hop: plain_hop(ClientKind::Sync, tcp, route.target),
                origin: route.origin,
            },
            (Scheme::HTTPS, ProxyKindValue::Https { config, proxy_host }) => Connection::Tunnel {
                hop: secured_hop(
                    ClientKind::Sync,
                    tcp,
                    proxy_handshake(config, proxy_host),
                    route.target,
                ),
                origin: route.origin,
            },
        },
    }
}

/// The connection after the handshake with a proxy that is not tunnelled.
pub open spec fn after_proxy_secured<T, S, O, E>(result: Result<S, E>) -> Connection<T, S, O, E> {
    match result {
        Ok(session) => Connection::Done(Ok(MixStream::Http(ProxyTunnel::Tls(Box::new(session))))),
        Err(e) => Connection::Done(Err(connect_error(e))),
    }
}

/// The connection whose hop through the proxy stands at `hop`.
pub open spec fn after_hop<T, S, O, E>(origin: HandshakeValue, hop: Hop<T, S, E>) -> Connection<T, S, O, E> {
    match hop.stage {
        StageValue::Done(Ok(transport)) => Connection::SecureOrigin { transport, handshake: origin },
        StageValue::Done(Err(error)) => Connection::Done(Err(error)),
        _ => Connection::Tunnel { hop, origin },
    }
}

/// The connection after the handshake with the origin.
pub open spec fn after_origin_secured<T, S, O, E>(result: Result<O, E>) -> Connection<T, S, O, E> {
    match result {
        Ok(session) => Connection::Done(Ok(MixStream::Https(session))),
        Err(e) => Connection::Done(Err(connect_error(e))),
    }
}

/// The proxy that was selected, if one was.
pub open spec fn selected(config: ConnectorConfig, matched: Option<usize>) -> Option<ProxyInfo> {
    match matched {
        Some(i) => Some(config.proxies@[i as int]),
        None => None,
    }
}

/// Creates HTTP connections synchronously.
pub struct HttpConnector {
    config: ConnectorConfig,
}

impl HttpConnector {
    /// The settings of the connector.
    pub closed spec fn settings(self) -> ConnectorConfig {
        self.config
    }

    /// Creates a new `HttpConnector`.
    pub fn new(config: ConnectorConfig) -> (r: HttpConnector)
        ensures
            r.settings() == config,
    {
        HttpConnector { config }
    }

    /// The settings of the connector.
    pub fn config(&self) -> (r: &ConnectorConfig)
        ensures
            *r == self.settings(),
    {
        &self.config
    }

    /// Where to open TCP for a connection to `uri`. `matched` is the index of
    /// the proxy that the selection rules pick for `uri`, if any. This is all
    /// that a client without TLS needs.
    pub fn connect_addr(&self, uri: &Uri, matched: Option<usize>) -> (addr: String)
        requires
            matched matches Some(i) ==> i < self.settings().proxies@.len(),
            matched is None ==> uri.authority is Some,
        ensures
            addr@ == dial_addr(*uri, selected(self.settings(), matched)),
    {
        match matched {
            Some(i) => self.config.proxies[i].authority.clone(),
            None => uri.authority.as_ref().unwrap().clone(),
        }
    }

    /// Starts a connection to `uri`. `matched` is the index of the proxy that
    /// the selection rules pick for `uri`, if any.
    pub fn connect<T, S, O, E>(&self, uri: &Uri, matched: Option<usize>) -> (r: Connecting<T, S, O, E>)
        requires
            uri.is_complete(),
            matched matches Some(i) ==> i < self.settings().proxies@.len(),
        ensures
            ({
                let proxy = selected(self.settings(), matched);
                r@ == Connection::<T, S, O, E>::Dial {
                    addr: dial_addr(*uri, proxy),
                    route: route_to(*uri, proxy, self.settings().tls),
                }
            }),
    {
        let addr = self.connect_addr(uri, matched);
        let mut auth: Option<String> = None;
        let mut proxy = ProxyKind::Direct;
        if let Some(i) = matched {
            let info = &self.config.proxies[i];
            auth = match &info.basic_auth {
                Some(value) => match &value.text {
                    Some(text) => Some(text.clone()),
                    None => None,
                },
                None => None,
            };
            proxy = if info.is_tls() {
                ProxyKind::Https { config: info.proxy_tls_config(), proxy_host: info.proxy_host() }
            } else {
                ProxyKind::Http
            };
        }
        let host: &String = uri.host.as_ref().unwrap();
        let target = Target { host: host.clone(), port: uri.port.unwrap(), auth };
        let origin = Handshake {
            config: self.config.tls,
            server_name: host.clone(),
            pinning: false,
        };
        let route = Route { scheme: uri.scheme.unwrap(), target, proxy, origin };
        Connecting::Dial { addr, route }
    }
}

impl Default for HttpConnector {
    fn default() -> (r: Self)
        ensures
            r.settings().proxies@.len() == 0,
            r.settings().tls == TlsConfig::Standard,
    {
        Self::new(ConnectorConfig::default())
    }
}

impl<T, S, O, E> Connecting<T, S, O, E> {
    /// Goes on after TCP is up, or failed.
    pub fn on_dialed(route: Route, result: Result<T, E>) -> (r: Self)
        ensures
            r@ == after_dial::<T, S, O, E>(route@, result),
    {
        let tcp = match result {
            Ok(tcp) => tcp,
            Err(e) => return Connecting::Done(
                Err(HttpClientError::from_error(ErrorKind::Connect, e)),
            ),
        };
        let Route { scheme, target, proxy, origin } = route;
        match scheme {
            Scheme::HTTP => match proxy {
                ProxyKind::Https { config, proxy_host } => Connecting::SecureProxy {
                    tcp,
                    handshake: Handshake { config, server_name: proxy_host, pinning: false },
                },
                _ => Connecting::Done(Ok(MixStream::Http(ProxyTunnel::Plain(tcp)))),
            },
            Scheme::HTTPS => {
                let Target { host, port, auth } = target;
                match proxy {
                    ProxyKind::Direct => Connecting::SecureOrigin {
                        transport: ProxyTunnel::Plain(tcp),
                        handshake: origin,
                    },
                    ProxyKind::Http => Connecting::Tunnel {
                        hop: HttpProxyTunnel.tunnel(tcp, host.as_str(), port, auth),
                        origin,
                    },
                    ProxyKind::Https { config, proxy_host } => {
                        let protocol = HttpsProxyTunnel { config, proxy_host };
                        Connecting::Tunnel {
                            hop: protocol.tunnel(tcp, host.as_str(), port, auth),
                            origin,
                        }
                    },
                }
            },
        }
    }

    /// Goes on after the handshake with a proxy that is not tunnelled.
    pub fn on_proxy_secured(result: Result<S, E>) -> (r: Self)
        ensures
            r@ == after_proxy_secured::<T, S, O, E>(result),
    {
        match result {
            Ok(session) => Connecting::Done(
                Ok(MixStream::Http(ProxyTunnel::Tls(Box::new(session)))),
            ),
            Err(e) => Connecting::Done(Err(HttpClientError::from_error(ErrorKind::Connect, e))),
        }
    }

    /// Goes on after a step of the hop through the proxy.
    pub fn on_hop(origin: Handshake, hop: Tunneling<T, S, E>) -> (r: Self)
        ensures
            r@ == after_hop::<T, S, O, E>(origin@, hop@),
    {
        let Tunneling { kind, stage } = hop;
        match stage {
            Stage::Done(Ok(transport)) => Connecting::SecureOrigin { transport, handshake: origin },
            Stage::Done(Err(error)) => Connecting::Done(Err(error)),
            stage => Connecting::Tunnel { hop: Tunneling { kind, stage }, origin },
        }
    }

    /// Goes on after the handshake with the origin.
    pub fn on_origin_secured(result: Result<O, E>) -> (r: Self)
        ensures
            r@ == after_origin_secured::<T, S, O, E>(result),
    {
        match result {
            Ok(session) => Connecting::Done(Ok(MixStream::Https(session))),
            Err(e) => Connecting::Done(Err(HttpClientError::from_error(ErrorKind::Connect, e))),
        }
    }
}

/// What came of the work that a connection asked for.
pub enum ConnectEvent<T, S, O, E> {
    /// The result of opening TCP.
    Dialed(Result<T, E>),
    /// The result of a step of the hop through the proxy.
    Hop(HopEvent<S, E>),
    /// The result of the handshake with the origin.
    OriginSecured(Result<O, E>),
}

/// One step of a connection. A result that was not asked for changes nothing.
pub open spec fn advance<T, S, O, E>(
    c: Connection<T, S, O, E>,
    event: ConnectEvent<T, S, O, E>,
) -> Connection<T, S, O, E> {
    match (c, event) {
        (Connection::Dial { addr, route }, ConnectEvent::Dialed(result)) => after_dial(
            route,
            result,
        ),
        (
            Connection::SecureProxy { tcp, handshake },
            ConnectEvent::Hop(HopEvent::ProxySecured(result)),
        ) => after_proxy_secured(result),
        (Connection::Tunnel { hop, origin }, ConnectEvent::Hop(event)) => after_hop(
            origin,
            hop_advance(hop, event),
        ),
        (
            Connection::SecureOrigin { transport, handshake },
            ConnectEvent::OriginSecured(result),
        ) => after_origin_secured(result),
        _ => c,
    }
}

/// A connection after a sequence of steps.
pub open spec fn run<T, S, O, E>(
    c: Connection<T, S, O, E>,
    events: Seq<ConnectEvent<T, S, O, E>>,
) -> Connection<T, S, O, E>
    decreases events.len(),
{
    if events.len() == 0 {
        c
    } else {
        advance(run(c, events.drop_last()), events.last())
    }
}

/// What a connection has obtained so far.
pub struct Progress<T, S, O> {
    pub tcp: Option<T>,
    pub hop: Record<S>,
    pub origin: Option<O>,
}

/// What one step adds to the progress.
pub open spec fn note<T, S, O, E>(
    progress: Progress<T, S, O>,
    c: Connection<T, S, O, E>,
    event: ConnectEvent<T, S, O, E>,
) -> Progress<T, S, O> {
    match (c, event) {
        (Connection::Dial { addr, route }, ConnectEvent::Dialed(Ok(tcp))) => Progress {
            tcp: Some(tcp),
            ..progress
        },
        (
            Connection::SecureProxy { tcp, handshake },
            ConnectEvent::Hop(HopEvent::ProxySecured(Ok(session))),
        ) => Progress {
            hop: Record { session: Some(session), reply: progress.hop.reply },
            ..progress
        },
        (Connection::Tunnel { hop, origin }, ConnectEvent::Hop(event)) => Progress {
            hop: hop_note(progress.hop, hop, event),
            ..progress
        },
        (
            Connection::SecureOrigin { transport, handshake },
            ConnectEvent::OriginSecured(Ok(session)),
        ) => Progress { origin: Some(session), ..progress },
        _ => progress,
    }
}

/// What a connection has obtained after a sequence of steps.
pub open spec fn obtained<T, S, O, E>(
    c: Connection<T, S, O, E>,
    events: Seq<ConnectEvent<T, S, O, E>>,
) -> Progress<T, S, O>
    decreases events.len(),
{
    if events.len() == 0 {
        Progress { tcp: None, hop: blank(), origin: None }
    } else {
        note(obtained(c, events.drop_last()), run(c, events.drop_last()), events.last())
    }
}

/// Whether the proxy accepted the tunnel.
pub open spec fn accepted<S>(record: Record<S>) -> bool {
    means(record.reply, Verdict::Established)
}

/// Whether `error` can be the end of a connection that has read `reply` from a
/// proxy: a failure of the outside world, or a tunnel that did not come about.
pub open spec fn accounts<E>(error: HttpClientError<E>, reply: Seq<u8>) -> bool {
    ||| (exists|e: E| #[trigger] connect_error(e) == error) && (reply.len() == 0 || means(
        reply,
        Verdict::Established,
    ))
    ||| exists|failure: TunnelFailure<E>| #[trigger]
        tunnel_error(ClientKind::Sync, failure) == error && explains(failure, reply)
}

/// Whether `transport` may carry the handshake with the origin: without a proxy
/// it is the TCP stream; through a plaintext proxy it is the TCP stream once the
/// proxy accepted the tunnel; through a secured proxy it is the TLS session to
/// the proxy once the proxy accepted the tunnel over it.
pub open spec fn leads_to_origin<T, S, O>(
    transport: ProxyTunnel<T, S>,
    proxy: ProxyKindValue,
    progress: Progress<T, S, O>,
) -> bool {
    match proxy {
        ProxyKindValue::Direct => progress.tcp matches Some(tcp) && transport
            == ProxyTunnel::<T, S>::Plain(tcp) && progress.hop == blank::<S>(),
        ProxyKindValue::Http => progress.tcp matches Some(tcp) && transport
            == ProxyTunnel::<T, S>::Plain(tcp) && progress.hop.session is None && accepted(
            progress.hop,
        ),
        ProxyKindValue::Https { config, proxy_host } => progress.hop.session matches Some(session)
            && transport == ProxyTunnel::<T, S>::Tls(Box::new(session)) && accepted(progress.hop),
    }
}

/// Whether `transport` may carry an HTTP conversation: through a secured proxy it
/// is the TLS session to the proxy, else the TCP stream.
pub open spec fn leads_to_peer<T, S, O>(
    transport: ProxyTunnel<T, S>,
    proxy: ProxyKindValue,
    progress: Progress<T, S, O>,
) -> bool {
    match proxy {
        ProxyKindValue::Https { config, proxy_host } => progress.hop.session matches Some(session)
            && transport == ProxyTunnel::<T, S>::Tls(Box::new(session)),
        _ => progress.tcp matches Some(tcp) && transport == ProxyTunnel::<T, S>::Plain(tcp)
            && progress.hop.session is None,
    }
}

/// How a connection along `route` stands that has made `progress`.
pub open spec fn follows<T, S, O, E>(
    c: Connection<T, S, O, E>,
    addr: Seq<char>,
    route: RouteValue,
    progress: Progress<T, S, O>,
) -> bool {
    match c {
        Connection::Dial { addr: a, route: r } => a == addr && r == route && progress.tcp is None
            && progress.hop == blank::<S>() && progress.origin is None,
        Connection::SecureProxy { tcp, handshake } => {
            &&& route.scheme == Scheme::HTTP
            &&& progress.tcp == Some(tcp)
            &&& progress.hop == blank::<S>()
            &&& progress.origin is None
            &&& route.proxy matches ProxyKindValue::Https { config, proxy_host }
            &&& handshake == proxy_handshake(config, proxy_host)
        },
        Connection::Tunnel { hop, origin } => {
            &&& route.scheme == Scheme::HTTPS
            &&& origin == route.origin
            &&& progress.origin is None
            &&& hop.stage !is Done
            &&& progress.tcp matches Some(tcp)
            &&& match route.proxy {
                ProxyKindValue::Direct => false,
                ProxyKindValue::Http => plain_stands(
                    hop,
                    ClientKind::Sync,
                    tcp,
                    route.target,
                    progress.hop,
                ),
                ProxyKindValue::Https { config, proxy_host } => secured_stands(
                    hop,
                    ClientKind::Sync,
                    tcp,
                    proxy_handshake(config, proxy_host),
                    route.target,
                    progress.hop,
                ),
            }
        },
        Connection::SecureOrigin { transport, handshake } => route.scheme == Scheme::HTTPS
            && handshake == route.origin && progress.origin is None && leads_to_origin(
            transport,
            route.proxy,
            progress,
        ),
        Connection::Done(Ok(MixStream::Http(transport))) => route.scheme == Scheme::HTTP
            && progress.origin is None && leads_to_peer(transport, route.proxy, progress),
        Connection::Done(Ok(MixStream::Https(session))) => route.scheme == Scheme::HTTPS
            && progress.origin == Some(session) && exists|transport: ProxyTunnel<T, S>| #[trigger]
            leads_to_origin(transport, route.proxy, progress),
        Connection::Done(Err(error)) => {
            &&& progress.origin is None
            &&& accounts(error, progress.hop.reply)
            &&& route.proxy !is Https ==> progress.hop.session is None
        },
    }
}

proof fn lemma_connect_step<T, S, O, E>(
    c: Connection<T, S, O, E>,
    addr: Seq<char>,
    route: RouteValue,
    progress: Progress<T, S, O>,
    event: ConnectEvent<T, S, O, E>,
)
    requires
        follows(c, addr, route, progress),
    ensures
        follows(advance(c, event), addr, route, note(progress, c, event)),
{
    let after = note(progress, c, event);
    match (c, event) {
        (Connection::Tunnel { hop, origin }, ConnectEvent::Hop(event)) => {
            let tcp = progress.tcp->0;
            match route.proxy {
                ProxyKindValue::Direct => {},
                ProxyKindValue::Http => {
                    lemma_plain_step(hop, ClientKind::Sync, tcp, route.target, progress.hop, event);
                },
                ProxyKindValue::Https { config, proxy_host } => {
                    lemma_secured_step(
                        hop,
                        ClientKind::Sync,
                        tcp,
                        proxy_handshake(config, proxy_host),
                        route.target,
                        progress.hop,
                        event,
                    );
                    if let StageValue::Done(Err(error)) = hop_advance(hop, event).stage {
                        if after.hop.session is None {
                            let e = choose|e: E| #[trigger]
                                handshake_error(ClientKind::Sync, e) == error;
                            assert(connect_error(e) == error);
                        }
                    }
                },
            }
        },
        (Connection::SecureOrigin { transport, handshake }, ConnectEvent::OriginSecured(result)) => {
            assert(leads_to_origin(transport, route.proxy, after));
            if let Err(e) = result {
                assert(connect_error(e) == connect_error(e));
            }
        },
        (Connection::Dial { addr, route }, ConnectEvent::Dialed(Err(e))) => {
            assert(connect_error(e) == connect_error(e));
        },
        (
            Connection::SecureProxy { tcp, handshake },
            ConnectEvent::Hop(HopEvent::ProxySecured(Err(e))),
        ) => {
            assert(connect_error(e) == connect_error(e));
        },
        _ => {},
    }
}

/// A connection follows its route, whatever the outside world does: see
/// [`follows`].
pub proof fn law_connection_follows_route<T, S, O, E>(
    addr: Seq<char>,
    route: RouteValue,
    events: Seq<ConnectEvent<T, S, O, E>>,
)
    ensures
        ({
            let start = Connection::<T, S, O, E>::Dial { addr, route };
            follows(run(start, events), addr, route, obtained(start, events))
        }),
    decreases events.len(),
{
    let start = Connection::<T, S, O, E>::Dial { addr, route };
    if events.len() > 0 {
        let before = events.drop_last();
        law_connection_follows_route(addr, route, before);
        lemma_connect_step(
            run(start, before),
            addr,
            route,
            obtained(start, before),
            events.last(),
        );
    }
}

/// Whether nothing has been sent to the peer yet beyond a TCP connection and TLS
/// to the proxy, or the connection failed.
pub open spec fn is_silent<T, S, O, E>(c: Connection<T, S, O, E>) -> bool {
    match c {
        Connection::Dial { addr, route } => true,
        Connection::SecureProxy { tcp, handshake } => true,
        Connection::Tunnel { hop, origin } => hop.stage is SecureProxy,
        Connection::SecureOrigin { transport, handshake } => false,
        Connection::Done(result) => result is Err,
    }
}

/// Whether the peer is spoken to over a bare TCP stream.
pub open spec fn speaks_plain<T, S, O, E>(c: Connection<T, S, O, E>) -> bool {
    match c {
        Connection::Tunnel { hop, origin } => hop.stage is Plain,
        Connection::SecureOrigin { transport, handshake } => transport is Plain,
        Connection::Done(Ok(MixStream::Http(transport))) => transport is Plain,
        _ => false,
    }
}

/// With a secured proxy, TLS to the proxy comes first: until that handshake has
/// succeeded, no request line, header or credential is sent, and nothing is ever
/// sent outside of it. This holds for HTTP and HTTPS origins alike.
pub proof fn law_secured_proxy_comes_first<T, S, O, E>(
    addr: Seq<char>,
    route: RouteValue,
    events: Seq<ConnectEvent<T, S, O, E>>,
)
    requires
        route.proxy is Https,
    ensures
        ({
            let start = Connection::<T, S, O, E>::Dial { addr, route };
            let c = run(start, events);
            &&& obtained(start, events).hop.session is None ==> is_silent(c)
            &&& !speaks_plain(c)
        }),
{
    law_connection_follows_route(addr, route, events);
}

/// Without a secured proxy, no handshake with a proxy is ever run.
pub proof fn law_plain_proxy_sees_no_tls<T, S, O, E>(
    addr: Seq<char>,
    route: RouteValue,
    events: Seq<ConnectEvent<T, S, O, E>>,
)
    requires
        route.proxy !is Https,
    ensures
        ({
            let start = Connection::<T, S, O, E>::Dial { addr, route };
            let c = run(start, events);
            &&& obtained(start, events).hop.session is None
            &&& c !is SecureProxy
            &&& c matches Connection::Tunnel { hop, origin } ==> hop.stage is Plain
            &&& route.proxy is Direct ==> c !is Tunnel
        }),
{
    law_connection_follows_route(addr, route, events);
}

/// A tunnel that the proxy does not grant never leads to the origin: whatever
/// the proxy answers but an accepted tunnel, the handshake with the origin is
/// not run and no connection comes about; and an answer that asks for
/// credentials, refuses or is too long is reported as such.
pub proof fn law_refused_tunnel_never_reaches_origin<T, S, O, E>(
    addr: Seq<char>,
    route: RouteValue,
    events: Seq<ConnectEvent<T, S, O, E>>,
)
    requires
        route.scheme == Scheme::HTTPS,
        route.proxy !is Direct,
    ensures
        ({
            let start = Connection::<T, S, O, E>::Dial { addr, route };
            let c = run(start, events);
            let reply = obtained(start, events).hop.reply;
            let failed = |failure: TunnelFailure<E>|
                c == Connection::<T, S, O, E>::Done(Err(client_error_of(failure)));
            &&& !means(reply, Verdict::Established) ==> c !is SecureOrigin && !(
            c matches Connection::Done(Ok(_)))
            &&& means(reply, Verdict::AuthenticationRequired) ==> failed(
                TunnelFailure::AuthenticationRequired,
            )
            &&& means(reply, Verdict::Refused) ==> failed(TunnelFailure::Refused)
            &&& means(reply, Verdict::HeadersTooLong) ==> failed(TunnelFailure::HeadersTooLong)
        }),
{
    law_connection_follows_route(addr, route, events);
}

/// The settings for the proxy and for the origin stay apart: a handshake with
/// the proxy uses the proxy's settings and name, a handshake with the origin the
/// connector's settings and the host of the URI, and neither overrides the
/// other.
pub proof fn law_settings_stay_apart<T, S, O, E>(
    uri: Uri,
    proxy: Option<ProxyInfo>,
    tls: TlsConfig,
    events: Seq<ConnectEvent<T, S, O, E>>,
)
    ensures
        ({
            let start = Connection::<T, S, O, E>::Dial {
                addr: dial_addr(uri, proxy),
                route: route_to(uri, proxy, tls),
            };
            let with_proxy = |h: HandshakeValue|
                proxy is Some && h.config == proxy->0.tls_settings() && h.server_name
                    == proxy->0.host@;
            let with_origin = |h: HandshakeValue|
                h.config == tls && h.server_name == uri.host->0@;
            match run(start, events) {
                Connection::SecureProxy { tcp, handshake } => with_proxy(handshake),
                Connection::Tunnel { hop, origin } => {
                    &&& with_origin(origin)
                    &&& hop.stage matches StageValue::SecureProxy { tcp, handshake, target }
                        ==> with_proxy(handshake)
                },
                Connection::SecureOrigin { transport, handshake } => with_origin(handshake),
                _ => true,
            }
        }),
{
    law_connection_follows_route(dial_addr(uri, proxy), route_to(uri, proxy, tls), events);
}

/// Every failure is reported as one of establishing the connection.
pub proof fn law_errors_are_connect_errors<T, S, O, E>(
    addr: Seq<char>,
    route: RouteValue,
    events: Seq<ConnectEvent<T, S, O, E>>,
)
    ensures
        run(Connection::<T, S, O, E>::Dial { addr, route }, events) matches Connection::Done(
            Err(error),
        ) ==> error.kind == ErrorKind::Connect,
{
    law_connection_follows_route(addr, route, events);
}

/// A connection that is up or failed stays as it is.
pub proof fn law_end_is_final<T, S, O, E>(
    c: Connection<T, S, O, E>,
    events: Seq<ConnectEvent<T, S, O, E>>,
)
    requires
        c is Done,
    ensures
        run(c, events) == c,
    decreases events.len(),
{
    if events.len() > 0 {
        law_end_is_final(c, events.drop_last());
    }
}

/// An HTTPS origin is reached through a secured proxy by TLS in TLS: if TCP comes
/// up, the handshake with the proxy gives `session`, the proxy accepts the
/// tunnel with `reply` and the handshake with the origin gives `origin`, then
/// `origin` is the connection, and its handshake ran over `session`.
pub proof fn law_tls_in_tls_succeeds<T, S, O, E>(
    addr: Seq<char>,
    route: RouteValue,
    tcp: T,
    session: S,
    reply: Seq<u8>,
    origin: O,
)
    requires
        route.scheme == Scheme::HTTPS,
        route.proxy is Https,
        means(reply, Verdict::Established),
    ensures
        ({
            let start = Connection::<T, S, O, E>::Dial { addr, route };
            let events = seq![
                ConnectEvent::<T, S, O, E>::Dialed(Ok(tcp)),
                ConnectEvent::<T, S, O, E>::Hop(HopEvent::ProxySecured(Ok(session))),
                ConnectEvent::<T, S, O, E>::Hop(HopEvent::Exchanged(Io::Wrote(Ok(())))),
                ConnectEvent::<T, S, O, E>::Hop(HopEvent::Exchanged(Io::Got(Ok(reply)))),
            ];
            &&& run(start, events) == Connection::<T, S, O, E>::SecureOrigin {
                transport: ProxyTunnel::Tls(Box::new(session)),
                handshake: route.origin,
            }
            &&& run(start, events.push(ConnectEvent::OriginSecured(Ok(origin)))) == Connection::<
                T,
                S,
                O,
                E,
            >::Done(Ok(MixStream::Https(origin)))
        }),
{
    let start = Connection::<T, S, O, E>::Dial { addr, route };
    let e1 = ConnectEvent::<T, S, O, E>::Dialed(Ok(tcp));
    let e2 = ConnectEvent::<T, S, O, E>::Hop(HopEvent::ProxySecured(Ok(session)));
    let e3 = ConnectEvent::<T, S, O, E>::Hop(HopEvent::Exchanged(Io::Wrote(Ok(()))));
    let e4 = ConnectEvent::<T, S, O, E>::Hop(HopEvent::Exchanged(Io::Got(Ok(reply))));
    let e5 = ConnectEvent::<T, S, O, E>::OriginSecured(Ok(origin));
    let events = seq![e1, e2, e3, e4];
    assert(events.push(e5).drop_last() =~= events);
    assert(events.drop_last() =~= seq![e1, e2, e3]);
    assert(seq![e1, e2, e3].drop_last() =~= seq![e1, e2]);
    assert(seq![e1, e2].drop_last() =~= seq![e1]);
    assert(seq![e1].drop_last() =~= seq![]);
    assert(Seq::<u8>::empty() + reply =~= reply);
    reveal_with_fuel(run, 6);
}

/// An HTTP conversation is up once TCP is, or, through a secured proxy, once the
/// handshake with the proxy has succeeded too.
pub proof fn law_http_routes_succeed<T, S, O, E>(
    addr: Seq<char>,
    route: RouteValue,
    tcp: T,
    session: S,
)
    requires
        route.scheme == Scheme::HTTP,
    ensures
        ({
            let start = Connection::<T, S, O, E>::Dial { addr, route };
            let dialed = ConnectEvent::<T, S, O, E>::Dialed(Ok(tcp));
            let secured = ConnectEvent::<T, S, O, E>::Hop(HopEvent::ProxySecured(Ok(session)));
            &&& route.proxy !is Https ==> run(start, seq![dialed]) == Connection::<
                T,
                S,
                O,
                E,
            >::Done(Ok(MixStream::Http(ProxyTunnel::Plain(tcp))))
            &&& route.proxy is Https ==> run(start, seq![dialed, secured]) == Connection::<
                T,
                S,
                O,
                E,
            >::Done(Ok(MixStream::Http(ProxyTunnel::Tls(Box::new(session)))))
        }),
{
    let dialed = ConnectEvent::<T, S, O, E>::Dialed(Ok(tcp));
    let secured = ConnectEvent::<T, S, O, E>::Hop(HopEvent::ProxySecured(Ok(session)));
    assert(seq![dialed, secured].drop_last() =~= seq![dialed]);
    assert(seq![dialed].drop_last() =~= seq![]);
    reveal_with_fuel(run, 3);
}

/// An HTTPS origin is reached directly by TLS over TCP.
pub proof fn law_direct_route_succeeds<T, S, O, E>(
    addr: Seq<char>,
    route: RouteValue,
    tcp: T,
    origin: O,
)
    requires
        route.scheme == Scheme::HTTPS,
        route.proxy is Direct,
    ensures
        ({
            let start = Connection::<T, S, O, E>::Dial { addr, route };
            let dialed = ConnectEvent::<T, S, O, E>::Dialed(Ok(tcp));
            let reached = ConnectEvent::<T, S, O, E>::OriginSecured(Ok(origin));
            &&& run(start, seq![dialed]) == Connection::<T, S, O, E>::SecureOrigin {
                transport: ProxyTunnel::Plain(tcp),
                handshake: route.origin,
            }
            &&& run(start, seq![dialed, reached]) == Connection::<T, S, O, E>::Done(
                Ok(MixStream::Https(origin)),
            )
        }),
{
    let dialed = ConnectEvent::<T, S, O, E>::Dialed(Ok(tcp));
    let reached = ConnectEvent::<T, S, O, E>::OriginSecured(Ok(origin));
    assert(seq![dialed, reached].drop_last() =~= seq![dialed]);
    assert(seq![dialed].drop_last() =~= seq![]);
    reveal_with_fuel(run, 3);
}

/// An HTTPS origin is reached through a plaintext proxy by TLS over the tunnel
/// that the proxy grants with `reply`.
pub proof fn law_plain_proxy_succeeds<T, S, O, E>(
    addr: Seq<char>,
    route: RouteValue,
    tcp: T,
    reply: Seq<u8>,
    origin: O,
)
    requires
        route.scheme == Scheme::HTTPS,
        route.proxy is Http,
        means(reply, Verdict::Established),
    ensures
        ({
            let start = Connection::<T, S, O, E>::Dial { addr, route };
            let dialed = ConnectEvent::<T, S, O, E>::Dialed(Ok(tcp));
            let wrote = ConnectEvent::<T, S, O, E>::Hop(HopEvent::Exchanged(Io::Wrote(Ok(()))));
            let got = ConnectEvent::<T, S, O, E>::Hop(HopEvent::Exchanged(Io::Got(Ok(reply))));
            let reached = ConnectEvent::<T, S, O, E>::OriginSecured(Ok(origin));
            &&& run(start, seq![dialed, wrote, got]) == Connection::<T, S, O, E>::SecureOrigin {
                transport: ProxyTunnel::Plain(tcp),
                handshake: route.origin,
            }
            &&& run(start, seq![dialed, wrote, got, reached]) == Connection::<T, S, O, E>::Done(
                Ok(MixStream::Https(origin)),
            )
        }),
{
    let e1 = ConnectEvent::<T, S, O, E>::Dialed(Ok(tcp));
    let e2 = ConnectEvent::<T, S, O, E>::Hop(HopEvent::Exchanged(Io::Wrote(Ok(()))));
    let e3 = ConnectEvent::<T, S, O, E>::Hop(HopEvent::Exchanged(Io::Got(Ok(reply))));
    let e4 = ConnectEvent::<T, S, O, E>::OriginSecured(Ok(origin));
    assert(seq![e1, e2, e3, e4].drop_last() =~= seq![e1, e2, e3]);
    assert(seq![e1, e2, e3].drop_last() =~= seq![e1, e2]);
    assert(seq![e1, e2].drop_last() =~= seq![e1]);
    assert(seq![e1].drop_last() =~= seq![]);
    assert(Seq::<u8>::empty() + reply =~= reply);
    reveal_with_fuel(run, 5);
}

/// Whether no event is a result of the handshake with the origin.
pub open spec fn before_origin<T, S, O, E>(events: Seq<ConnectEvent<T, S, O, E>>) -> bool {
    forall|i: int| 0 <= i < events.len() ==> (#[trigger] events[i]) !is OriginSecured
}

proof fn lemma_granted_tunnel_waits<T, S, O, E>(
    addr: Seq<char>,
    route: RouteValue,
    events: Seq<ConnectEvent<T, S, O, E>>,
)
    requires
        route.scheme == Scheme::HTTPS,
        route.proxy !is Direct,
        before_origin(events),
    ensures
        ({
            let start = Connection::<T, S, O, E>::Dial { addr, route };
            accepted(obtained(start, events).hop) ==> run(start, events) is SecureOrigin
        }),
    decreases events.len(),
{
    let start = Connection::<T, S, O, E>::Dial { addr, route };
    if events.len() > 0 {
        let past = events.drop_last();
        assert forall|i: int| 0 <= i < past.len() implies (#[trigger] past[i]) !is OriginSecured by {
            assert(past[i] == events[i]);
        }
        assert(events.last() !is OriginSecured);
        lemma_granted_tunnel_waits(addr, route, past);
        law_connection_follows_route(addr, route, past);
        let progress = obtained(start, past);
        if let (Connection::Tunnel { hop, origin }, ConnectEvent::Hop(event)) = (
            run(start, past),
            events.last(),
        ) {
            let tcp = progress.tcp->0;
            match route.proxy {
                ProxyKindValue::Direct => {},
                ProxyKindValue::Http => {
                    lemma_plain_step(hop, ClientKind::Sync, tcp, route.target, progress.hop, event);
                },
                ProxyKindValue::Https { config, proxy_host } => {
                    lemma_secured_step(
                        hop,
                        ClientKind::Sync,
                        tcp,
                        proxy_handshake(config, proxy_host),
                        route.target,
                        progress.hop,
                        event,
                    );
                },
            }
        }
    }
}

/// A tunnel that the proxy grants leads to the origin, in however many reads and
/// whatever else happened: once the bytes read grant the tunnel, and not before,
/// the handshake with the origin is due over that tunnel; and when it succeeds,
/// its session is the connection. A first read that ends within the status does
/// not grant the tunnel: it is a refusal, and nothing more is read.
pub proof fn law_granted_tunnel_reaches_origin<T, S, O, E>(
    addr: Seq<char>,
    route: RouteValue,
    events: Seq<ConnectEvent<T, S, O, E>>,
    session: O,
)
    requires
        route.scheme == Scheme::HTTPS,
        route.proxy !is Direct,
        before_origin(events),
    ensures
        ({
            let start = Connection::<T, S, O, E>::Dial { addr, route };
            let c = run(start, events);
            let progress = obtained(start, events);
            let reached = events.push(ConnectEvent::OriginSecured(Ok(session)));
            &&& accepted(progress.hop) <==> c is SecureOrigin
            &&& c matches Connection::SecureOrigin { transport, handshake } ==> {
                &&& handshake == route.origin
                &&& leads_to_origin(transport, route.proxy, progress)
                &&& run(start, reached) == Connection::<T, S, O, E>::Done(
                    Ok(MixStream::Https(session)),
                )
            }
        }),
{
    let reached = events.push(ConnectEvent::OriginSecured(Ok(session)));
    assert(reached.drop_last() =~= events);
    lemma_granted_tunnel_waits(addr, route, events);
    law_connection_follows_route(addr, route, events);
}

/// A connection before anything was done, for the settings `config`, the origin
/// that `uri` names and the proxy at index `matched`, if any.
pub open spec fn start_of<T, S, O, E>(
    config: ConnectorConfig,
    uri: Uri,
    matched: Option<usize>,
) -> Connection<T, S, O, E> {
    let proxy = selected(config, matched);
    Connection::Dial { addr: dial_addr(uri, proxy), route: route_to(uri, proxy, config.tls) }
}

/// The handshake that is due with an origin: the connector's settings and the
/// host of the URI.
pub open spec fn is_origin_handshake(h: HandshakeValue, config: ConnectorConfig, uri: Uri) -> bool {
    &&& uri.host matches Some(host)
    &&& h.config == config.tls
    &&& h.server_name == host@
    &&& !h.pinning
}

/// The handshake that is due with a proxy: its own settings, or the standard
/// ones, and its own host.
pub open spec fn is_proxy_handshake(h: HandshakeValue, info: ProxyInfo) -> bool {
    &&& info.tls matches Some(settings) ==> h.config == settings
    &&& info.tls is None ==> h.config == TlsConfig::Standard
    &&& h.server_name == info.host@
    &&& !h.pinning
}

/// Whether TLS to a proxy is due: its URI says so, or it has TLS settings.
pub open spec fn wants_tls(info: ProxyInfo) -> bool {
    info.scheme == Scheme::HTTPS || info.tls is Some
}

/// Whether a target is what `uri` names, with the credentials for a proxy.
pub open spec fn is_target(target: TargetValue, uri: Uri, info: ProxyInfo) -> bool {
    &&& uri.host matches Some(host)
    &&& target.host == host@
    &&& Some(target.port) == uri.port
    &&& match info.basic_auth {
        Some(value) => match value.text {
            Some(text) => target.auth == Some(text@),
            None => target.auth is None,
        },
        None => target.auth is None,
    }
}

/// A connection begins with TCP to the selected proxy, or, without one, to the
/// authority of the URI. A failure of it is the end.
pub proof fn law_tcp_comes_first<T, S, O, E>(
    config: ConnectorConfig,
    uri: Uri,
    matched: Option<usize>,
    e: E,
)
    requires
        matched matches Some(i) ==> i < config.proxies@.len(),
    ensures
        ({
            let start = start_of::<T, S, O, E>(config, uri, matched);
            &&& start is Dial
            &&& matched matches Some(i) ==> start->addr == config.proxies@[i as int].authority@
            &&& matched is None ==> start->addr == uri.authority->0@
            &&& advance(start, ConnectEvent::Dialed(Err(e))) == Connection::<T, S, O, E>::Done(
                Err(HttpClientError { kind: ErrorKind::Connect, cause: Cause::Error(e) }),
            )
        }),
{
}

/// Without a proxy, an HTTP conversation is up once TCP is, and an HTTPS one is
/// due its handshake with the origin, over TCP.
pub proof fn law_direct_connection<T, S, O, E>(config: ConnectorConfig, uri: Uri, tcp: T)
    requires
        uri.is_complete(),
    ensures
        ({
            let start = start_of::<T, S, O, E>(config, uri, None);
            let next = advance(start, ConnectEvent::Dialed(Ok(tcp)));
            &&& uri.scheme == Some(Scheme::HTTP) ==> next == Connection::<T, S, O, E>::Done(
                Ok(MixStream::Http(ProxyTunnel::Plain(tcp))),
            )
            &&& uri.scheme == Some(Scheme::HTTPS) ==> {
                &&& next matches Connection::SecureOrigin { transport, handshake }
                &&& transport == ProxyTunnel::<T, S>::Plain(tcp)
                &&& is_origin_handshake(handshake, config, uri)
            }
        }),
{
}

/// Through a plaintext proxy, an HTTP conversation is up once TCP is; for an HTTPS
/// one, the proxy is asked over TCP for a tunnel to the host and the port of the
/// URI, with the proxy's credentials.
pub proof fn law_connection_through_plain_proxy<T, S, O, E>(
    config: ConnectorConfig,
    uri: Uri,
    i: usize,
    tcp: T,
)
    requires
        uri.is_complete(),
        i < config.proxies@.len(),
        !wants_tls(config.proxies@[i as int]),
    ensures
        ({
            let info = config.proxies@[i as int];
            let start = start_of::<T, S, O, E>(config, uri, Some(i));
            let next = advance(start, ConnectEvent::Dialed(Ok(tcp)));
            &&& uri.scheme == Some(Scheme::HTTP) ==> next == Connection::<T, S, O, E>::Done(
                Ok(MixStream::Http(ProxyTunnel::Plain(tcp))),
            )
            &&& uri.scheme == Some(Scheme::HTTPS) ==> {
                &&& next matches Connection::Tunnel { hop, origin }
                &&& is_origin_handshake(origin, config, uri)
                &&& hop.kind == ClientKind::Sync
                &&& exists|target: TargetValue| #[trigger]
                    is_target(target, uri, info) && hop.stage == StageValue::<T, S, E>::Plain(
                        Exchange::Write {
                            conn: tcp,
                            request: connect_request(target.host, target.port, target.auth),
                        },
                    )
            }
        }),
{
    let info = config.proxies@[i as int];
    assert(is_target(start_of::<T, S, O, E>(config, uri, Some(i))->route.target, uri, info));
}

/// Through a secured proxy, the handshake with the proxy is due once TCP is up.
/// After it an HTTP conversation is up inside its session; for an HTTPS one, the
/// proxy is asked inside its session for a tunnel to the host and the port of the
/// URI, with the proxy's credentials.
pub proof fn law_connection_through_secured_proxy<T, S, O, E>(
    config: ConnectorConfig,
    uri: Uri,
    i: usize,
    tcp: T,
    session: S,
)
    requires
        uri.is_complete(),
        i < config.proxies@.len(),
        wants_tls(config.proxies@[i as int]),
    ensures
        ({
            let info = config.proxies@[i as int];
            let start = start_of::<T, S, O, E>(config, uri, Some(i));
            let next = advance(start, ConnectEvent::Dialed(Ok(tcp)));
            let then = advance(next, ConnectEvent::Hop(HopEvent::ProxySecured(Ok(session))));
            &&& uri.scheme == Some(Scheme::HTTP) ==> {
                &&& next matches Connection::SecureProxy { tcp: t, handshake }
                &&& t == tcp
                &&& is_proxy_handshake(handshake, info)
                &&& then == Connection::<T, S, O, E>::Done(
                    Ok(MixStream::Http(ProxyTunnel::Tls(Box::new(session)))),
                )
            }
            &&& uri.scheme == Some(Scheme::HTTPS) ==> {
                &&& next matches Connection::Tunnel { hop, origin }
                &&& is_origin_handshake(origin, config, uri)
                &&& hop.kind == ClientKind::Sync
                &&& hop.stage matches StageValue::SecureProxy { tcp: t, handshake, target }
                &&& t == tcp
                &&& is_proxy_handshake(handshake, info)
                &&& is_target(target, uri, info)
                &&& then == (Connection::<T, S, O, E>::Tunnel {
                    hop: Hop {
                        kind: ClientKind::Sync,
                        stage: StageValue::Tls(
                            Exchange::Write {
                                conn: session,
                                request: connect_request(target.host, target.port, target.auth),
                            },
                        ),
                    },
                    origin,
                })
            }
        }),
{
}

/// The request that a connection is about to write, if it is.
pub open spec fn request_due<T, S, O, E>(c: Connection<T, S, O, E>) -> Option<Seq<u8>> {
    match c {
        Connection::Tunnel { hop, origin } => match hop.stage {
            StageValue::Plain(Exchange::Write { conn, request }) => Some(request),
            StageValue::Tls(Exchange::Write { conn, request }) => Some(request),
            _ => None,
        },
        _ => None,
    }
}

/// Whatever happens, the only request that a connection sends by itself is the one
/// for a tunnel to the host and the port of the URI. It carries the credentials of
/// the selected proxy, secured or not, and no others; and it is sent only for an
/// HTTPS origin, and inside TLS where the proxy is secured.
pub proof fn law_request_is_for_the_uri<T, S, O, E>(
    config: ConnectorConfig,
    uri: Uri,
    matched: Option<usize>,
    events: Seq<ConnectEvent<T, S, O, E>>,
)
    requires
        uri.is_complete(),
        matched matches Some(i) ==> i < config.proxies@.len(),
    ensures
        ({
            let c = run(start_of::<T, S, O, E>(config, uri, matched), events);
            request_due(c) matches Some(request) ==> {
                &&& uri.scheme == Some(Scheme::HTTPS)
                &&& matched matches Some(i)
                &&& wants_tls(config.proxies@[i as int]) <==> c->hop.stage is Tls
                &&& match config.proxies@[i as int].basic_auth {
                    Some(HeaderValue { text: Some(text) }) => {
                        &&& request == connect_request(uri.host->0@, uri.port->0, Some(text@))
                        &&& occurs(credentials_line(text@), request)
                    },
                    _ => request == connect_request(uri.host->0@, uri.port->0, None),
                }
            }
        }),
{
    let proxy = selected(config, matched);
    let addr = dial_addr(uri, proxy);
    let route = route_to(uri, proxy, config.tls);
    law_connection_follows_route(addr, route, events);
    law_request_text(route.target.host, route.target.port, route.target.auth);
}

/// Whatever happens, a handshake that is due is one with the selected proxy, if
/// that is secured, or one with the origin, if the URI is HTTPS; each under its own
/// settings and its own name.
pub proof fn law_handshakes_are_for_their_peers<T, S, O, E>(
    config: ConnectorConfig,
    uri: Uri,
    matched: Option<usize>,
    events: Seq<ConnectEvent<T, S, O, E>>,
)
    requires
        uri.is_complete(),
        matched matches Some(i) ==> i < config.proxies@.len(),
    ensures
        ({
            let with_proxy = |h: HandshakeValue|
                matched is Some && wants_tls(config.proxies@[matched->0 as int])
                    && is_proxy_handshake(h, config.proxies@[matched->0 as int]);
            match run(start_of::<T, S, O, E>(config, uri, matched), events) {
                Connection::SecureProxy { tcp, handshake } => {
                    &&& uri.scheme == Some(Scheme::HTTP)
                    &&& with_proxy(handshake)
                },
                Connection::Tunnel { hop, origin } => {
                    &&& uri.scheme == Some(Scheme::HTTPS)
                    &&& matched is Some
                    &&& hop.stage matches StageValue::SecureProxy { tcp, handshake, target }
                        ==> with_proxy(handshake)
                },
                Connection::SecureOrigin { transport, handshake } => {
                    &&& uri.scheme == Some(Scheme::HTTPS)
                    &&& is_origin_handshake(handshake, config, uri)
                },
                Connection::Done(Ok(MixStream::Http(transport))) => {
                    &&& uri.scheme == Some(Scheme::HTTP)
                    &&& transport is Tls <==> matched is Some && wants_tls(
                        config.proxies@[matched->0 as int],
                    )
                },
                Connection::Done(Ok(MixStream::Https(session))) => uri.scheme == Some(
                    Scheme::HTTPS,
                ),
                _ => true,
            }
        }),
{
    let proxy = selected(config, matched);
    law_connection_follows_route(
        dial_addr(uri, proxy),
        route_to(uri, proxy, config.tls),
        events,
    );
}

/// What the last steps of a connection come to: TCP that fails ends with its error;
/// a handshake that gives a session
/// ends with that session, one that fails ends with its error, and a hop that is
/// over hands its tunnel to the handshake with the origin or its error to the
/// caller.
pub proof fn law_connection_ends<T, S, O, E>(
    route: RouteValue,
    handshake: HandshakeValue,
    hop: Hop<T, S, E>,
    tunnel: ProxyTunnel<T, S>,
    error: HttpClientError<E>,
    session: S,
    origin: O,
    e: E,
)
    ensures
        ({
            let failed = Connection::<T, S, O, E>::Done(
                Err(HttpClientError { kind: ErrorKind::Connect, cause: Cause::Error(e) }),
            );
            &&& after_dial::<T, S, O, E>(route, Err(e)) == failed
            &&& after_proxy_secured::<T, S, O, E>(Err(e)) == failed
            &&& after_proxy_secured::<T, S, O, E>(Ok(session)) == Connection::<T, S, O, E>::Done(
                Ok(MixStream::Http(ProxyTunnel::Tls(Box::new(session)))),
            )
            &&& after_origin_secured::<T, S, O, E>(Err(e)) == failed
            &&& after_origin_secured::<T, S, O, E>(Ok(origin)) == Connection::<T, S, O, E>::Done(
                Ok(MixStream::Https(origin)),
            )
            &&& hop.stage == StageValue::<T, S, E>::Done(Ok(tunnel)) ==> after_hop::<T, S, O, E>(
                handshake,
                hop,
            ) == (Connection::<T, S, O, E>::SecureOrigin { transport: tunnel, handshake })
            &&& hop.stage == StageValue::<T, S, E>::Done(Err(error)) ==> after_hop::<T, S, O, E>(
                handshake,
                hop,
            ) == Connection::<T, S, O, E>::Done(Err(error))
            &&& hop.stage !is Done ==> after_hop::<T, S, O, E>(handshake, hop) == (Connection::<
                T,
                S,
                O,
                E,
            >::Tunnel { hop, origin: handshake })
        }),
{
}

/// The mathematical value of a connection shows all that it holds.
pub proof fn law_connection_value<T, S, O, E>(
    addr: String,
    route: Route,
    tcp: T,
    handshake: Handshake,
    hop: Tunneling<T, S, E>,
    transport: ProxyTunnel<T, S>,
    end: Result<MixStream<ProxyTunnel<T, S>, O>, HttpClientError<E>>,
)
    ensures
        (Connecting::<T, S, O, E>::Dial { addr, route })@ == (Connection::<T, S, O, E>::Dial {
            addr: addr@,
            route: route@,
        }),
        (Connecting::<T, S, O, E>::SecureProxy { tcp, handshake })@ == (Connection::<
            T,
            S,
            O,
            E,
        >::SecureProxy { tcp, handshake: handshake@ }),
        (Connecting::<T, S, O, E>::Tunnel { hop, origin: handshake })@ == (Connection::<
            T,
            S,
            O,
            E,
        >::Tunnel { hop: hop@, origin: handshake@ }),
        (Connecting::<T, S, O, E>::SecureOrigin { transport, handshake })@ == (Connection::<
            T,
            S,
            O,
            E,
        >::SecureOrigin { transport, handshake: handshake@ }),
        Connecting::<T, S, O, E>::Done(end)@ == Connection::<T, S, O, E>::Done(end),
        route@.scheme == route.scheme,
        route@.target == route.target@,
        route@.origin == route.origin@,
        route.proxy is Direct <==> route@.proxy is Direct,
        route.proxy is Http <==> route@.proxy is Http,
        route.proxy matches ProxyKind::Https { config, proxy_host } ==> route@.proxy == (
        ProxyKindValue::Https { config, proxy_host: proxy_host@ }),
{
}

/// Whether `target` is what `uri` names, with the credentials for a proxy, if any.
pub open spec fn names_target(target: Target, uri: Uri, proxy: Option<ProxyInfo>) -> bool {
    &&& uri.host matches Some(host)
    &&& target.host@ == host@
    &&& Some(target.port) == uri.port
    &&& match proxy {
        Some(ProxyInfo { basic_auth: Some(HeaderValue { text: Some(text) }), .. }) => {
            &&& target.auth matches Some(value)
            &&& value@ == text@
        },
        _ => target.auth is None,
    }
}

/// What a connector starts: TCP to the selected proxy, or else to the authority of
/// the URI; then the scheme of the URI, a tunnel to its host and port with the
/// proxy's credentials, the proxy's own settings and name where TLS to it is due,
/// and the connector's settings and the host of the URI for the origin.
pub proof fn law_connect<T, S, O, E>(
    config: ConnectorConfig,
    connector: HttpConnector,
    uri: &Uri,
    matched: Option<usize>,
    r: Connecting<T, S, O, E>,
    addr: String,
)
    requires
        call_ensures(HttpConnector::new, (config,), connector),
        call_ensures(HttpConnector::connect::<T, S, O, E>, (&connector, uri, matched), r),
        call_ensures(HttpConnector::connect_addr, (&connector, uri, matched), addr),
        uri.is_complete(),
        matched matches Some(i) ==> i < config.proxies@.len(),
    ensures
        matched matches Some(i) ==> addr@ == config.proxies@[i as int].authority@,
        matched is None ==> addr@ == uri.authority->0@,
        r matches Connecting::Dial { addr: a, route } && a@ == addr@ && Some(route.scheme)
            == uri.scheme && is_origin_handshake(route.origin@, config, *uri) && names_target(
            route.target,
            *uri,
            (match matched {
                Some(i) => Some(config.proxies@[i as int]),
                None => None,
            }),
        ) && (matched is None ==> route.proxy is Direct) && (matched matches Some(i) ==> {
            let info = config.proxies@[i as int];
            &&& info.scheme == Scheme::HTTP && info.tls is None ==> route.proxy is Http
            &&& info.scheme == Scheme::HTTPS || info.tls is Some ==> {
                &&& route.proxy matches ProxyKind::Https { config: settings, proxy_host }
                &&& proxy_host@ == info.host@
                &&& info.tls matches Some(tls) ==> settings == tls
                &&& info.tls is None ==> settings == TlsConfig::Standard
            }
        }),
{
}

/// A connector holds the settings that it is made with; the default one has no
/// proxies and standard TLS.
pub proof fn law_connector_settings(
    config: ConnectorConfig,
    connector: HttpConnector,
    shown: &ConnectorConfig,
    plain: HttpConnector,
    standard: &ConnectorConfig,
)
    requires
        call_ensures(HttpConnector::new, (config,), connector),
        call_ensures(HttpConnector::config, (&connector,), shown),
        call_ensures(<HttpConnector as Default>::default, (), plain),
        call_ensures(HttpConnector::config, (&plain,), standard),
    ensures
        *shown == config,
        standard.proxies@.len() == 0,
        standard.tls == TlsConfig::Standard,
{
}

/// What is due once TCP is up, along any route: nothing more for HTTP, but for TLS
/// to a secured proxy; for HTTPS the handshake with the origin, or the hop through
/// the proxy first. A failure of TCP is the end.
pub proof fn law_on_dialed<T, S, O, E>(
    route: Route,
    result: Result<T, E>,
    r: Connecting<T, S, O, E>,
)
    requires
        call_ensures(Connecting::<T, S, O, E>::on_dialed, (route, result), r),
    ensures
        result matches Err(e) ==> r == Connecting::<T, S, O, E>::Done(
            Err(HttpClientError { kind: ErrorKind::Connect, cause: Cause::Error(e) }),
        ),
        result matches Ok(tcp) ==> match (route.scheme, route.proxy) {
            (Scheme::HTTP, ProxyKind::Https { config, proxy_host }) => {
                &&& r matches Connecting::SecureProxy { tcp: t, handshake }
                &&& t == tcp
                &&& handshake.config == config
                &&& handshake.server_name@ == proxy_host@
                &&& !handshake.pinning
            },
            (Scheme::HTTP, _) => r == Connecting::<T, S, O, E>::Done(
                Ok(MixStream::Http(ProxyTunnel::Plain(tcp))),
            ),
            (Scheme::HTTPS, ProxyKind::Direct) => {
                &&& r matches Connecting::SecureOrigin { transport, handshake }
                &&& transport == ProxyTunnel::<T, S>::Plain(tcp)
                &&& handshake@ == route.origin@
            },
            (Scheme::HTTPS, ProxyKind::Http) => {
                &&& r matches Connecting::Tunnel { hop, origin }
                &&& origin@ == route.origin@
                &&& hop.kind == ClientKind::Sync
                &&& hop.stage matches Stage::Plain(ConnectTunnel::Write { conn, request })
                &&& conn == tcp
                &&& asks_for(
                    request@,
                    route.target.host@,
                    route.target.port,
                    (match route.target.auth {
                        Some(value) => Some(value@),
                        None => None,
                    }),
                )
            },
            (Scheme::HTTPS, ProxyKind::Https { config, proxy_host }) => {
                &&& r matches Connecting::Tunnel { hop, origin }
                &&& origin@ == route.origin@
                &&& hop.kind == ClientKind::Sync
                &&& hop.stage matches Stage::SecureProxy { tcp: t, handshake, target }
                &&& t == tcp
                &&& handshake.config == config
                &&& handshake.server_name@ == proxy_host@
                &&& !handshake.pinning
                &&& target@ == route.target@
            },
        },
{
    law_request_text(route.target.host@, route.target.port, route.target@.auth);
}

/// What a handshake or a hop that is over comes to.
pub proof fn law_on_results<T, S, O, E>(
    with_proxy: Result<S, E>,
    r1: Connecting<T, S, O, E>,
    with_origin: Result<O, E>,
    r2: Connecting<T, S, O, E>,
    origin: Handshake,
    hop: Tunneling<T, S, E>,
    r3: Connecting<T, S, O, E>,
)
    requires
        call_ensures(Connecting::<T, S, O, E>::on_proxy_secured, (with_proxy,), r1),
        call_ensures(Connecting::<T, S, O, E>::on_origin_secured, (with_origin,), r2),
        call_ensures(Connecting::<T, S, O, E>::on_hop, (origin, hop), r3),
    ensures
        ({
            let failed = |e: E|
                Connecting::<T, S, O, E>::Done(
                    Err(HttpClientError { kind: ErrorKind::Connect, cause: Cause::Error(e) }),
                );
            &&& with_proxy matches Err(e) ==> r1 == failed(e)
            &&& with_proxy matches Ok(session) ==> r1 == Connecting::<T, S, O, E>::Done(
                Ok(MixStream::Http(ProxyTunnel::Tls(Box::new(session)))),
            )
            &&& with_origin matches Err(e) ==> r2 == failed(e)
            &&& with_origin matches Ok(session) ==> r2 == Connecting::<T, S, O, E>::Done(
                Ok(MixStream::Https(session)),
            )
            &&& hop.stage matches Stage::Done(Ok(tunnel)) ==> (
            r3 matches Connecting::SecureOrigin { transport, handshake } && transport == tunnel
                && handshake@ == origin@)
            &&& hop.stage matches Stage::Done(Err(error)) ==> r3 == Connecting::<T, S, O, E>::Done(
                Err(error),
            )
            &&& hop.stage !is Done ==> (r3 matches Connecting::Tunnel { hop: same, origin: o }
                && same@ == hop@ && o@ == origin@)
        }),
{
}

} // verus!
