//! Tunnels of the asynchronous client.

use vstd::prelude::*;

use crate::c_openssl::adapter::TlsConfig;
use crate::error::IoError;
use crate::proxy::{
    gave_session, keeps_to_tls, law_plain_hop, law_secured_hop_keeps_to_tls, plain_hop, run,
    secured_hop, ClientKind, Handshake, HandshakeValue, Hop, HopEvent, ProxyTunnel, Stage,
    StageValue, Target, TargetValue, TunnelConnect, Tunneling,
};
use crate::tunnel::{
    asks_for, connect_request, law_request_text, opening, text_of, ConnectTunnel, Exchange,
    TunnelFailure,
};

verus! {

/// Why a proxy did not open a tunnel.
#[derive(Clone, Copy, PartialEq, Eq, Structural)]
pub enum CreateTunnelErr {
    ProxyHeadersTooLong,
    ProxyAuthenticationRequired,
    Unsuccessful,
}

impl CreateTunnelErr {
    /// The message of an error.
    pub open spec fn message(self) -> Seq<char> {
        match self {
            CreateTunnelErr::ProxyHeadersTooLong => "Proxy headers too long for tunnel"@,
            CreateTunnelErr::ProxyAuthenticationRequired => "Proxy authentication required"@,
            CreateTunnelErr::Unsuccessful => "Unsuccessful tunnel"@,
        }
    }

    /// The message that stands for the error wherever it is printed.
    pub fn fmt(&self) -> (r: &'static str)
        ensures
            r@ == self.message(),
    {
        match self {
            CreateTunnelErr::ProxyHeadersTooLong => "Proxy headers too long for tunnel",
            CreateTunnelErr::ProxyAuthenticationRequired => "Proxy authentication required",
            CreateTunnelErr::Unsuccessful => "Unsuccessful tunnel",
        }
    }
}

/// Wraps a tunnel error as an I/O error of kind `Other`.
pub fn other_io_error<E>(err: CreateTunnelErr) -> (r: IoError<E>)
    ensures
        r == IoError::<E>::Tunnel(err),
{
    IoError::Tunnel(err)
}

/// Starts to turn `conn` into a tunnel to `host:port`.
///
/// `conn` may be a TCP stream or a TLS session to the proxy. What
/// [`finish_tunnel`] makes of the end of the exchange is the result.
pub fn connect_tunnel<S, E>(conn: S, host: &str, port: u16, auth: Option<String>) -> (r: ConnectTunnel<S, E>)
    ensures
        r@ == opening::<S, E>(conn, host@, port, text_of(auth)),
{
    ConnectTunnel::open(conn, host, port, auth)
}

/// The I/O error for a tunnel that did not come about. A proxy that closes the
/// connection is not told apart from one that refuses.
pub open spec fn io_error_of<E>(failure: TunnelFailure<E>) -> IoError<E> {
    match failure {
        TunnelFailure::Io(e) => IoError::Transport(e),
        TunnelFailure::Closed => IoError::Tunnel(CreateTunnelErr::Unsuccessful),
        TunnelFailure::HeadersTooLong => IoError::Tunnel(CreateTunnelErr::ProxyHeadersTooLong),
        TunnelFailure::AuthenticationRequired => IoError::Tunnel(
            CreateTunnelErr::ProxyAuthenticationRequired,
        ),
        TunnelFailure::Refused => IoError::Tunnel(CreateTunnelErr::Unsuccessful),
    }
}

/// Words a tunnel that did not come about as an I/O error.
pub fn io_error<E>(failure: TunnelFailure<E>) -> (r: IoError<E>)
    ensures
        r == io_error_of(failure),
{
    match failure {
        TunnelFailure::Io(e) => IoError::Transport(e),
        TunnelFailure::Closed => other_io_error(CreateTunnelErr::Unsuccessful),
        TunnelFailure::HeadersTooLong => other_io_error(CreateTunnelErr::ProxyHeadersTooLong),
        TunnelFailure::AuthenticationRequired => other_io_error(
            CreateTunnelErr::ProxyAuthenticationRequired,
        ),
        TunnelFailure::Refused => other_io_error(CreateTunnelErr::Unsuccessful),
    }
}

/// The result of [`connect_tunnel`] for the end of its exchange: the same
/// connection, or an I/O error.
pub fn finish_tunnel<S, E>(end: Result<S, TunnelFailure<E>>) -> (r: Result<S, IoError<E>>)
    ensures
        r == (match end {
            Ok(conn) => Ok(conn),
            Err(failure) => Err(io_error_of(failure)),
        }),
{
    match end {
        Ok(conn) => Ok(conn),
        Err(failure) => Err(io_error(failure)),
    }
}

/// A plaintext proxy: `CONNECT` goes directly over TCP.
pub struct HttpProxyTunnel;

impl<T, S, E> TunnelConnect<T, S, E> for HttpProxyTunnel {
    open spec fn first_hop(&self, tcp: T, target: TargetValue) -> Hop<T, S, E> {
        plain_hop(ClientKind::Async, tcp, target)
    }

    fn tunnel(&self, tcp: T, host: &str, port: u16, auth: Option<String>) -> (r: Tunneling<T, S, E>) {
        Tunneling {
            kind: ClientKind::Async,
            stage: Stage::Plain(connect_tunnel(tcp, host, port, auth)),
        }
    }
}

/// A secured proxy: TLS to the proxy comes first, and `CONNECT` with any
/// credentials goes over the encrypted channel.
pub struct HttpsProxyTunnel {
    /// The TLS settings for the connection to the proxy.
    pub config: TlsConfig,
    /// The name of the proxy in its handshake.
    pub proxy_host: String,
}

impl<T, S, E> TunnelConnect<T, S, E> for HttpsProxyTunnel {
    open spec fn first_hop(&self, tcp: T, target: TargetValue) -> Hop<T, S, E> {
        secured_hop(
            ClientKind::Async,
            tcp,
            HandshakeValue {
                config: self.config,
                server_name: self.proxy_host@,
                pinning: true,
            },
            target,
        )
    }

    fn tunnel(&self, tcp: T, host: &str, port: u16, auth: Option<String>) -> (r: Tunneling<T, S, E>) {
        let handshake = Handshake {
            config: self.config,
            server_name: self.proxy_host.clone(),
            pinning: true,
        };
        let target = Target { host: host.to_owned(), port, auth };
        Tunneling { kind: ClientKind::Async, stage: Stage::SecureProxy { tcp, handshake, target } }
    }
}

/// A plaintext proxy is asked for the tunnel over the bare TCP stream, with the
/// request for the target and its credentials, and no handshake is ever run.
pub proof fn law_http_proxy_is_asked_over_tcp<T, S, E>(
    proxy: HttpProxyTunnel,
    tcp: T,
    target: TargetValue,
    events: Seq<HopEvent<S, E>>,
)
    ensures
        ({
            let start: Hop<T, S, E> = proxy.first_hop(tcp, target);
            let request = connect_request(target.host, target.port, target.auth);
            let end = run(start, events).stage;
            &&& start.kind == ClientKind::Async
            &&& start.stage == StageValue::<T, S, E>::Plain(Exchange::Write { conn: tcp, request })
            &&& end !is SecureProxy && end !is Tls
            &&& end matches StageValue::Done(Ok(tunnel)) ==> tunnel == ProxyTunnel::<T, S>::Plain(
                tcp,
            )
        }),
{
    law_plain_hop::<T, S, E>(ClientKind::Async, tcp, target, events);
}

/// A secured proxy is first met with a handshake, under its own settings and its
/// own name, with pinned keys binding. Whatever happens, nothing is sent before a handshake gave a
/// session, and nothing is ever sent outside of it: neither the request for the
/// target nor its credentials.
pub proof fn law_https_proxy_is_secured_first<T, S, E>(
    proxy: HttpsProxyTunnel,
    tcp: T,
    target: TargetValue,
    events: Seq<HopEvent<S, E>>,
)
    ensures
        ({
            let start: Hop<T, S, E> = proxy.first_hop(tcp, target);
            let end = run(start, events).stage;
            &&& start.kind == ClientKind::Async
            &&& start.stage matches StageValue::SecureProxy { tcp: t, handshake, target: g }
            &&& t == tcp
            &&& handshake.config == proxy.config
            &&& handshake.server_name == proxy.proxy_host@
            &&& handshake.pinning == true
            &&& g == target
            &&& end !is Plain
            &&& keeps_to_tls(
                end,
                events,
                connect_request(target.host, target.port, target.auth),
            )
            &&& (forall|session: S| !#[trigger] gave_session(events, session)) ==> end is SecureProxy
                || (end matches StageValue::Done(Err(_)))
        }),
{
    let start: Hop<T, S, E> = proxy.first_hop(tcp, target);
    law_secured_hop_keeps_to_tls(start, events);
}

/// Which I/O error stands for which end of an exchange.
pub proof fn law_io_errors<E>(e: E)
    ensures
        io_error_of(TunnelFailure::Io(e)) == IoError::<E>::Transport(e),
        io_error_of(TunnelFailure::<E>::Closed) == IoError::<E>::Tunnel(
            CreateTunnelErr::Unsuccessful,
        ),
        io_error_of(TunnelFailure::<E>::Refused) == IoError::<E>::Tunnel(
            CreateTunnelErr::Unsuccessful,
        ),
        io_error_of(TunnelFailure::<E>::HeadersTooLong) == IoError::<E>::Tunnel(
            CreateTunnelErr::ProxyHeadersTooLong,
        ),
        io_error_of(TunnelFailure::<E>::AuthenticationRequired) == IoError::<E>::Tunnel(
            CreateTunnelErr::ProxyAuthenticationRequired,
        ),
{
}

/// The messages of the tunnel errors, letter by letter.
pub proof fn law_messages()
    ensures
        CreateTunnelErr::ProxyHeadersTooLong.message() == "Proxy headers too long for tunnel"@,
        CreateTunnelErr::ProxyAuthenticationRequired.message() == "Proxy authentication required"@,
        CreateTunnelErr::Unsuccessful.message() == "Unsuccessful tunnel"@,
{
}

/// A tunnel over any connection begins with the request on that connection.
pub proof fn law_connect_tunnel<S, E>(
    conn: S,
    host: &str,
    port: u16,
    auth: Option<String>,
    r: ConnectTunnel<S, E>,
)
    requires
        call_ensures(connect_tunnel::<S, E>, (conn, host, port, auth), r),
    ensures
        r matches ConnectTunnel::Write { conn: c, request } && c == conn && (
        auth matches Some(value) ==> asks_for(request@, host@, port, Some(value@))) && (auth is None
            ==> asks_for(request@, host@, port, None)),
{
    law_request_text(host@, port, text_of(auth));
}

/// What [`HttpProxyTunnel`] starts is the exchange over the TCP stream it was given.
pub proof fn law_http_proxy_tunnel<T, S, E>(
    proxy: &HttpProxyTunnel,
    tcp: T,
    host: &str,
    port: u16,
    auth: Option<String>,
    r: Tunneling<T, S, E>,
)
    requires
        call_ensures(
            <HttpProxyTunnel as TunnelConnect<T, S, E>>::tunnel,
            (proxy, tcp, host, port, auth),
            r,
        ),
    ensures
        r.kind == ClientKind::Async,
        r.stage matches Stage::Plain(ConnectTunnel::Write { conn, request }) && conn == tcp && (
        auth matches Some(value) ==> asks_for(request@, host@, port, Some(value@))) && (auth is None
            ==> asks_for(request@, host@, port, None)),
{
    law_request_text(host@, port, text_of(auth));
}

/// What [`HttpsProxyTunnel`] starts is the handshake with the proxy over the TCP
/// stream it was given, whatever the settings; the target and the credentials are
/// kept for later.
pub proof fn law_https_proxy_tunnel<T, S, E>(
    proxy: &HttpsProxyTunnel,
    tcp: T,
    host: &str,
    port: u16,
    auth: Option<String>,
    r: Tunneling<T, S, E>,
)
    requires
        call_ensures(
            <HttpsProxyTunnel as TunnelConnect<T, S, E>>::tunnel,
            (proxy, tcp, host, port, auth),
            r,
        ),
    ensures
        r.kind == ClientKind::Async,
        r.stage matches Stage::SecureProxy { tcp: t, handshake, target } && t == tcp
            && handshake.config == proxy.config && handshake.server_name@ == proxy.proxy_host@
            && handshake.pinning == true && target.host@ == host@ && target.port == port && (
        target.auth is Some <==> auth is Some) && (auth matches Some(value) ==> target.auth->0@
            == value@),
{
}

/// The end of an exchange is handed on: the same connection, or the I/O error that
/// stands for the failure.
pub proof fn law_finish_tunnel<S, E>(
    end: Result<S, TunnelFailure<E>>,
    r: Result<S, IoError<E>>,
    failure: TunnelFailure<E>,
    error: IoError<E>,
)
    requires
        call_ensures(finish_tunnel::<S, E>, (end,), r),
        call_ensures(io_error::<E>, (failure,), error),
    ensures
        end matches Ok(conn) ==> r == Ok::<S, IoError<E>>(conn),
        end == Err::<S, TunnelFailure<E>>(failure) ==> r == Err::<S, IoError<E>>(error),
        failure matches TunnelFailure::Io(e) ==> error == IoError::<E>::Transport(e),
        failure is Closed || failure is Refused ==> error == IoError::<E>::Tunnel(
            CreateTunnelErr::Unsuccessful,
        ),
        failure is HeadersTooLong ==> error == IoError::<E>::Tunnel(
            CreateTunnelErr::ProxyHeadersTooLong,
        ),
        failure is AuthenticationRequired ==> error == IoError::<E>::Tunnel(
            CreateTunnelErr::ProxyAuthenticationRequired,
        ),
{
}

/// A tunnel error is wrapped as it is, and printed as its message.
pub proof fn law_tunnel_errors<E>(err: CreateTunnelErr, wrapped: IoError<E>, text: &'static str)
    requires
        call_ensures(other_io_error::<E>, (err,), wrapped),
        call_ensures(CreateTunnelErr::fmt, (&err,), text),
    ensures
        wrapped == IoError::<E>::Tunnel(err),
        err is ProxyHeadersTooLong ==> text@ == "Proxy headers too long for tunnel"@,
        err is ProxyAuthenticationRequired ==> text@ == "Proxy authentication required"@,
        err is Unsuccessful ==> text@ == "Unsuccessful tunnel"@,
{
}

} // verus!
