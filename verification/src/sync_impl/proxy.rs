//! Tunnels of the synchronous client.

use vstd::prelude::*;

use crate::c_openssl::adapter::TlsConfig;
use crate::error::{Cause, ErrorKind, HttpClientError};
use crate::proxy::{
    gave_session, keeps_to_tls, law_plain_hop, law_secured_hop_keeps_to_tls, plain_hop, run,
    secured_hop, ClientKind, Handshake, HandshakeValue, Hop, HopEvent, ProxyTunnel, Stage,
    StageValue, Target, TargetValue, TunnelConnect, Tunneling,
};
use crate::tunnel::{
    asks_for, connect_request, law_request_text, opening, text_of, ConnectTunnel, Exchange,
    TunnelFailure,
};

verus! {

/// Starts to turn `conn` into a tunnel to `host:port`.
///
/// `conn` may be a TCP stream or a TLS session to the proxy. What
/// [`finish_tunnel`] makes of the end of the exchange is the result.
pub fn connect_tunnel<S, E>(conn: S, host: &str, port: u16, auth: Option<String>) -> (r: ConnectTunnel<S, E>)
    ensures
        r@ == opening::<S, E>(conn, host@, port, text_of(auth)),
{
    ConnectTunnel::open(conn, host, port, auth)
}

/// The client error for a tunnel that did not come about.
pub open spec fn client_error_of<E>(failure: TunnelFailure<E>) -> HttpClientError<E> {
    HttpClientError {
        kind: ErrorKind::Connect,
        cause: match failure {
            TunnelFailure::Io(e) => Cause::Error(e),
            TunnelFailure::Closed => Cause::Text("Error receiving from proxy"),
            TunnelFailure::HeadersTooLong => Cause::Text("proxy headers too long for tunnel"),
            TunnelFailure::AuthenticationRequired => Cause::Text("proxy authentication required"),
            TunnelFailure::Refused => Cause::Text("unsuccessful tunnel"),
        },
    }
}

/// Words a tunnel that did not come about as a client error.
pub fn client_error<E>(failure: TunnelFailure<E>) -> (r: HttpClientError<E>)
    ensures
        r == client_error_of(failure),
{
    match failure {
        TunnelFailure::Io(e) => HttpClientError::from_error(ErrorKind::Connect, e),
        TunnelFailure::Closed => HttpClientError::from_str(
            ErrorKind::Connect,
            "Error receiving from proxy",
        ),
        TunnelFailure::HeadersTooLong => HttpClientError::from_str(
            ErrorKind::Connect,
            "proxy headers too long for tunnel",
        ),
        TunnelFailure::AuthenticationRequired => HttpClientError::from_str(
            ErrorKind::Connect,
            "proxy authentication required",
        ),
        TunnelFailure::Refused => HttpClientError::from_str(
            ErrorKind::Connect,
            "unsuccessful tunnel",
        ),
    }
}

/// The result of [`connect_tunnel`] for the end of its exchange: the same
/// connection, or a client error.
pub fn finish_tunnel<S, E>(end: Result<S, TunnelFailure<E>>) -> (r: Result<S, HttpClientError<E>>)
    ensures
        r == (match end {
            Ok(conn) => Ok(conn),
            Err(failure) => Err(client_error_of(failure)),
        }),
{
    match end {
        Ok(conn) => Ok(conn),
        Err(failure) => Err(client_error(failure)),
    }
}

/// A plaintext proxy: `CONNECT` goes directly over TCP.
pub struct HttpProxyTunnel;

impl<T, S, E> TunnelConnect<T, S, E> for HttpProxyTunnel {
    open spec fn first_hop(&self, tcp: T, target: TargetValue) -> Hop<T, S, E> {
        plain_hop(ClientKind::Sync, tcp, target)
    }

    fn tunnel(&self, tcp: T, host: &str, port: u16, auth: Option<String>) -> (r: Tunneling<T, S, E>) {
        Tunneling {
            kind: ClientKind::Sync,
            stage: Stage::Plain(connect_tunnel(tcp, host, port, auth)),
        }
    }
}

/// A secured proxy: TLS to the proxy comes first, and `CONNECT` with any
/// credentials goes over the encrypted channel.
pub struct HttpsProxyTunnel {
    /// The TLS settings for the connection to the proxy.
    pub config: TlsConfig,
    /// The name of the proxy in its handshake.
    pub proxy_host: String,
}

impl<T, S, E> TunnelConnect<T, S, E> for HttpsProxyTunnel {
    open spec fn first_hop(&self, tcp: T, target: TargetValue) -> Hop<T, S, E> {
        secured_hop(
            ClientKind::Sync,
            tcp,
            HandshakeValue {
                config: self.config,
                server_name: self.proxy_host@,
                pinning: false,
            },
            target,
        )
    }

    fn tunnel(&self, tcp: T, host: &str, port: u16, auth: Option<String>) -> (r: Tunneling<T, S, E>) {
        let handshake = Handshake {
            config: self.config,
            server_name: self.proxy_host.clone(),
            pinning: false,
        };
        let target = Target { host: host.to_owned(), port, auth };
        Tunneling { kind: ClientKind::Sync, stage: Stage::SecureProxy { tcp, handshake, target } }
    }
}

/// A plaintext proxy is asked for the tunnel over the bare TCP stream, with the
/// request for the target and its credentials, and no handshake is ever run.
pub proof fn law_http_proxy_is_asked_over_tcp<T, S, E>(
    proxy: HttpProxyTunnel,
    tcp: T,
    target: TargetValue,
    events: Seq<HopEvent<S, E>>,
)
    ensures
        ({
            let start: Hop<T, S, E> = proxy.first_hop(tcp, target);
            let request = connect_request(target.host, target.port, target.auth);
            let end = run(start, events).stage;
            &&& start.kind == ClientKind::Sync
            &&& start.stage == StageValue::<T, S, E>::Plain(Exchange::Write { conn: tcp, request })
            &&& end !is SecureProxy && end !is Tls
            &&& end matches StageValue::Done(Ok(tunnel)) ==> tunnel == ProxyTunnel::<T, S>::Plain(
                tcp,
            )
        }),
{
    law_plain_hop::<T, S, E>(ClientKind::Sync, tcp, target, events);
}

/// A secured proxy is first met with a handshake, under its own settings and its
/// own name. Whatever happens, nothing is sent before a handshake gave a
/// session, and nothing is ever sent outside of it: neither the request for the
/// target nor its credentials.
pub proof fn law_https_proxy_is_secured_first<T, S, E>(
    proxy: HttpsProxyTunnel,
    tcp: T,
    target: TargetValue,
    events: Seq<HopEvent<S, E>>,
)
    ensures
        ({
            let start: Hop<T, S, E> = proxy.first_hop(tcp, target);
            let end = run(start, events).stage;
            &&& start.kind == ClientKind::Sync
            &&& start.stage matches StageValue::SecureProxy { tcp: t, handshake, target: g }
            &&& t == tcp
            &&& handshake.config == proxy.config
            &&& handshake.server_name == proxy.proxy_host@
            &&& handshake.pinning == false
            &&& g == target
            &&& end !is Plain
            &&& keeps_to_tls(
                end,
                events,
                connect_request(target.host, target.port, target.auth),
            )
            &&& (forall|session: S| !#[trigger] gave_session(events, session)) ==> end is SecureProxy
                || (end matches StageValue::Done(Err(_)))
        }),
{
    let start: Hop<T, S, E> = proxy.first_hop(tcp, target);
    law_secured_hop_keeps_to_tls(start, events);
}

/// Which client error stands for which end of an exchange, letter by letter.
pub proof fn law_client_errors<E>(e: E)
    ensures
        ({
            let report = |cause: Cause<E>| HttpClientError::<E> { kind: ErrorKind::Connect, cause };
            &&& client_error_of(TunnelFailure::Io(e)) == report(Cause::Error(e))
            &&& client_error_of(TunnelFailure::<E>::Closed) == report(
                Cause::Text("Error receiving from proxy"),
            )
            &&& client_error_of(TunnelFailure::<E>::Refused) == report(
                Cause::Text("unsuccessful tunnel"),
            )
            &&& client_error_of(TunnelFailure::<E>::HeadersTooLong) == report(
                Cause::Text("proxy headers too long for tunnel"),
            )
            &&& client_error_of(TunnelFailure::<E>::AuthenticationRequired) == report(
                Cause::Text("proxy authentication required"),
            )
        }),
{
}

/// A tunnel over any connection begins with the request on that connection.
pub proof fn law_connect_tunnel<S, E>(
    conn: S,
    host: &str,
    port: u16,
    auth: Option<String>,
    r: ConnectTunnel<S, E>,
)
    requires
        call_ensures(connect_tunnel::<S, E>, (conn, host, port, auth), r),
    ensures
        r matches ConnectTunnel::Write { conn: c, request } && c == conn && (
        auth matches Some(value) ==> asks_for(request@, host@, port, Some(value@))) && (auth is None
            ==> asks_for(request@, host@, port, None)),
{
    law_request_text(host@, port, text_of(auth));
}

/// What [`HttpProxyTunnel`] starts is the exchange over the TCP stream it was given.
pub proof fn law_http_proxy_tunnel<T, S, E>(
    proxy: &HttpProxyTunnel,
    tcp: T,
    host: &str,
    port: u16,
    auth: Option<String>,
    r: Tunneling<T, S, E>,
)
    requires
        call_ensures(
            <HttpProxyTunnel as TunnelConnect<T, S, E>>::tunnel,
            (proxy, tcp, host, port, auth),
            r,
        ),
    ensures
        r.kind == ClientKind::Sync,
        r.stage matches Stage::Plain(ConnectTunnel::Write { conn, request }) && conn == tcp && (
        auth matches Some(value) ==> asks_for(request@, host@, port, Some(value@))) && (auth is None
            ==> asks_for(request@, host@, port, None)),
{
    law_request_text(host@, port, text_of(auth));
}

/// What [`HttpsProxyTunnel`] starts is the handshake with the proxy over the TCP
/// stream it was given, whatever the settings; the target and the credentials are
/// kept for later.
pub proof fn law_https_proxy_tunnel<T, S, E>(
    proxy: &HttpsProxyTunnel,
    tcp: T,
    host: &str,
    port: u16,
    auth: Option<String>,
    r: Tunneling<T, S, E>,
)
    requires
        call_ensures(
            <HttpsProxyTunnel as TunnelConnect<T, S, E>>::tunnel,
            (proxy, tcp, host, port, auth),
            r,
        ),
    ensures
        r.kind == ClientKind::Sync,
        r.stage matches Stage::SecureProxy { tcp: t, handshake, target } && t == tcp
            && handshake.config == proxy.config && handshake.server_name@ == proxy.proxy_host@
            && handshake.pinning == false && target.host@ == host@ && target.port == port && (
        target.auth is Some <==> auth is Some) && (auth matches Some(value) ==> target.auth->0@
            == value@),
{
}

/// The end of an exchange is handed on: the same connection, or the client error
/// that stands for the failure.
pub proof fn law_finish_tunnel<S, E>(
    end: Result<S, TunnelFailure<E>>,
    r: Result<S, HttpClientError<E>>,
    failure: TunnelFailure<E>,
    error: HttpClientError<E>,
)
    requires
        call_ensures(finish_tunnel::<S, E>, (end,), r),
        call_ensures(client_error::<E>, (failure,), error),
    ensures
        end matches Ok(conn) ==> r == Ok::<S, HttpClientError<E>>(conn),
        end == Err::<S, TunnelFailure<E>>(failure) ==> r == Err::<S, HttpClientError<E>>(error),
        error.kind == ErrorKind::Connect,
        failure matches TunnelFailure::Io(e) ==> error.cause == Cause::<E>::Error(e),
        failure is Closed ==> error.cause == Cause::<E>::Text("Error receiving from proxy"),
        failure is Refused ==> error.cause == Cause::<E>::Text("unsuccessful tunnel"),
        failure is HeadersTooLong ==> error.cause == Cause::<E>::Text(
            "proxy headers too long for tunnel",
        ),
        failure is AuthenticationRequired ==> error.cause == Cause::<E>::Text(
            "proxy authentication required",
        ),
{
}

} // verus!
