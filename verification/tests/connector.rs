//! Connections of the synchronous client, along every route.

use https_proxy::c_openssl::adapter::TlsConfig;
use https_proxy::config::{ConnectorConfig, HeaderValue, ProxyInfo, Scheme, Uri};
use https_proxy::error::{Cause, ErrorKind, HttpClientError};
use https_proxy::proxy::{Handshake, ProxyTunnel, Stage, Tunneling};
use https_proxy::sync_impl::connector::{Connecting, HttpConnector, MixStream};
use https_proxy::tunnel::ConnectTunnel;

type Connection = Connecting<&'static str, &'static str, &'static str, &'static str>;
type Transport = ProxyTunnel<&'static str, &'static str>;
type End = Result<MixStream<Transport, &'static str>, HttpClientError<&'static str>>;

fn uri(scheme: Scheme) -> Uri {
    Uri {
        scheme: Some(scheme),
        authority: Some(String::from("origin.example:8443")),
        host: Some(String::from("origin.example")),
        port: Some(8443),
    }
}

fn proxy(scheme: Scheme, tls: Option<TlsConfig>) -> ProxyInfo {
    ProxyInfo {
        scheme,
        authority: String::from("proxy.example:3128"),
        host: String::from("proxy.example"),
        basic_auth: Some(HeaderValue { text: Some(String::from("YTpi")) }),
        tls,
    }
}

fn connector(proxies: Vec<ProxyInfo>) -> HttpConnector {
    HttpConnector::new(ConnectorConfig { proxies, tls: TlsConfig::Context(1) })
}

/// How the outside world answers.
struct World {
    tcp: Result<&'static str, &'static str>,
    proxy: Result<&'static str, &'static str>,
    reply: &'static str,
    origin: Result<&'static str, &'static str>,
}

fn world() -> World {
    World {
        tcp: Ok("tcp"),
        proxy: Ok("proxy session"),
        reply: "HTTP/1.1 200 Connection Established\r\n\r\n",
        origin: Ok("origin session"),
    }
}

/// What the outside world saw, and what came of the connection.
struct Outcome {
    addr: String,
    with_proxy: Option<Handshake>,
    over_tcp: Vec<u8>,
    over_tls: Vec<u8>,
    with_origin: Option<(Transport, Handshake)>,
    end: End,
}

fn step(
    exchange: ConnectTunnel<&'static str, &'static str>,
    sent: &mut Vec<u8>,
    reply_text: &str,
) -> ConnectTunnel<&'static str, &'static str> {
    match exchange {
        ConnectTunnel::Write { conn, request } => {
            sent.extend_from_slice(&request);
            ConnectTunnel::on_write(conn, Ok(()))
        }
        ConnectTunnel::Read { conn, reply } => {
            ConnectTunnel::on_read(conn, reply, Ok(reply_text.as_bytes().to_vec()))
        }
        done => done,
    }
}

fn drive(connection: Connection, world: World) -> Outcome {
    let mut dialed = String::new();
    let mut with_proxy = None;
    let mut over_tcp = Vec::new();
    let mut over_tls = Vec::new();
    let mut with_origin = None;
    let mut connection = connection;
    loop {
        connection = match connection {
            Connecting::Dial { addr, route } => {
                dialed = addr;
                Connecting::on_dialed(route, world.tcp)
            }
            Connecting::SecureProxy { tcp, handshake } => {
                assert_eq!(tcp, "tcp");
                with_proxy = Some(handshake);
                Connecting::on_proxy_secured(world.proxy)
            }
            Connecting::Tunnel { hop, origin } => {
                let Tunneling { kind, stage } = hop;
                let hop = match stage {
                    Stage::SecureProxy { handshake, target, .. } => {
                        assert!(over_tcp.is_empty() && over_tls.is_empty());
                        with_proxy = Some(handshake);
                        Tunneling::on_secured(kind, target, world.proxy)
                    }
                    Stage::Plain(exchange) => {
                        Tunneling::on_plain(kind, step(exchange, &mut over_tcp, world.reply))
                    }
                    Stage::Tls(exchange) => {
                        Tunneling::on_tls(kind, step(exchange, &mut over_tls, world.reply))
                    }
                    stage => Tunneling { kind, stage },
                };
                Connecting::on_hop(origin, hop)
            }
            Connecting::SecureOrigin { transport, handshake } => {
                with_origin = Some((transport, handshake));
                Connecting::on_origin_secured(world.origin)
            }
            Connecting::Done(end) => {
                return Outcome { addr: dialed, with_proxy, over_tcp, over_tls, with_origin, end }
            }
        };
    }
}

#[test]
fn http_origin_without_proxy() {
    let outcome = drive(connector(vec![]).connect(&uri(Scheme::HTTP), None), world());
    assert_eq!(outcome.addr, "origin.example:8443");
    assert!(outcome.with_proxy.is_none() && outcome.with_origin.is_none());
    assert!(outcome.over_tcp.is_empty());
    assert!(matches!(outcome.end, Ok(MixStream::Http(ProxyTunnel::Plain("tcp")))));
}

#[test]
fn http_origin_through_plain_proxy() {
    let c = connector(vec![proxy(Scheme::HTTP, None)]);
    let outcome = drive(c.connect(&uri(Scheme::HTTP), Some(0)), world());
    assert_eq!(outcome.addr, "proxy.example:3128");
    assert!(outcome.with_proxy.is_none() && outcome.with_origin.is_none());
    assert!(outcome.over_tcp.is_empty());
    assert!(matches!(outcome.end, Ok(MixStream::Http(ProxyTunnel::Plain("tcp")))));
}

#[test]
fn http_origin_through_secured_proxy() {
    let c = connector(vec![proxy(Scheme::HTTPS, Some(TlsConfig::Context(2)))]);
    let outcome = drive(c.connect(&uri(Scheme::HTTP), Some(0)), world());
    assert_eq!(outcome.addr, "proxy.example:3128");
    let handshake = outcome.with_proxy.unwrap();
    assert_eq!(handshake.config, TlsConfig::Context(2));
    assert_eq!(handshake.server_name, "proxy.example");
    assert!(outcome.over_tcp.is_empty() && outcome.over_tls.is_empty());
    assert!(outcome.with_origin.is_none());
    match outcome.end {
        Ok(MixStream::Http(ProxyTunnel::Tls(session))) => assert_eq!(*session, "proxy session"),
        _ => panic!("not inside TLS to the proxy"),
    }
}

#[test]
fn https_origin_without_proxy() {
    let outcome = drive(connector(vec![]).connect(&uri(Scheme::HTTPS), None), world());
    assert_eq!(outcome.addr, "origin.example:8443");
    assert!(outcome.with_proxy.is_none());
    let (transport, handshake) = outcome.with_origin.unwrap();
    assert!(matches!(transport, ProxyTunnel::Plain("tcp")));
    assert_eq!(handshake.config, TlsConfig::Context(1));
    assert_eq!(handshake.server_name, "origin.example");
    assert!(!handshake.pinning);
    assert!(matches!(outcome.end, Ok(MixStream::Https("origin session"))));
}

#[test]
fn https_origin_through_plain_proxy() {
    let c = connector(vec![proxy(Scheme::HTTP, None)]);
    let outcome = drive(c.connect(&uri(Scheme::HTTPS), Some(0)), world());
    assert_eq!(outcome.addr, "proxy.example:3128");
    assert!(outcome.with_proxy.is_none());
    assert_eq!(
        outcome.over_tcp,
        b"CONNECT origin.example:8443 HTTP/1.1\r\nHost: origin.example:8443\r\nProxy-Authorization: Basic YTpi\r\n\r\n".to_vec()
    );
    let (transport, _) = outcome.with_origin.unwrap();
    assert!(matches!(transport, ProxyTunnel::Plain("tcp")));
    assert!(matches!(outcome.end, Ok(MixStream::Https("origin session"))));
}

#[test]
fn https_origin_through_secured_proxy_is_tls_in_tls() {
    let c = connector(vec![proxy(Scheme::HTTPS, Some(TlsConfig::Context(2)))]);
    let outcome = drive(c.connect(&uri(Scheme::HTTPS), Some(0)), world());
    let with_proxy = outcome.with_proxy.unwrap();
    assert_eq!(with_proxy.config, TlsConfig::Context(2));
    assert_eq!(with_proxy.server_name, "proxy.example");
    assert!(outcome.over_tcp.is_empty());
    assert!(outcome.over_tls.starts_with(b"CONNECT origin.example:8443 HTTP/1.1\r\n"));
    let (transport, with_origin) = outcome.with_origin.unwrap();
    match transport {
        ProxyTunnel::Tls(session) => assert_eq!(*session, "proxy session"),
        ProxyTunnel::Plain(_) => panic!("not inside TLS to the proxy"),
    }
    assert_eq!(with_origin.config, TlsConfig::Context(1));
    assert_eq!(with_origin.server_name, "origin.example");
    assert!(matches!(outcome.end, Ok(MixStream::Https("origin session"))));
}

#[test]
fn a_proxy_is_secured_by_its_scheme_or_its_settings() {
    assert!(proxy(Scheme::HTTPS, None).is_tls());
    assert!(proxy(Scheme::HTTP, Some(TlsConfig::Standard)).is_tls());
    assert!(!proxy(Scheme::HTTP, None).is_tls());
    assert_eq!(proxy(Scheme::HTTPS, None).proxy_tls_config(), TlsConfig::Standard);
    assert_eq!(
        proxy(Scheme::HTTPS, Some(TlsConfig::Context(9))).proxy_tls_config(),
        TlsConfig::Context(9)
    );
    assert_eq!(proxy(Scheme::HTTP, None).proxy_host(), "proxy.example");
}

#[test]
fn the_matched_proxy_is_used() {
    let mut second = proxy(Scheme::HTTP, None);
    second.authority = String::from("second.example:80");
    let c = connector(vec![proxy(Scheme::HTTPS, None), second]);
    assert_eq!(c.connect_addr(&uri(Scheme::HTTP), None), "origin.example:8443");
    assert_eq!(c.connect_addr(&uri(Scheme::HTTP), Some(0)), "proxy.example:3128");
    assert_eq!(c.connect_addr(&uri(Scheme::HTTP), Some(1)), "second.example:80");
    let outcome = drive(c.connect(&uri(Scheme::HTTPS), Some(1)), world());
    assert_eq!(outcome.addr, "second.example:80");
    assert!(outcome.with_proxy.is_none());
}

#[test]
fn credentials_that_are_not_text_are_left_out() {
    let mut info = proxy(Scheme::HTTP, None);
    info.basic_auth = Some(HeaderValue { text: None });
    let outcome = drive(connector(vec![info]).connect(&uri(Scheme::HTTPS), Some(0)), world());
    assert_eq!(
        outcome.over_tcp,
        b"CONNECT origin.example:8443 HTTP/1.1\r\nHost: origin.example:8443\r\n\r\n".to_vec()
    );
    let mut info = proxy(Scheme::HTTP, None);
    info.basic_auth = None;
    let outcome = drive(connector(vec![info]).connect(&uri(Scheme::HTTPS), Some(0)), world());
    assert_eq!(
        outcome.over_tcp,
        b"CONNECT origin.example:8443 HTTP/1.1\r\nHost: origin.example:8443\r\n\r\n".to_vec()
    );
}

#[test]
fn refused_tunnel_never_reaches_the_origin() {
    for scheme in [Scheme::HTTP, Scheme::HTTPS] {
        let c = connector(vec![proxy(scheme, None)]);
        let mut w = world();
        w.reply = "HTTP/1.1 407 Proxy Authentication Required\r\n\r\n";
        let outcome = drive(c.connect(&uri(Scheme::HTTPS), Some(0)), w);
        assert!(outcome.with_origin.is_none());
        assert!(matches!(
            outcome.end,
            Err(HttpClientError {
                kind: ErrorKind::Connect,
                cause: Cause::Text("proxy authentication required"),
            })
        ));
        let mut w = world();
        w.reply = "HTTP/1.1 502 Bad Gateway\r\n\r\n";
        let outcome = drive(c.connect(&uri(Scheme::HTTPS), Some(0)), w);
        assert!(outcome.with_origin.is_none());
        assert!(matches!(
            outcome.end,
            Err(HttpClientError { kind: ErrorKind::Connect, cause: Cause::Text("unsuccessful tunnel") })
        ));
    }
}

#[test]
fn untrusted_proxy_is_rejected() {
    for scheme in [Scheme::HTTP, Scheme::HTTPS] {
        let c = connector(vec![proxy(Scheme::HTTPS, Some(TlsConfig::Context(2)))]);
        let mut w = world();
        w.proxy = Err("certificate verify failed");
        let outcome = drive(c.connect(&uri(scheme), Some(0)), w);
        assert!(outcome.over_tcp.is_empty() && outcome.over_tls.is_empty());
        assert!(outcome.with_origin.is_none());
        assert!(matches!(
            outcome.end,
            Err(HttpClientError {
                kind: ErrorKind::Connect,
                cause: Cause::Error("certificate verify failed"),
            })
        ));
    }
}

#[test]
fn failed_tcp_and_origin_are_reported() {
    let mut w = world();
    w.tcp = Err("refused");
    let outcome = drive(connector(vec![]).connect(&uri(Scheme::HTTP), None), w);
    assert!(matches!(
        outcome.end,
        Err(HttpClientError { kind: ErrorKind::Connect, cause: Cause::Error("refused") })
    ));
    let mut w = world();
    w.origin = Err("hostname mismatch");
    let outcome = drive(connector(vec![]).connect(&uri(Scheme::HTTPS), None), w);
    assert!(matches!(
        outcome.end,
        Err(HttpClientError { kind: ErrorKind::Connect, cause: Cause::Error("hostname mismatch") })
    ));
}

#[test]
fn default_connector_has_no_proxies() {
    let c = HttpConnector::default();
    assert!(c.config().proxies.is_empty());
    assert_eq!(c.config().tls, TlsConfig::Standard);
}

/// Runs a connection against a proxy whose reply comes in pieces of `size`, and
/// counts the reads until the handshake with the origin is due.
fn reads_until_origin(scheme: Scheme, size: usize) -> usize {
    let c = connector(vec![proxy(scheme, None)]);
    let reply_text = b"HTTP/1.1 200 Connection Established\r\nVia: proxy\r\n\r\n";
    let mut reads = 0;
    let mut pieces = reply_text.chunks(size);
    let mut feed = |exchange| match exchange {
        ConnectTunnel::Write { conn, .. } => ConnectTunnel::on_write(conn, Ok(())),
        ConnectTunnel::Read { conn, reply } => {
            reads += 1;
            let piece = pieces.next().map(|piece| piece.to_vec()).unwrap_or_default();
            ConnectTunnel::on_read(conn, reply, Ok(piece))
        }
        done => done,
    };
    let mut connection: Connection = c.connect(&uri(Scheme::HTTPS), Some(0));
    loop {
        connection = match connection {
            Connecting::Dial { route, .. } => Connecting::on_dialed(route, Ok("tcp")),
            Connecting::Tunnel { hop, origin } => {
                let Tunneling { kind, stage } = hop;
                let hop = match stage {
                    Stage::SecureProxy { target, .. } => {
                        Tunneling::on_secured(kind, target, Ok("proxy session"))
                    }
                    Stage::Plain(exchange) => Tunneling::on_plain(kind, feed(exchange)),
                    Stage::Tls(exchange) => Tunneling::on_tls(kind, feed(exchange)),
                    stage => Tunneling { kind, stage },
                };
                Connecting::on_hop(origin, hop)
            }
            Connecting::SecureOrigin { transport, handshake } => {
                assert_eq!(handshake.config, TlsConfig::Context(1));
                assert_eq!(handshake.server_name, "origin.example");
                match transport {
                    ProxyTunnel::Plain(tcp) => assert_eq!((tcp, scheme), ("tcp", Scheme::HTTP)),
                    ProxyTunnel::Tls(session) => {
                        assert_eq!((*session, scheme), ("proxy session", Scheme::HTTPS))
                    }
                }
                let end: Connection = Connecting::on_origin_secured(Ok("origin session"));
                assert!(matches!(end, Connecting::Done(Ok(MixStream::Https("origin session")))));
                return reads;
            }
            _ => panic!("the origin is not reached"),
        };
    }
}

#[test]
fn granted_tunnel_reaches_the_origin_in_however_many_reads() {
    for scheme in [Scheme::HTTP, Scheme::HTTPS] {
        // 51 bytes; the first piece holds the status.
        assert_eq!(reads_until_origin(scheme, 51), 1);
        assert_eq!(reads_until_origin(scheme, 50), 2);
        assert_eq!(reads_until_origin(scheme, 26), 2);
        assert_eq!(reads_until_origin(scheme, 13), 4);
        assert_eq!(reads_until_origin(scheme, 12), 5);
    }
}
