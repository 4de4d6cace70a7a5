//! The `CONNECT` exchange, driven with scripted reads and writes.

use https_proxy::async_impl::proxy as async_proxy;
use https_proxy::async_impl::proxy::CreateTunnelErr;
use https_proxy::error::{Cause, ErrorKind, HttpClientError, IoError};
use https_proxy::octets::{append_decimal, append_text, ends_with, starts_with};
use https_proxy::sync_impl::proxy as sync_proxy;
use https_proxy::tunnel::{
    build_request, judge, ConnectTunnel, TunnelFailure, Verdict, REPLY_CAPACITY,
};

type Chunk = Result<Vec<u8>, &'static str>;

/// Runs an exchange on a connection called `conn`. A read that delivers more
/// than fits is split; after the script the stream is at its end.
fn drive(
    exchange: ConnectTunnel<&'static str, &'static str>,
    script: Vec<Chunk>,
) -> (Vec<u8>, Result<&'static str, TunnelFailure<&'static str>>) {
    let mut sent = Vec::new();
    let mut script: std::collections::VecDeque<Chunk> = script.into();
    let mut exchange = exchange;
    loop {
        exchange = match exchange {
            ConnectTunnel::Write { conn, request } => {
                sent.extend_from_slice(&request);
                ConnectTunnel::on_write(conn, Ok(()))
            }
            ConnectTunnel::Read { conn, reply } => {
                let result = match script.pop_front() {
                    Some(Ok(mut chunk)) => {
                        if chunk.len() > reply.room() {
                            let rest = chunk.split_off(reply.room());
                            script.push_front(Ok(rest));
                        }
                        Ok(chunk)
                    }
                    Some(Err(e)) => Err(e),
                    None => Ok(Vec::new()),
                };
                ConnectTunnel::on_read(conn, reply, result)
            }
            ConnectTunnel::Done(end) => return (sent, end),
        };
    }
}

fn tunnel_async(script: Vec<Chunk>) -> Result<&'static str, IoError<&'static str>> {
    let exchange = async_proxy::connect_tunnel(
        "conn",
        "ylong_http.com",
        443,
        Some(String::from("base64 bytes")),
    );
    async_proxy::finish_tunnel(drive(exchange, script).1)
}

fn tunnel_sync(script: Vec<Chunk>) -> Result<&'static str, HttpClientError<&'static str>> {
    let exchange = sync_proxy::connect_tunnel(
        "conn",
        "ylong_http.com",
        443,
        Some(String::from("base64 bytes")),
    );
    sync_proxy::finish_tunnel(drive(exchange, script).1)
}

fn text(s: &str) -> Chunk {
    Ok(s.as_bytes().to_vec())
}

fn tunnel_message(result: Result<&'static str, IoError<&'static str>>) -> &'static str {
    match result {
        Err(IoError::Tunnel(e)) => e.fmt(),
        Err(IoError::Transport(_)) => panic!("a transport error"),
        Err(IoError::Other(_)) => panic!("another error"),
        Ok(_) => panic!("a tunnel"),
    }
}

fn sync_message(result: Result<&'static str, HttpClientError<&'static str>>) -> &'static str {
    match result {
        Err(HttpClientError { kind: ErrorKind::Connect, cause: Cause::Text(message) }) => message,
        Err(_) => panic!("an error without a message"),
        Ok(_) => panic!("a tunnel"),
    }
}

#[test]
fn ut_ssl_tunnel_error() {
    let res = tunnel_async(vec![]);
    assert!(matches!(res.err(), Some(IoError::Tunnel(CreateTunnelErr::Unsuccessful))));

    let res = tunnel_async(vec![text(
        "HTTP/1.1 407 \r\nContent-Length: 11\r\n\r\nMETHOD GET!",
    )]);
    assert!(matches!(
        res.err(),
        Some(IoError::Tunnel(CreateTunnelErr::ProxyAuthenticationRequired))
    ));
}

#[test]
fn ut_ssl_tunnel_connect() {
    let res = tunnel_async(vec![text("HTTP/1.1 200 \r\n\r\n")]);
    assert!(res.is_ok());
}

#[test]
fn ut_ssl_tunnel_resp_beyond_size() {
    let buf = vec![b'b'; 8192];
    let body = String::from_utf8(buf).unwrap();
    let res = tunnel_async(vec![text(&format!(
        "HTTP/1.1 200 \r\nContent-Length: 11\r\n\r\n{}",
        body
    ))]);
    assert!(matches!(
        res.err(),
        Some(IoError::Tunnel(CreateTunnelErr::ProxyHeadersTooLong))
    ));
}

#[test]
fn request_with_credentials() {
    let request = build_request("ylong_http.com", 443, &Some(String::from("base64 bytes")));
    assert_eq!(
        request,
        b"CONNECT ylong_http.com:443 HTTP/1.1\r\nHost: ylong_http.com:443\r\nProxy-Authorization: Basic base64 bytes\r\n\r\n".to_vec()
    );
}

#[test]
fn request_without_credentials() {
    assert_eq!(
        build_request("example.com", 8080, &None),
        b"CONNECT example.com:8080 HTTP/1.1\r\nHost: example.com:8080\r\n\r\n".to_vec()
    );
    assert_eq!(
        build_request("h", 0, &None),
        b"CONNECT h:0 HTTP/1.1\r\nHost: h:0\r\n\r\n".to_vec()
    );
    assert_eq!(
        build_request("h", 65535, &None),
        b"CONNECT h:65535 HTTP/1.1\r\nHost: h:65535\r\n\r\n".to_vec()
    );
}

#[test]
fn request_is_what_the_exchange_sends() {
    let exchange = ConnectTunnel::open("conn", "example.com", 443, None);
    let (sent, end) = drive(exchange, vec![text("HTTP/1.1 200 OK\r\n\r\n")]);
    assert_eq!(sent, build_request("example.com", 443, &None));
    assert!(matches!(end, Ok("conn")));
    assert!(sent.ends_with(b"\r\n\r\n"));
}

#[test]
fn replies_are_judged_by_their_bytes() {
    assert_eq!(judge(b"HTTP/1.1 200 OK\r\n\r\n"), Verdict::Established);
    assert_eq!(judge(b"HTTP/1.0 200 OK\r\n\r\n"), Verdict::Established);
    assert_eq!(judge(b"HTTP/1.1 200 OK\r\n"), Verdict::Incomplete);
    assert_eq!(judge(b"HTTP/1.1 200"), Verdict::Incomplete);
    assert_eq!(judge(b"HTTP/1.1 407 \r\n\r\n"), Verdict::AuthenticationRequired);
    assert_eq!(judge(b"HTTP/1.0 407 \r\n\r\n"), Verdict::Refused);
    assert_eq!(judge(b"HTTP/1.1 502 \r\n\r\n"), Verdict::Refused);
    assert_eq!(judge(b"HTTP/1.1 20"), Verdict::Refused);
    assert_eq!(judge(b"HTTP/2 200 \r\n\r\n"), Verdict::Refused);
    assert_eq!(judge(b""), Verdict::Refused);
}

#[test]
fn replies_at_the_capacity() {
    let mut reply = b"HTTP/1.1 200 OK\r\nX: ".to_vec();
    reply.resize(REPLY_CAPACITY - 1, b'a');
    assert_eq!(judge(&reply), Verdict::Incomplete);
    reply.push(b'a');
    assert_eq!(judge(&reply), Verdict::HeadersTooLong);
    let end = reply.len() - 4;
    reply[end..].copy_from_slice(b"\r\n\r\n");
    assert_eq!(judge(&reply), Verdict::Established);
}

#[test]
fn accepted_reply_may_come_in_pieces() {
    let res = tunnel_async(vec![
        text("HTTP/1.1 200 Connection"),
        text(" Established\r\nVia: x\r"),
        text("\n\r\n"),
    ]);
    assert!(matches!(res, Ok("conn")));
}

#[test]
fn status_line_in_pieces_is_refused() {
    assert_eq!(
        tunnel_message(tunnel_async(vec![text("HTTP/1.1"), text(" 200 OK\r\n\r\n")])),
        "Unsuccessful tunnel"
    );
}

#[test]
fn body_bytes_keep_the_exchange_reading() {
    let res = tunnel_async(vec![
        text("HTTP/1.1 200 OK\r\n\r\nearly"),
        text(" bytes\r\n\r\n"),
    ]);
    assert!(matches!(res, Ok("conn")));
}

#[test]
fn transport_errors_are_passed_on() {
    assert!(matches!(
        tunnel_async(vec![Err("reset")]),
        Err(IoError::Transport("reset"))
    ));
    assert!(matches!(
        tunnel_async(vec![text("HTTP/1.1 200 OK\r\n"), Err("reset")]),
        Err(IoError::Transport("reset"))
    ));
    assert!(matches!(
        tunnel_sync(vec![Err("reset")]),
        Err(HttpClientError { kind: ErrorKind::Connect, cause: Cause::Error("reset") })
    ));
}

#[test]
fn failed_write_ends_the_exchange() {
    let exchange: ConnectTunnel<&'static str, &'static str> =
        ConnectTunnel::on_write("conn", Err("broken pipe"));
    assert!(matches!(
        exchange,
        ConnectTunnel::Done(Err(TunnelFailure::Io("broken pipe")))
    ));
}

#[test]
fn async_client_words_failures() {
    assert_eq!(tunnel_message(tunnel_async(vec![])), "Unsuccessful tunnel");
    assert_eq!(
        tunnel_message(tunnel_async(vec![text("HTTP/1.1 200 OK\r\n"), text("")])),
        "Unsuccessful tunnel"
    );
    assert_eq!(
        tunnel_message(tunnel_async(vec![text("HTTP/1.1 403 \r\n\r\n")])),
        "Unsuccessful tunnel"
    );
    assert_eq!(
        tunnel_message(tunnel_async(vec![text("HTTP/1.1 407 \r\n\r\n")])),
        "Proxy authentication required"
    );
    let mut long = b"HTTP/1.1 200 OK\r\nX: ".to_vec();
    long.resize(2 * REPLY_CAPACITY, b'a');
    assert_eq!(
        tunnel_message(tunnel_async(vec![Ok(long)])),
        "Proxy headers too long for tunnel"
    );
}

#[test]
fn sync_client_words_failures() {
    assert_eq!(sync_message(tunnel_sync(vec![])), "Error receiving from proxy");
    assert_eq!(
        sync_message(tunnel_sync(vec![text("HTTP/1.1 403 \r\n\r\n")])),
        "unsuccessful tunnel"
    );
    assert_eq!(
        sync_message(tunnel_sync(vec![text("HTTP/1.1 407 \r\n\r\n")])),
        "proxy authentication required"
    );
    let mut long = b"HTTP/1.0 200 OK\r\nX: ".to_vec();
    long.resize(REPLY_CAPACITY, b'a');
    assert_eq!(
        sync_message(tunnel_sync(vec![Ok(long)])),
        "proxy headers too long for tunnel"
    );
    assert!(matches!(tunnel_sync(vec![text("HTTP/1.0 200 \r\n\r\n")]), Ok("conn")));
}

#[test]
fn exchange_ends_after_as_many_reads_as_the_buffer_has_bytes() {
    let mut script: Vec<Chunk> = vec![text("HTTP/1.1 200")];
    for _ in 0..REPLY_CAPACITY {
        script.push(text("a"));
    }
    let exchange = ConnectTunnel::open("conn", "h", 1, None);
    assert!(matches!(
        drive(exchange, script).1,
        Err(TunnelFailure::HeadersTooLong)
    ));
}

#[test]
fn room_shrinks_with_what_was_read() {
    let exchange: ConnectTunnel<&'static str, &'static str> = ConnectTunnel::on_write("conn", Ok(()));
    let reply = match exchange {
        ConnectTunnel::Read { reply, .. } => reply,
        _ => panic!("nothing to read"),
    };
    assert_eq!(reply.room(), 8192);
    let exchange: ConnectTunnel<&'static str, &'static str> =
        ConnectTunnel::on_read("conn", reply, Ok(b"HTTP/1.1 200 OK".to_vec()));
    match exchange {
        ConnectTunnel::Read { reply, .. } => assert_eq!(reply.room(), 8192 - 15),
        _ => panic!("nothing to read"),
    }
}

#[test]
fn octet_strings() {
    let mut data = Vec::new();
    append_text(&mut data, "port ");
    append_decimal(&mut data, 8080);
    assert_eq!(data, b"port 8080".to_vec());
    assert!(starts_with(&data, b"port"));
    assert!(!starts_with(&data, b"part"));
    assert!(!starts_with(b"po", b"port"));
    assert!(ends_with(&data, b"80"));
    assert!(!ends_with(&data, b"81"));
    assert!(ends_with(&data, b""));
    let mut zero = Vec::new();
    append_decimal(&mut zero, 0);
    assert_eq!(zero, b"0".to_vec());
}
