# https_proxy

The proxy path of an HTTP client: how a connection reaches its origin directly,
through a plaintext proxy, or through a proxy that is itself secured by TLS. The
decisions are verified with [Verus](https://github.com/verus-lang/verus).

## Layout

- `src/tunnel.rs` - the `CONNECT` exchange as a state machine
- `src/proxy.rs` - a proxy hop: TLS to the proxy where needed, then `CONNECT`
- `src/async_impl/`, `src/sync_impl/proxy.rs` - the two clients' proxy protocols
  and errors
- `src/sync_impl/connector.rs` - the connector of the synchronous client
- `src/c_openssl/ctx.rs` - the libssl calls that set a context up
- `src/c_openssl/session.rs` - the cache of TLS sessions for resumption
- `src/config.rs`, `src/error.rs`, `src/octets.rs` - settings, errors, byte strings
- `tests/` - scenarios with concrete values
- `app/` - sockets, TLS streams, libssl and tokio around the library

The library performs no I/O. A value of a state machine names the work that is
due and carries the streams it is due on; whoever does the work hands the result
to the matching `on_..` function.

## What is proved

Each function states its result exactly. The `law_..` proof functions state what
holds of whole runs, whatever the outside world does. Among them: nothing is sent
to a secured proxy before its handshake succeeded, and nothing outside of it ever;
a tunnel that the proxy does not grant never reaches the origin, and one that it
grants does, in however many reads its reply comes (but a first read that ends
within the status is a refusal); the settings for proxy and origin stay apart; a
session is only ever offered by the very context that obtained it, also where a
later context comes to stand at the address of one that was freed; and no reference
to a session or to its context is lost or released twice. A context counts as freed
in these laws when its last reference is given up, by the cache or by anyone else.

One function is trusted: `utf8_text` in `src/c_openssl/session.rs`, which calls
`core::str::from_utf8`.
