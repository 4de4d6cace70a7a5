//! The `CONNECT` exchange with a proxy.
//!
//! [`ConnectTunnel`] is the exchange as a state machine. A value of it names the
//! work that is due on the connection to the proxy, and carries the connection.
//! Whoever holds the socket does that work and hands the result to
//! [`ConnectTunnel::on_write`] or [`ConnectTunnel::on_read`].

use vstd::prelude::*;
use vstd::utf8::{encode_utf8, encode_utf8_decode_utf8, is_ascii_chars_encode_utf8};

use crate::octets::{
    append, append_decimal, append_text, decimal, ends_with, is_numeral,
    law_decimal_is_the_numeral, starts_with,
};

verus! {

/// How many bytes of the proxy's reply are kept.
pub const REPLY_CAPACITY: usize = 8192;

/// The characters of an optional text.
pub open spec fn text_of(text: Option<String>) -> Option<Seq<char>> {
    match text {
        Some(s) => Some(s@),
        None => None,
    }
}

/// `host:port` on the wire.
pub open spec fn endpoint(host: Seq<char>, port: u16) -> Seq<u8> {
    encode_utf8(host) + encode_utf8(":"@) + decimal(port as nat)
}

/// The header line that carries the proxy credentials; empty without any.
pub open spec fn authorization(auth: Option<Seq<char>>) -> Seq<u8> {
    match auth {
        Some(value) => encode_utf8("Proxy-Authorization: Basic "@) + encode_utf8(value)
            + encode_utf8("\r\n"@),
        None => Seq::empty(),
    }
}

/// The request that asks a proxy for a tunnel to `host:port`.
pub open spec fn connect_request(host: Seq<char>, port: u16, auth: Option<Seq<char>>) -> Seq<u8> {
    encode_utf8("CONNECT "@) + endpoint(host, port) + encode_utf8(" HTTP/1.1\r\nHost: "@)
        + endpoint(host, port) + encode_utf8("\r\n"@) + authorization(auth) + encode_utf8("\r\n"@)
}

/// Builds the request that asks a proxy for a tunnel to `host:port`.
pub fn build_request(host: &str, port: u16, auth: &Option<String>) -> (request: Vec<u8>)
    ensures
        request@ == connect_request(host@, port, text_of(*auth)),
{
    let mut request: Vec<u8> = Vec::new();
    append_text(&mut request, "CONNECT ");
    append_endpoint(&mut request, host, port);
    append_text(&mut request, " HTTP/1.1\r\nHost: ");
    append_endpoint(&mut request, host, port);
    append_text(&mut request, "\r\n");
    let ghost head = request@;
    if let Some(value) = auth {
        append_text(&mut request, "Proxy-Authorization: Basic ");
        append_text(&mut request, value.as_str());
        append_text(&mut request, "\r\n");
    }
    assert(request@ =~= head + authorization(text_of(*auth)));
    append_text(&mut request, "\r\n");
    assert(request@ =~= connect_request(host@, port, text_of(*auth)));
    request
}

fn append_endpoint(request: &mut Vec<u8>, host: &str, port: u16)
    ensures
        final(request)@ == old(request)@ + endpoint(host@, port),
{
    append_text(request, host);
    append_text(request, ":");
    append_decimal(request, port);
    assert(request@ =~= old(request)@ + endpoint(host@, port));
}

/// What the bytes of a reply read so far mean.
#[derive(Clone, Copy, PartialEq, Eq, Structural, Debug)]
pub enum Verdict {
    /// The proxy accepted the tunnel and its header block is complete.
    Established,
    /// The proxy accepted the tunnel; its header block is not complete yet.
    Incomplete,
    /// The proxy accepted the tunnel, but the header block does not fit.
    HeadersTooLong,
    /// The proxy asks for credentials.
    AuthenticationRequired,
    /// The proxy answered in any other way.
    Refused,
}

/// Whether a reply begins with a status line of code 200.
pub open spec fn is_accepted(reply: Seq<u8>) -> bool {
    encode_utf8("HTTP/1.1 200"@).is_prefix_of(reply) || encode_utf8("HTTP/1.0 200"@).is_prefix_of(
        reply,
    )
}

/// Whether a reply begins with an HTTP/1.1 status line of code 407.
pub open spec fn wants_authentication(reply: Seq<u8>) -> bool {
    encode_utf8("HTTP/1.1 407"@).is_prefix_of(reply)
}

/// Whether the last bytes of a reply are an empty line.
pub open spec fn ends_header_block(reply: Seq<u8>) -> bool {
    encode_utf8("\r\n\r\n"@).is_suffix_of(reply)
}

/// The meaning of a reply read so far.
pub open spec fn verdict(reply: Seq<u8>) -> Verdict {
    if is_accepted(reply) {
        if ends_header_block(reply) {
            Verdict::Established
        } else if reply.len() >= REPLY_CAPACITY {
            Verdict::HeadersTooLong
        } else {
            Verdict::Incomplete
        }
    } else if wants_authentication(reply) {
        Verdict::AuthenticationRequired
    } else {
        Verdict::Refused
    }
}

/// Judges a reply read so far.
pub fn judge(reply: &[u8]) -> (r: Verdict)
    ensures
        r == verdict(reply@),
{
    if starts_with(reply, "HTTP/1.1 200".as_bytes()) || starts_with(
        reply,
        "HTTP/1.0 200".as_bytes(),
    ) {
        if ends_with(reply, "\r\n\r\n".as_bytes()) {
            Verdict::Established
        } else if reply.len() >= REPLY_CAPACITY {
            Verdict::HeadersTooLong
        } else {
            Verdict::Incomplete
        }
    } else if starts_with(reply, "HTTP/1.1 407".as_bytes()) {
        Verdict::AuthenticationRequired
    } else {
        Verdict::Refused
    }
}

/// Why no tunnel came about.
#[derive(Debug)]
pub enum TunnelFailure<E> {
    /// Reading or writing failed.
    Io(E),
    /// The proxy closed the connection.
    Closed,
    /// The reply's header block does not fit.
    HeadersTooLong,
    /// The proxy asks for credentials.
    AuthenticationRequired,
    /// The proxy answered in any other way.
    Refused,
}

/// The bytes of a reply read so far; there is always room for more.
pub struct Reply {
    received: Vec<u8>,
}

impl View for Reply {
    type V = Seq<u8>;

    closed spec fn view(&self) -> Seq<u8> {
        self.received@
    }
}

impl Reply {
    #[verifier::type_invariant]
    spec fn has_room(self) -> bool {
        self.received@.len() < REPLY_CAPACITY
    }

    /// How many bytes the next read may deliver.
    pub fn room(&self) -> (r: usize)
        ensures
            r == REPLY_CAPACITY - self@.len(),
            r > 0,
    {
        proof {
            use_type_invariant(self);
        }
        REPLY_CAPACITY - self.received.len()
    }
}

/// The `CONNECT` exchange on a connection of type `S`, where reads and writes
/// fail with an `E`.
pub enum ConnectTunnel<S, E> {
    /// All of `request` is to be written to `conn`.
    Write { conn: S, request: Vec<u8> },
    /// Up to `reply.room()` bytes are to be read from `conn`.
    Read { conn: S, reply: Reply },
    /// The exchange is over. On success the connection leads to the target.
    Done(Result<S, TunnelFailure<E>>),
}

/// The mathematical value of a [`ConnectTunnel`].
pub enum Exchange<S, E> {
    Write { conn: S, request: Seq<u8> },
    Read { conn: S, received: Seq<u8> },
    Done(Result<S, TunnelFailure<E>>),
}

impl<S, E> View for ConnectTunnel<S, E> {
    type V = Exchange<S, E>;

    open spec fn view(&self) -> Exchange<S, E> {
        match *self {
            ConnectTunnel::Write { conn, request } => Exchange::Write { conn, request: request@ },
            ConnectTunnel::Read { conn, reply } => Exchange::Read { conn, received: reply@ },
            ConnectTunnel::Done(result) => Exchange::Done(result),
        }
    }
}

/// The bytes that a read delivered, or its error.
pub open spec fn chunk_of<E>(result: Result<Vec<u8>, E>) -> Result<Seq<u8>, E> {
    match result {
        Ok(chunk) => Ok(chunk@),
        Err(e) => Err(e),
    }
}

/// The exchange before anything was sent.
pub open spec fn opening<S, E>(conn: S, host: Seq<char>, port: u16, auth: Option<Seq<char>>) -> Exchange<S, E> {
    Exchange::Write { conn, request: connect_request(host, port, auth) }
}

/// The exchange after the request was written.
pub open spec fn after_write<S, E>(conn: S, result: Result<(), E>) -> Exchange<S, E> {
    match result {
        Ok(_) => Exchange::Read { conn, received: Seq::empty() },
        Err(e) => Exchange::Done(Err(TunnelFailure::Io(e))),
    }
}

/// The exchange after a read. An empty read is the end of the stream.
pub open spec fn after_read<S, E>(conn: S, received: Seq<u8>, result: Result<Seq<u8>, E>) -> Exchange<S, E> {
    match result {
        Err(e) => Exchange::Done(Err(TunnelFailure::Io(e))),
        Ok(chunk) => if chunk.len() == 0 {
            Exchange::Done(Err(TunnelFailure::Closed))
        } else {
            match verdict(received + chunk) {
                Verdict::Established => Exchange::Done(Ok(conn)),
                Verdict::Incomplete => Exchange::Read { conn, received: received + chunk },
                Verdict::HeadersTooLong => Exchange::Done(Err(TunnelFailure::HeadersTooLong)),
                Verdict::AuthenticationRequired => Exchange::Done(
                    Err(TunnelFailure::AuthenticationRequired),
                ),
                Verdict::Refused => Exchange::Done(Err(TunnelFailure::Refused)),
            }
        },
    }
}

impl<S, E> ConnectTunnel<S, E> {
    /// Starts the exchange that turns `conn` into a tunnel to `host:port`.
    pub fn open(conn: S, host: &str, port: u16, auth: Option<String>) -> (r: Self)
        ensures
            r@ == opening::<S, E>(conn, host@, port, text_of(auth)),
    {
        ConnectTunnel::Write { conn, request: build_request(host, port, &auth) }
    }

    /// Goes on after the request was written to `conn`, or failed to be.
    pub fn on_write(conn: S, result: Result<(), E>) -> (r: Self)
        ensures
            r@ == after_write(conn, result),
    {
        match result {
            Ok(_) => ConnectTunnel::Read { conn, reply: Reply { received: Vec::new() } },
            Err(e) => ConnectTunnel::Done(Err(TunnelFailure::Io(e))),
        }
    }

    /// Goes on after a read from `conn` that added to `reply`, or failed.
    pub fn on_read(conn: S, reply: Reply, result: Result<Vec<u8>, E>) -> (r: Self)
        requires
            result matches Ok(chunk) ==> chunk@.len() <= REPLY_CAPACITY - reply@.len(),
        ensures
            r@ == after_read(conn, reply@, chunk_of(result)),
    {
        let chunk = match result {
            Ok(chunk) => chunk,
            Err(e) => return ConnectTunnel::Done(Err(TunnelFailure::Io(e))),
        };
        if chunk.len() == 0 {
            return ConnectTunnel::Done(Err(TunnelFailure::Closed));
        }
        let mut received: Vec<u8> = reply.received;
        append(&mut received, chunk.as_slice());
        match judge(received.as_slice()) {
            Verdict::Established => ConnectTunnel::Done(Ok(conn)),
            Verdict::Incomplete => ConnectTunnel::Read { conn, reply: Reply { received } },
            Verdict::HeadersTooLong => ConnectTunnel::Done(Err(TunnelFailure::HeadersTooLong)),
            Verdict::AuthenticationRequired => ConnectTunnel::Done(
                Err(TunnelFailure::AuthenticationRequired),
            ),
            Verdict::Refused => ConnectTunnel::Done(Err(TunnelFailure::Refused)),
        }
    }
}

/// A request ends with an empty line, as the header block of a request must.
pub proof fn law_request_ends_header_block(host: Seq<char>, port: u16, auth: Option<Seq<char>>)
    ensures
        ends_header_block(connect_request(host, port, auth)),
{
    reveal_strlit("\r\n");
    reveal_strlit("\r\n\r\n");
    is_ascii_chars_encode_utf8("\r\n"@);
    is_ascii_chars_encode_utf8("\r\n\r\n"@);
    let request = connect_request(host, port, auth);
    let n = request.len() as int;
    assert(authorization(auth).len() > 0 ==> encode_utf8("\r\n"@).is_suffix_of(
        authorization(auth),
    ));
    assert(encode_utf8("\r\n\r\n"@) =~= request.subrange(n - 4, n));
}

/// What came of the work that an exchange asked for.
pub enum Io<E> {
    /// The result of writing the request.
    Wrote(Result<(), E>),
    /// The result of a read.
    Got(Result<Seq<u8>, E>),
}

/// One step of an exchange. A result that was not asked for changes nothing.
pub open spec fn advance<S, E>(x: Exchange<S, E>, io: Io<E>) -> Exchange<S, E> {
    match (x, io) {
        (Exchange::Write { conn, request }, Io::Wrote(result)) => after_write(conn, result),
        (Exchange::Read { conn, received }, Io::Got(result)) => after_read(conn, received, result),
        _ => x,
    }
}

/// An exchange after a sequence of steps.
pub open spec fn run<S, E>(x: Exchange<S, E>, ios: Seq<Io<E>>) -> Exchange<S, E>
    decreases ios.len(),
{
    if ios.len() == 0 {
        x
    } else {
        advance(run(x, ios.drop_last()), ios.last())
    }
}

/// The bytes of the reply that one step adds.
pub open spec fn reply_added<S, E>(x: Exchange<S, E>, io: Io<E>) -> Seq<u8> {
    match (x, io) {
        (Exchange::Read { conn, received }, Io::Got(Ok(chunk))) => chunk,
        _ => Seq::empty(),
    }
}

/// All bytes of the reply that an exchange has read.
pub open spec fn reply_bytes<S, E>(x: Exchange<S, E>, ios: Seq<Io<E>>) -> Seq<u8>
    decreases ios.len(),
{
    if ios.len() == 0 {
        Seq::empty()
    } else {
        reply_bytes(x, ios.drop_last()) + reply_added(run(x, ios.drop_last()), ios.last())
    }
}

/// Whether the bytes of a reply call for `v`.
pub open spec fn means(reply: Seq<u8>, v: Verdict) -> bool {
    reply.len() > 0 && verdict(reply) == v
}

/// Whether `failure` can be the end of an exchange that has read `reply`.
pub open spec fn explains<E>(failure: TunnelFailure<E>, reply: Seq<u8>) -> bool {
    match failure {
        TunnelFailure::Io(_) => reply.len() == 0 || means(reply, Verdict::Incomplete),
        TunnelFailure::Closed => reply.len() == 0 || means(reply, Verdict::Incomplete),
        TunnelFailure::HeadersTooLong => means(reply, Verdict::HeadersTooLong),
        TunnelFailure::AuthenticationRequired => means(reply, Verdict::AuthenticationRequired),
        TunnelFailure::Refused => means(reply, Verdict::Refused),
    }
}

/// How an exchange stands that sends `request` on `conn` and has read `reply`.
pub open spec fn stands<S, E>(
    x: Exchange<S, E>,
    conn: S,
    request: Seq<u8>,
    reply: Seq<u8>,
) -> bool {
    match x {
        Exchange::Write { conn: c, request: r } => c == conn && r == request && reply.len() == 0,
        Exchange::Read { conn: c, received } => c == conn && received == reply && reply.len()
            < REPLY_CAPACITY && (reply.len() == 0 || means(reply, Verdict::Incomplete)),
        Exchange::Done(Ok(c)) => c == conn && means(reply, Verdict::Established),
        Exchange::Done(Err(failure)) => explains(failure, reply),
    }
}

/// One step keeps an exchange in line with the reply read so far.
pub proof fn lemma_exchange_step<S, E>(
    x: Exchange<S, E>,
    conn: S,
    request: Seq<u8>,
    reply: Seq<u8>,
    io: Io<E>,
)
    requires
        stands(x, conn, request, reply),
    ensures
        stands(advance(x, io), conn, request, reply + reply_added(x, io)),
{
    let added = reply_added(x, io);
    assert(added.len() == 0 ==> reply + added =~= reply);
}

/// The reply alone decides. Whatever the reads and writes deliver, an exchange
/// succeeds exactly when the bytes read begin with a 200 status and end with an
/// empty line, and then hands back the connection it was given; it reports
/// missing credentials, an oversized header block or a refusal exactly when the
/// bytes read mean that; and it buffers less than the capacity while it reads.
pub proof fn law_reply_decides<S, E>(
    conn: S,
    host: Seq<char>,
    port: u16,
    auth: Option<Seq<char>>,
    ios: Seq<Io<E>>,
)
    ensures
        ({
            let start = opening::<S, E>(conn, host, port, auth);
            let reply = reply_bytes(start, ios);
            let end = run(start, ios);
            &&& stands(end, conn, connect_request(host, port, auth), reply)
            &&& end == Exchange::<S, E>::Done(Ok(conn)) <==> means(reply, Verdict::Established)
            &&& end == Exchange::<S, E>::Done(Err(TunnelFailure::HeadersTooLong)) <==> means(
                reply,
                Verdict::HeadersTooLong,
            )
            &&& end == Exchange::<S, E>::Done(Err(TunnelFailure::AuthenticationRequired))
                <==> means(reply, Verdict::AuthenticationRequired)
            &&& end == Exchange::<S, E>::Done(Err(TunnelFailure::Refused)) <==> means(
                reply,
                Verdict::Refused,
            )
        }),
    decreases ios.len(),
{
    let start = opening::<S, E>(conn, host, port, auth);
    if ios.len() > 0 {
        law_reply_decides(conn, host, port, auth, ios.drop_last());
        lemma_exchange_step(
            run(start, ios.drop_last()),
            conn,
            connect_request(host, port, auth),
            reply_bytes(start, ios.drop_last()),
            ios.last(),
        );
    }
}

/// An exchange that is over stays as it ended.
pub proof fn law_end_is_final<S, E>(x: Exchange<S, E>, ios: Seq<Io<E>>)
    requires
        x is Done,
    ensures
        run(x, ios) == x,
    decreases ios.len(),
{
    if ios.len() > 0 {
        law_end_is_final(x, ios.drop_last());
    }
}

/// Every exchange ends: once the request is written, it is over after at most
/// as many reads as the reply buffer has bytes.
pub proof fn law_exchange_ends<S, E>(
    conn: S,
    host: Seq<char>,
    port: u16,
    auth: Option<Seq<char>>,
    ios: Seq<Io<E>>,
)
    requires
        ios.len() > REPLY_CAPACITY,
        ios[0] is Wrote,
        forall|i: int| 0 < i < ios.len() ==> ios[i] is Got,
    ensures
        run(opening::<S, E>(conn, host, port, auth), ios) is Done,
{
    lemma_reads_progress(conn, host, port, auth, ios);
}

proof fn lemma_reads_progress<S, E>(
    conn: S,
    host: Seq<char>,
    port: u16,
    auth: Option<Seq<char>>,
    ios: Seq<Io<E>>,
)
    requires
        ios.len() > 0,
        ios[0] is Wrote,
        forall|i: int| 0 < i < ios.len() ==> ios[i] is Got,
    ensures
        ({
            let x = run(opening::<S, E>(conn, host, port, auth), ios);
            x is Done || (x is Read && ios.len() - 1 <= x->received.len() < REPLY_CAPACITY)
        }),
    decreases ios.len(),
{
    let start = opening::<S, E>(conn, host, port, auth);
    law_reply_decides(conn, host, port, auth, ios);
    reveal_with_fuel(run, 2);
    if ios.len() > 1 {
        let before = ios.drop_last();
        assert forall|i: int| 0 < i < before.len() implies before[i] is Got by {
            assert(before[i] == ios[i]);
        }
        assert(before[0] == ios[0]);
        lemma_reads_progress(conn, host, port, auth, before);
        assert(ios.last() is Got);
    }
}

/// The line of a request that carries the credentials `value`.
pub open spec fn credentials_line(value: Seq<char>) -> Seq<u8> {
    encode_utf8("Proxy-Authorization: Basic "@) + encode_utf8(value) + encode_utf8("\r\n"@)
}

/// Whether `part` occurs in `whole`.
pub open spec fn occurs(part: Seq<u8>, whole: Seq<u8>) -> bool {
    exists|head: Seq<u8>, tail: Seq<u8>| whole == #[trigger] (head + part + tail)
}

/// The text of a request, letter by letter: the request line names the target
/// by host and port, the `Host` header repeats both, the credentials follow if
/// there are any, and an empty line ends it.
pub proof fn law_request_text(host: Seq<char>, port: u16, auth: Option<Seq<char>>)
    ensures
        exists|digits: Seq<u8>| #[trigger]
            is_numeral(digits, port as int) && connect_request(host, port, auth) == encode_utf8(
                "CONNECT "@,
            ) + encode_utf8(host) + encode_utf8(":"@) + digits + encode_utf8(
                " HTTP/1.1\r\nHost: "@,
            ) + encode_utf8(host) + encode_utf8(":"@) + digits + encode_utf8("\r\n"@) + (
            match auth {
                Some(value) => credentials_line(value),
                None => Seq::empty(),
            }) + encode_utf8("\r\n"@),
        auth matches Some(value) ==> occurs(
            credentials_line(value),
            connect_request(host, port, auth),
        ),
{
    let digits = decimal(port as nat);
    law_decimal_is_the_numeral(port as nat);
    let head = encode_utf8("CONNECT "@) + endpoint(host, port) + encode_utf8(
        " HTTP/1.1\r\nHost: "@,
    ) + endpoint(host, port) + encode_utf8("\r\n"@);
    let tail = encode_utf8("\r\n"@);
    assert(is_numeral(digits, port as int));
    assert(connect_request(host, port, auth) =~= encode_utf8("CONNECT "@) + encode_utf8(host)
        + encode_utf8(":"@) + digits + encode_utf8(" HTTP/1.1\r\nHost: "@) + encode_utf8(host)
        + encode_utf8(":"@) + digits + encode_utf8("\r\n"@) + (match auth {
        Some(value) => credentials_line(value),
        None => Seq::empty(),
    }) + encode_utf8("\r\n"@));
    if let Some(value) = auth {
        assert(connect_request(host, port, auth) =~= head + credentials_line(value) + tail);
    }
}

/// The request line without its end.
pub open spec fn request_line(host: Seq<char>, digits: Seq<u8>) -> Seq<u8> {
    encode_utf8("CONNECT "@) + encode_utf8(host) + encode_utf8(":"@) + digits + encode_utf8(
        " HTTP/1.1"@,
    )
}

/// Whether `line` is the first line of `text`: the bytes before the first line
/// end.
pub open spec fn is_first_line(line: Seq<u8>, text: Seq<u8>) -> bool {
    let n = line.len() as int;
    &&& text.len() > n + 1
    &&& text.take(n) == line
    &&& text[n] == 13
    &&& text[n + 1] == 10
    &&& !line.contains(13)
}

/// The bytes of a request up to the first line end are `CONNECT`, the host, a
/// colon, the number of the port and the version.
pub proof fn law_request_line(host: Seq<char>, port: u16, auth: Option<Seq<char>>)
    requires
        !encode_utf8(host).contains(13),
    ensures
        exists|digits: Seq<u8>| #[trigger]
            is_numeral(digits, port as int) && is_first_line(
                request_line(host, digits),
                connect_request(host, port, auth),
            ),
{
    reveal_strlit("CONNECT ");
    reveal_strlit(":");
    reveal_strlit(" HTTP/1.1");
    reveal_strlit(" HTTP/1.1\r\nHost: ");
    is_ascii_chars_encode_utf8("CONNECT "@);
    is_ascii_chars_encode_utf8(":"@);
    is_ascii_chars_encode_utf8(" HTTP/1.1"@);
    is_ascii_chars_encode_utf8(" HTTP/1.1\r\nHost: "@);
    let digits = decimal(port as nat);
    law_decimal_is_the_numeral(port as nat);
    let line = request_line(host, digits);
    let request = connect_request(host, port, auth);
    assert(is_numeral(digits, port as int));
    let front = encode_utf8("CONNECT "@) + endpoint(host, port);
    let version = encode_utf8(" HTTP/1.1\r\nHost: "@);
    assert(version.take(9) =~= encode_utf8(" HTTP/1.1"@));
    assert(line =~= front + version.take(9));
    assert(request.take((front.len() + version.len()) as int) =~= front + version);
    assert(request.take(line.len() as int) =~= line);
    assert forall|i: int| 0 <= i < line.len() implies line[i] != 13 by {
        let a = encode_utf8("CONNECT "@).len() as int;
        let b = a + encode_utf8(host).len();
        if a <= i < b {
            assert(line[i] == encode_utf8(host)[i - a]);
        } else if b < i < b + 1 + digits.len() {
            assert(line[i] == digits[i - b - 1]);
        }
    }
    assert(request[line.len() as int] == version[9]);
    assert(request[line.len() as int + 1] == version[10]);
}

/// A request can be read back: two equal requests ask for the same host and the
/// same port with the same credentials.
pub proof fn law_request_is_read_back(
    host: Seq<char>,
    port: u16,
    auth: Option<Seq<char>>,
    other_host: Seq<char>,
    other_port: u16,
    other_auth: Option<Seq<char>>,
)
    requires
        !encode_utf8(host).contains(13),
        !encode_utf8(other_host).contains(13),
        connect_request(host, port, auth) == connect_request(other_host, other_port, other_auth),
    ensures
        host == other_host,
        port == other_port,
        auth == other_auth,
{
    law_request_line(host, port, auth);
    law_request_line(other_host, other_port, other_auth);
    let request = connect_request(host, port, auth);
    let d1 = choose|digits: Seq<u8>| #[trigger]
        is_numeral(digits, port as int) && is_first_line(request_line(host, digits), request);
    let d2 = choose|digits: Seq<u8>| #[trigger]
        is_numeral(digits, other_port as int) && is_first_line(request_line(other_host, digits), request);
    let l1 = request_line(host, d1);
    let l2 = request_line(other_host, d2);
    if l1.len() < l2.len() {
        assert(l2[l1.len() as int] == request.take(l2.len() as int)[l1.len() as int]);
    }
    if l2.len() < l1.len() {
        assert(l1[l2.len() as int] == request.take(l1.len() as int)[l2.len() as int]);
    }
    assert(l1 == l2);
    lemma_line_is_read_back(host, d1, port as int, other_host, d2, other_port as int);
    lemma_credentials_are_read_back(host, port, auth, other_auth);
}

proof fn lemma_line_is_read_back(
    host: Seq<char>,
    d1: Seq<u8>,
    port: int,
    other_host: Seq<char>,
    d2: Seq<u8>,
    other_port: int,
)
    requires
        request_line(host, d1) == request_line(other_host, d2),
        is_numeral(d1, port),
        is_numeral(d2, other_port),
    ensures
        host == other_host,
        port == other_port,
{
    reveal_strlit(":");
    is_ascii_chars_encode_utf8(":"@);
    let line = request_line(host, d1);
    let n = line.len() - encode_utf8(" HTTP/1.1"@).len();
    let a = encode_utf8("CONNECT "@).len() as int;
    let colon1 = n - d1.len() - 1;
    let colon2 = n - d2.len() - 1;
    assert(line[colon1] == 58);
    assert(line[colon2] == 58);
    if colon1 < colon2 {
        assert(line[colon2] == d1[colon2 - colon1 - 1]);
    }
    if colon2 < colon1 {
        assert(line[colon1] == d2[colon1 - colon2 - 1]);
    }
    assert(d1 =~= line.subrange(colon1 + 1, n));
    assert(d2 =~= line.subrange(colon2 + 1, n));
    assert(encode_utf8(host) =~= line.subrange(a, colon1));
    assert(encode_utf8(other_host) =~= line.subrange(a, colon2));
    encode_utf8_decode_utf8(host);
    encode_utf8_decode_utf8(other_host);
}

proof fn lemma_credentials_are_read_back(
    host: Seq<char>,
    port: u16,
    auth: Option<Seq<char>>,
    other_auth: Option<Seq<char>>,
)
    requires
        connect_request(host, port, auth) == connect_request(host, port, other_auth),
    ensures
        auth == other_auth,
{
    reveal_strlit("Proxy-Authorization: Basic ");
    is_ascii_chars_encode_utf8("Proxy-Authorization: Basic "@);
    let request = connect_request(host, port, auth);
    let m = authorization(auth).len() as int;
    let tail = encode_utf8("\r\n"@).len() as int;
    let a = request.len() - tail - m;
    assert(authorization(auth).len() == authorization(other_auth).len());
    assert(authorization(auth) =~= request.subrange(a, a + m));
    assert(authorization(other_auth) =~= request.subrange(a, a + m));
    if let (Some(v1), Some(v2)) = (auth, other_auth) {
        let p = encode_utf8("Proxy-Authorization: Basic "@).len() as int;
        assert(encode_utf8(v1) =~= authorization(auth).subrange(p, m - tail));
        assert(encode_utf8(v2) =~= authorization(other_auth).subrange(p, m - tail));
        encode_utf8_decode_utf8(v1);
        encode_utf8_decode_utf8(v2);
    }
}

/// Whether a reply begins with `HTTP/1.1 200` or `HTTP/1.0 200`.
pub open spec fn says_200(reply: Seq<u8>) -> bool {
    reply.len() >= 12 && (reply.take(12) == seq![
        72u8,
        84,
        84,
        80,
        47,
        49,
        46,
        49,
        32,
        50,
        48,
        48,
    ] || reply.take(12) == seq![72u8, 84, 84, 80, 47, 49, 46, 48, 32, 50, 48, 48])
}

/// Whether a reply begins with `HTTP/1.1 407`.
pub open spec fn says_407(reply: Seq<u8>) -> bool {
    reply.len() >= 12 && reply.take(12) == seq![
        72u8,
        84,
        84,
        80,
        47,
        49,
        46,
        49,
        32,
        52,
        48,
        55,
    ]
}

/// Whether a reply ends with an empty line.
pub open spec fn is_complete(reply: Seq<u8>) -> bool {
    reply.len() >= 4 && reply.skip(reply.len() - 4) == seq![13u8, 10, 13, 10]
}

/// What a reply means, by its bytes.
pub proof fn law_verdict_of_bytes(reply: Seq<u8>)
    ensures
        verdict(reply) == Verdict::Established <==> says_200(reply) && is_complete(reply),
        verdict(reply) == Verdict::HeadersTooLong <==> says_200(reply) && !is_complete(reply)
            && reply.len() >= 8192,
        verdict(reply) == Verdict::Incomplete <==> says_200(reply) && !is_complete(reply)
            && reply.len() < 8192,
        verdict(reply) == Verdict::AuthenticationRequired <==> says_407(reply),
        verdict(reply) == Verdict::Refused <==> !says_200(reply) && !says_407(reply),
{
    reveal_strlit("HTTP/1.1 200");
    reveal_strlit("HTTP/1.0 200");
    reveal_strlit("HTTP/1.1 407");
    reveal_strlit("\r\n\r\n");
    is_ascii_chars_encode_utf8("HTTP/1.1 200"@);
    is_ascii_chars_encode_utf8("HTTP/1.0 200"@);
    is_ascii_chars_encode_utf8("HTTP/1.1 407"@);
    is_ascii_chars_encode_utf8("\r\n\r\n"@);
    let ok11 = seq![72u8, 84, 84, 80, 47, 49, 46, 49, 32, 50, 48, 48];
    let ok10 = seq![72u8, 84, 84, 80, 47, 49, 46, 48, 32, 50, 48, 48];
    let auth = seq![72u8, 84, 84, 80, 47, 49, 46, 49, 32, 52, 48, 55];
    let end = seq![13u8, 10, 13, 10];
    assert(encode_utf8("HTTP/1.1 200"@) =~= ok11);
    assert(encode_utf8("HTTP/1.0 200"@) =~= ok10);
    assert(encode_utf8("HTTP/1.1 407"@) =~= auth);
    assert(encode_utf8("\r\n\r\n"@) =~= end);
    if reply.len() >= 12 {
        assert(reply.take(12) =~= reply.subrange(0, 12));
    }
    if reply.len() >= 4 {
        assert(reply.skip(reply.len() - 4) =~= reply.subrange(
            reply.len() - 4,
            reply.len() as int,
        ));
    }
    assert(ok11[9] != auth[9]);
    assert(ok10[9] != auth[9]);
}

/// Over a whole exchange, the status and the last bytes of the reply decide: the
/// connection is handed back as a tunnel exactly when the proxy answered 200 and
/// its header block is complete, and each refusal comes exactly with its answer.
pub proof fn law_tunnel_needs_status_200<S, E>(
    conn: S,
    host: Seq<char>,
    port: u16,
    auth: Option<Seq<char>>,
    ios: Seq<Io<E>>,
)
    ensures
        ({
            let start = opening::<S, E>(conn, host, port, auth);
            let reply = reply_bytes(start, ios);
            let end = run(start, ios);
            &&& (end matches Exchange::Done(Ok(_))) <==> says_200(reply) && is_complete(reply)
            &&& end matches Exchange::Done(Ok(c)) ==> c == conn
            &&& end == Exchange::<S, E>::Done(Err(TunnelFailure::AuthenticationRequired))
                <==> says_407(reply)
            &&& end == Exchange::<S, E>::Done(Err(TunnelFailure::HeadersTooLong)) <==> says_200(
                reply,
            ) && !is_complete(reply) && reply.len() >= 8192
            &&& end == Exchange::<S, E>::Done(Err(TunnelFailure::Refused)) <==> reply.len() > 0
                && !says_200(reply) && !says_407(reply)
        }),
{
    let reply = reply_bytes(opening::<S, E>(conn, host, port, auth), ios);
    law_reply_decides(conn, host, port, auth, ios);
    law_verdict_of_bytes(reply);
}

/// An exchange begins with the whole request on the connection it was given; it
/// then reads; and each read either ends it or leaves it reading with all bytes
/// read so far. An empty read is the end of the stream.
pub proof fn law_exchange_steps<S, E>(
    conn: S,
    host: Seq<char>,
    port: u16,
    auth: Option<Seq<char>>,
    received: Seq<u8>,
    chunk: Seq<u8>,
    e: E,
)
    ensures
        opening::<S, E>(conn, host, port, auth) == (Exchange::<S, E>::Write {
            conn,
            request: connect_request(host, port, auth),
        }),
        after_write::<S, E>(conn, Ok(())) == (Exchange::<S, E>::Read {
            conn,
            received: Seq::empty(),
        }),
        after_write::<S, E>(conn, Err(e)) == Exchange::<S, E>::Done(Err(TunnelFailure::Io(e))),
        after_read::<S, E>(conn, received, Err(e)) == Exchange::<S, E>::Done(
            Err(TunnelFailure::Io(e)),
        ),
        after_read::<S, E>(conn, received, Ok(Seq::empty())) == Exchange::<S, E>::Done(
            Err(TunnelFailure::Closed),
        ),
        chunk.len() > 0 ==> ({
            let reply = received + chunk;
            let next = after_read::<S, E>(conn, received, Ok(chunk));
            &&& says_200(reply) && is_complete(reply) ==> next == Exchange::<S, E>::Done(Ok(conn))
            &&& says_200(reply) && !is_complete(reply) && reply.len() >= 8192 ==> next
                == Exchange::<S, E>::Done(Err(TunnelFailure::HeadersTooLong))
            &&& says_200(reply) && !is_complete(reply) && reply.len() < 8192 ==> next == (
            Exchange::<S, E>::Read { conn, received: reply })
            &&& says_407(reply) ==> next == Exchange::<S, E>::Done(
                Err(TunnelFailure::AuthenticationRequired),
            )
            &&& !says_200(reply) && !says_407(reply) ==> next == Exchange::<S, E>::Done(
                Err(TunnelFailure::Refused),
            )
        }),
{
    law_verdict_of_bytes(received + chunk);
}

/// The mathematical value of an exchange shows all that it holds.
pub proof fn law_exchange_value<S, E>(
    conn: S,
    request: Vec<u8>,
    reply: Reply,
    end: Result<S, TunnelFailure<E>>,
    text: String,
    chunk: Vec<u8>,
    e: E,
)
    ensures
        (ConnectTunnel::<S, E>::Write { conn, request })@ == (Exchange::<S, E>::Write {
            conn,
            request: request@,
        }),
        (ConnectTunnel::<S, E>::Read { conn, reply })@ == (Exchange::<S, E>::Read {
            conn,
            received: reply@,
        }),
        ConnectTunnel::<S, E>::Done(end)@ == Exchange::<S, E>::Done(end),
        text_of(Some(text)) == Some(text@),
        text_of(None) is None,
        chunk_of::<E>(Ok(chunk)) == Ok::<Seq<u8>, E>(chunk@),
        chunk_of::<E>(Err(e)) == Err::<Seq<u8>, E>(e),
{
}

/// Whether `request` asks for a tunnel to `host:port` with these credentials, letter
/// by letter.
pub open spec fn asks_for(
    request: Seq<u8>,
    host: Seq<char>,
    port: u16,
    auth: Option<Seq<char>>,
) -> bool {
    exists|digits: Seq<u8>| #[trigger]
        is_numeral(digits, port as int) && request == encode_utf8("CONNECT "@) + encode_utf8(host)
            + encode_utf8(":"@) + digits + encode_utf8(" HTTP/1.1\r\nHost: "@) + encode_utf8(host)
            + encode_utf8(":"@) + digits + encode_utf8("\r\n"@) + (match auth {
            Some(value) => credentials_line(value),
            None => Seq::empty(),
        }) + encode_utf8("\r\n"@)
}

/// What a call of [`build_request`] returns asks for a tunnel to that host and port,
/// with those credentials.
pub proof fn law_built_request(host: &str, port: u16, auth: &Option<String>, request: Vec<u8>)
    requires
        call_ensures(build_request, (host, port, auth), request),
    ensures
        auth matches Some(value) ==> asks_for(request@, host@, port, Some(value@)),
        auth is None ==> asks_for(request@, host@, port, None),
        !encode_utf8(host@).contains(13) ==> exists|digits: Seq<u8>| #[trigger]
            is_numeral(digits, port as int) && is_first_line(request_line(host@, digits), request@),
{
    law_request_text(host@, port, text_of(*auth));
    if !encode_utf8(host@).contains(13) {
        law_request_line(host@, port, text_of(*auth));
    }
}

/// What a call of [`judge`] returns follows from the bytes of the reply.
pub proof fn law_judgement(reply: &[u8], r: Verdict)
    requires
        call_ensures(judge, (reply,), r),
    ensures
        r == Verdict::Established <==> says_200(reply@) && is_complete(reply@),
        r == Verdict::HeadersTooLong <==> says_200(reply@) && !is_complete(reply@) && reply@.len()
            >= 8192,
        r == Verdict::Incomplete <==> says_200(reply@) && !is_complete(reply@) && reply@.len()
            < 8192,
        r == Verdict::AuthenticationRequired <==> says_407(reply@),
        r == Verdict::Refused <==> !says_200(reply@) && !says_407(reply@),
{
    law_verdict_of_bytes(reply@);
}

/// An exchange that is opened is about to write its request to the connection it
/// was given.
pub proof fn law_open<S, E>(
    conn: S,
    host: &str,
    port: u16,
    auth: Option<String>,
    r: ConnectTunnel<S, E>,
)
    requires
        call_ensures(ConnectTunnel::<S, E>::open, (conn, host, port, auth), r),
    ensures
        r matches ConnectTunnel::Write { conn: c, request } && c == conn && (
        auth matches Some(value) ==> asks_for(request@, host@, port, Some(value@))) && (auth is None
            ==> asks_for(request@, host@, port, None)),
{
    law_request_text(host@, port, text_of(auth));
}

/// A written request is followed by a read with all the room there is; a failed
/// write is the end.
pub proof fn law_on_write<S, E>(conn: S, result: Result<(), E>, r: ConnectTunnel<S, E>)
    requires
        call_ensures(ConnectTunnel::<S, E>::on_write, (conn, result), r),
    ensures
        result is Ok ==> (r matches ConnectTunnel::Read { conn: c, reply } && c == conn
            && reply@.len() == 0),
        result matches Err(e) ==> r == ConnectTunnel::<S, E>::Done(Err(TunnelFailure::Io(e))),
{
}

/// Each read either ends an exchange, by the bytes read so far, or leaves it
/// reading on the same connection with all of them.
pub proof fn law_on_read<S, E>(
    conn: S,
    reply: Reply,
    result: Result<Vec<u8>, E>,
    r: ConnectTunnel<S, E>,
)
    requires
        call_ensures(ConnectTunnel::<S, E>::on_read, (conn, reply, result), r),
    ensures
        result matches Err(e) ==> r == ConnectTunnel::<S, E>::Done(Err(TunnelFailure::Io(e))),
        result matches Ok(chunk) ==> {
            let all = reply@ + chunk@;
            let failed = |failure: TunnelFailure<E>|
                r == ConnectTunnel::<S, E>::Done(Err(failure));
            &&& chunk@.len() == 0 ==> failed(TunnelFailure::Closed)
            &&& chunk@.len() > 0 && says_200(all) && is_complete(all) ==> r == ConnectTunnel::<
                S,
                E,
            >::Done(Ok(conn))
            &&& chunk@.len() > 0 && says_200(all) && !is_complete(all) && all.len() >= 8192
                ==> failed(TunnelFailure::HeadersTooLong)
            &&& chunk@.len() > 0 && says_200(all) && !is_complete(all) && all.len() < 8192 ==> (
            r matches ConnectTunnel::Read { conn: c, reply: more } && c == conn && more@ == all)
            &&& chunk@.len() > 0 && says_407(all) ==> failed(TunnelFailure::AuthenticationRequired)
            &&& chunk@.len() > 0 && !says_200(all) && !says_407(all) ==> failed(
                TunnelFailure::Refused,
            )
        },
{
    if let Ok(chunk) = result {
        law_verdict_of_bytes(reply@ + chunk@);
    }
}

/// The room for a read is what is left of 8192 bytes, and there is always some.
pub proof fn law_room(reply: &Reply, r: usize)
    requires
        call_ensures(Reply::room, (reply,), r),
    ensures
        r + reply@.len() == 8192,
        r > 0,
{
}

} // verus!
