//! Errors of the proxy path.

use vstd::prelude::*;

use crate::async_impl::proxy::CreateTunnelErr;

verus! {

/// The part of a request's life in which an error arose.
#[derive(Clone, Copy, PartialEq, Eq, Structural, Debug)]
pub enum ErrorKind {
    /// While the connection was being established.
    Connect,
}

/// An I/O error as the asynchronous client sees it.
pub enum IoError<E> {
    /// An error of the transport, passed on as it came.
    Transport(E),
    /// An error of kind `Other` around a tunnel error.
    Tunnel(CreateTunnelErr),
    /// An error of kind `Other` around a TLS error.
    Other(E),
}

/// What lies under a [`HttpClientError`].
pub enum Cause<E> {
    /// An error of the outside world, as it came.
    Error(E),
    /// An I/O error.
    Io(IoError<E>),
    /// An I/O error that stands for a failed TLS handshake.
    Tls(IoError<E>),
    /// A message.
    Text(&'static str),
}

/// The error that a client reports, where the outside world fails with an `E`.
pub struct HttpClientError<E> {
    pub kind: ErrorKind,
    pub cause: Cause<E>,
}

impl<E> HttpClientError<E> {
    pub fn from_error(kind: ErrorKind, error: E) -> (r: Self)
        ensures
            r == (HttpClientError { kind, cause: Cause::Error(error) }),
    {
        HttpClientError { kind, cause: Cause::Error(error) }
    }

    pub fn from_io_error(kind: ErrorKind, error: IoError<E>) -> (r: Self)
        ensures
            r == (HttpClientError { kind, cause: Cause::Io(error) }),
    {
        HttpClientError { kind, cause: Cause::Io(error) }
    }

    pub fn from_tls_error(kind: ErrorKind, error: IoError<E>) -> (r: Self)
        ensures
            r == (HttpClientError { kind, cause: Cause::Tls(error) }),
    {
        HttpClientError { kind, cause: Cause::Tls(error) }
    }

    pub fn from_str(kind: ErrorKind, message: &'static str) -> (r: Self)
        ensures
            r == (HttpClientError::<E> { kind, cause: Cause::Text(message) }),
    {
        HttpClientError { kind, cause: Cause::Text(message) }
    }
}

/// An error is made with the kind and the cause that it is given.
pub proof fn law_errors_hold_their_cause<E>(
    kind: ErrorKind,
    error: E,
    io: IoError<E>,
    message: &'static str,
    r1: HttpClientError<E>,
    r2: HttpClientError<E>,
    r3: HttpClientError<E>,
    r4: HttpClientError<E>,
)
    requires
        call_ensures(HttpClientError::<E>::from_error, (kind, error), r1),
        call_ensures(HttpClientError::<E>::from_io_error, (kind, io), r2),
        call_ensures(HttpClientError::<E>::from_tls_error, (kind, io), r3),
        call_ensures(HttpClientError::<E>::from_str, (kind, message), r4),
    ensures
        r1.kind == kind && r2.kind == kind && r3.kind == kind && r4.kind == kind,
        r1.cause == Cause::<E>::Error(error),
        r2.cause == Cause::<E>::Io(io),
        r3.cause == Cause::<E>::Tls(io),
        r4.cause == Cause::<E>::Text(message),
{
}

} // verus!
