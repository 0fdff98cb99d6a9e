//! Result and HTTP status codes in the host server's integer conventions.

use vstd::prelude::*;

verus! {

/// The host's success code; every other value is an error or an HTTP status.
pub const NGX_OK: isize = 0;

/// The HTTP status codes the host names symbolically.
pub const NGX_HTTP_OK: usize = 200;

/// Symbolic code for a forbidden request.
pub const NGX_HTTP_FORBIDDEN: usize = 403;

/// Symbolic code for an internal server error.
pub const NGX_HTTP_INTERNAL_SERVER_ERROR: usize = 500;

/// An integer result code in the host server's native signed convention.
///
/// `NGX_OK` (zero) means success; any other value carries an error or an
/// HTTP status, interpreted by the host. This layer never interprets a
/// status beyond the OK/non-OK boundary.
#[derive(Clone, Copy, PartialEq, Eq, Structural, Debug)]
pub struct Status(pub isize);

impl Status {
    /// Whether this status means success in the host convention.
    pub open spec fn is_ok(self) -> bool {
        self.0 == NGX_OK
    }

    /// The success status.
    pub fn ok() -> (r: Status)
        ensures
            r.0 == NGX_OK,
    {
        Status(NGX_OK)
    }

    /// Whether this status means success.
    pub fn is_success(&self) -> (r: bool)
        ensures
            r == self.is_ok(),
    {
        self.0 == NGX_OK
    }

    /// The host's integer encoding of this status.
    pub fn into_native(self) -> (code: isize)
        ensures
            code == self.0,
    {
        self.0
    }

    /// The status a native integer result encodes.
    pub fn from_native(code: isize) -> (r: Status)
        ensures
            r.0 == code,
    {
        Status(code)
    }
}

/// An HTTP status code in the host's unsigned convention.
///
/// Round-trips losslessly into the signed result convention for every code
/// that fits the signed type (every real HTTP status does).
#[derive(Clone, Copy, PartialEq, Eq, Structural, Debug)]
pub struct HTTPStatus(pub usize);

impl HTTPStatus {
    /// This code as a native result status: the value the host sees.
    pub open spec fn as_status(self) -> Status {
        Status(self.0 as isize)
    }

    /// The 200 OK status.
    pub fn http_ok() -> (r: HTTPStatus)
        ensures
            r.0 == NGX_HTTP_OK,
    {
        HTTPStatus(NGX_HTTP_OK)
    }

    /// The 403 Forbidden status.
    pub fn forbidden() -> (r: HTTPStatus)
        ensures
            r.0 == NGX_HTTP_FORBIDDEN,
    {
        HTTPStatus(NGX_HTTP_FORBIDDEN)
    }

    /// The 500 Internal Server Error status.
    pub fn internal_server_error() -> (r: HTTPStatus)
        ensures
            r.0 == NGX_HTTP_INTERNAL_SERVER_ERROR,
    {
        HTTPStatus(NGX_HTTP_INTERNAL_SERVER_ERROR)
    }

    /// Convert into the host's signed result convention.
    pub fn into_status(self) -> (r: Status)
        ensures
            r == self.as_status(),
    {
        Status(self.0 as isize)
    }
}

impl From<HTTPStatus> for Status {
    fn from(h: HTTPStatus) -> (r: Status) {
        Status(h.0 as isize)
    }
}

impl vstd::std_specs::convert::FromSpecImpl<HTTPStatus> for Status {
    open spec fn obeys_from_spec() -> bool {
        true
    }

    open spec fn from_spec(h: HTTPStatus) -> Status {
        h.as_status()
    }
}

/// An HTTP status code that fits the signed native type is encoded
/// losslessly: reading the native integer back gives the same code.
pub proof fn lemma_http_status_round_trip(h: HTTPStatus)
    requires
        h.0 <= isize::MAX,
    ensures
        h.as_status().0 >= 0,
        h.as_status().0 as usize == h.0,
{
}

} // verus!
