//! A safe view over the host's in-flight request object, and the trampoline
//! that bridges the host's native calling convention to handler code.
//!
//! The host exclusively owns and mutates the request; this layer holds a
//! non-owning reference scoped to one handler invocation and exposes a
//! curated operation set. Outcomes that the host alone decides — whether a
//! body discard, a header send or a body write is accepted — are part of
//! the request's state here, so every operation's result is pinned down.

use crate::arena::Arena;
use crate::conf::ModuleDescriptor;
use crate::status::HTTPStatus;
use crate::status::NGX_OK;
use crate::status::Status;
use vstd::prelude::*;

verus! {

/// A borrowed byte string in the host's representation.
pub struct NgxStr {
    bytes: Vec<u8>,
}

impl View for NgxStr {
    type V = Seq<u8>;

    closed spec fn view(&self) -> Seq<u8> {
        self.bytes@
    }
}

impl NgxStr {
    /// A string holding the given bytes.
    pub fn from_bytes(bytes: Vec<u8>) -> (s: NgxStr)
        ensures
            s@ == bytes@,
    {
        NgxStr { bytes }
    }

    /// The string's bytes.
    pub fn as_bytes(&self) -> (r: &[u8])
        ensures
            r@ == self@,
    {
        self.bytes.as_slice()
    }

    /// The string's length in bytes.
    pub fn len(&self) -> (n: usize)
        ensures
            n == self@.len(),
    {
        self.bytes.len()
    }

    /// Whether the string is empty.
    pub fn is_empty(&self) -> (r: bool)
        ensures
            r == (self@.len() == 0),
    {
        self.bytes.is_empty()
    }
}

/// An opaque, non-owning reference to the host's connection object.
#[derive(Clone, Copy, PartialEq, Eq, Structural, Debug)]
pub struct ConnectionHandle {
    /// The host's identity for the connection.
    pub id: usize,
}

/// A compiled expression, identified by the slot the host assigned to it
/// at configuration time; evaluated against one request at a time.
#[derive(Clone, Copy, PartialEq, Eq, Structural, Debug)]
pub struct ComplexValue {
    /// The expression's host-assigned slot.
    pub index: usize,
}

/// The request state this layer can observe and affect, as one
/// mathematical value.
pub ghost struct RequestView {
    /// Whether this is the top-level request, not a generated subrequest.
    pub main: bool,
    /// The host's identity for the underlying connection.
    pub connection_id: usize,
    /// Per-module location-scope record handles, by module slot.
    pub loc_confs: Seq<usize>,
    /// The parsed User-Agent header value, when the header was present.
    pub user_agent: Option<Seq<u8>>,
    /// Whether the host determined the response carries no body.
    pub header_only: bool,
    /// The response status recorded so far.
    pub status: usize,
    /// The response content length recorded so far, if any.
    pub content_length: Option<usize>,
    /// Whether response headers have been committed to the client.
    pub headers_sent: bool,
    /// Whether a pending request body has been read and discarded.
    pub body_discarded: bool,
    /// The host's verdict on a body discard, fixed for this request.
    pub discard_result: isize,
    /// The host's verdict on committing headers, fixed for this request.
    pub send_header_result: isize,
    /// The host's verdict on a body write, fixed for this request.
    pub output_filter_result: isize,
    /// Evaluation results of the compiled expressions, by slot; an absent
    /// value is a propagated host evaluation failure.
    pub complex_values: Seq<Option<Seq<u8>>>,
    /// The response body bytes accepted by the output filter chain so far.
    pub output: Seq<u8>,
    /// Whether the request's arena scope is still active.
    pub pool_active: bool,
    /// The byte strings allocated in the request's arena so far.
    pub pool: Seq<Seq<u8>>,
}

/// A non-owning facade over the host's request object, valid for the
/// duration of one handler invocation.
///
/// The host builds and owns the underlying object; the fields here are the
/// host-owned state this layer reads, writes, or receives verdicts from.
pub struct Request {
    /// Whether this is the top-level request.
    pub main: bool,
    /// The host's identity for the underlying connection.
    pub connection_id: usize,
    /// Per-module location-scope record handles, by module slot.
    pub loc_confs: Vec<usize>,
    /// The parsed User-Agent header value, when present.
    pub user_agent: Option<NgxStr>,
    /// Whether the host determined the response carries no body.
    pub header_only: bool,
    /// The response status recorded so far.
    pub status: usize,
    /// The response content length recorded so far, if any.
    pub content_length: Option<usize>,
    /// Whether response headers have been committed.
    pub headers_sent: bool,
    /// Whether a pending request body has been discarded.
    pub body_discarded: bool,
    /// The host's verdict on a body discard.
    pub discard_result: isize,
    /// The host's verdict on committing headers.
    pub send_header_result: isize,
    /// The host's verdict on a body write.
    pub output_filter_result: isize,
    /// Evaluation results of the compiled expressions, by slot.
    pub complex_values: Vec<Option<NgxStr>>,
    /// The response body bytes accepted so far.
    pub output: Vec<u8>,
    /// The arena scoped to this request's lifetime.
    pub pool: Arena<NgxStr>,
}

impl View for Request {
    type V = RequestView;

    open spec fn view(&self) -> RequestView {
        RequestView {
            main: self.main,
            connection_id: self.connection_id,
            loc_confs: self.loc_confs@,
            user_agent: match self.user_agent {
                Some(s) => Some(s@),
                None => None,
            },
            header_only: self.header_only,
            status: self.status,
            content_length: self.content_length,
            headers_sent: self.headers_sent,
            body_discarded: self.body_discarded,
            discard_result: self.discard_result,
            send_header_result: self.send_header_result,
            output_filter_result: self.output_filter_result,
            complex_values: Seq::new(
                self.complex_values@.len(),
                |i: int|
                    match self.complex_values@[i] {
                        Some(s) => Some(s@),
                        None => None,
                    },
            ),
            output: self.output@,
            pool_active: self.pool.is_active(),
            pool: Seq::new(self.pool@.len(), |i: int| self.pool@[i]@),
        }
    }
}

impl Request {
    /// Whether this request is the top-level request, not an internally
    /// generated subrequest.
    pub fn is_main(&self) -> (r: bool)
        ensures
            r == self@.main,
    {
        self.main
    }

    /// The arena scoped to this request's lifetime: allocations made in it
    /// stay valid exactly until the request's handling completes and the
    /// host frees the arena.
    pub fn pool(&mut self) -> (p: &mut Arena<NgxStr>)
        ensures
            *p == old(self).pool,
            *final(self) == (Request { pool: *final(p), ..*old(self) }),
    {
        &mut self.pool
    }

    /// An opaque reference to the request's connection.
    pub fn connection(&self) -> (c: ConnectionHandle)
        ensures
            c.id == self@.connection_id,
    {
        ConnectionHandle { id: self.connection_id }
    }

    /// The handle of the calling module's location-scope record for this
    /// request.
    ///
    /// A module may only pass its own descriptor, whose slot the host
    /// assigned within this request's configuration array; the handle is
    /// downcast by the caller to the module's own record type.
    pub fn get_module_loc_conf(&self, module: &ModuleDescriptor) -> (h: usize)
        requires
            module.ctx_index < self@.loc_confs.len(),
        ensures
            h == self@.loc_confs[module.ctx_index as int],
    {
        *vstd::std_specs::vec::vec_index(&self.loc_confs, module.ctx_index)
    }

    /// Evaluate a compiled expression against this request: its value, or
    /// nothing when the host's evaluation failed.
    pub fn get_complex_value(&self, cv: &ComplexValue) -> (r: Option<&NgxStr>)
        requires
            cv.index < self@.complex_values.len(),
        ensures
            match r {
                Some(s) => self@.complex_values[cv.index as int] == Some(s@),
                None => self@.complex_values[cv.index as int] is None,
            },
    {
        let slot = vstd::std_specs::vec::vec_index(&self.complex_values, cv.index);
        slot.as_ref()
    }

    /// Ask the host to read and discard any pending request body; required
    /// before a response when the body was not otherwise consumed. The
    /// body counts as discarded once the host accepts.
    pub fn discard_request_body(&mut self) -> (s: Status)
        ensures
            s.0 == old(self)@.discard_result,
            final(self)@ == (RequestView {
                body_discarded: old(self)@.body_discarded || old(self)@.discard_result == NGX_OK,
                ..old(self)@
            }),
    {
        if self.discard_result == NGX_OK {
            self.body_discarded = true;
        }
        Status(self.discard_result)
    }

    /// The parsed User-Agent header value, or nothing when the original
    /// request carried no such header.
    pub fn user_agent(&self) -> (r: Option<&NgxStr>)
        ensures
            match r {
                Some(s) => self@.user_agent == Some(s@),
                None => self@.user_agent is None,
            },
    {
        self.user_agent.as_ref()
    }

    /// Record the response status. The host ignores the field once headers
    /// have been sent; that is not re-checked here.
    pub fn set_status(&mut self, status: HTTPStatus)
        ensures
            final(self)@ == (RequestView { status: status.0, ..old(self)@ }),
    {
        self.status = status.0;
    }

    /// Record the response content length.
    pub fn set_content_length_n(&mut self, n: usize)
        ensures
            final(self)@ == (RequestView { content_length: Some(n), ..old(self)@ }),
    {
        self.content_length = Some(n);
    }

    /// Commit response headers to the client. The headers count as sent
    /// once the host accepts; a non-OK status reports a rejection, by the
    /// filter chain for one.
    pub fn send_header(&mut self) -> (s: Status)
        ensures
            s.0 == old(self)@.send_header_result,
            final(self)@ == (RequestView {
                headers_sent: old(self)@.headers_sent || old(self)@.send_header_result == NGX_OK,
                ..old(self)@
            }),
    {
        let result = self.send_header_result;
        if result == NGX_OK {
            self.headers_sent = true;
        }
        Status(result)
    }

    /// Whether the host determined this request expects no response body,
    /// for a HEAD request for one.
    pub fn set_header_only(&self) -> (r: bool)
        ensures
            r == self@.header_only,
    {
        self.header_only
    }

    /// Send one response body chunk through the host's output filter
    /// chain; call repeatedly to stream a body. The chunk counts as
    /// accepted exactly when the host answers OK; a non-OK answer is a
    /// host-convention signal for the caller, not necessarily fatal, and
    /// is not interpreted here.
    pub fn output_filter(&mut self, body: &NgxStr) -> (s: Status)
        ensures
            s.0 == old(self)@.output_filter_result,
            old(self)@.output_filter_result == NGX_OK ==> final(self)@ == (RequestView {
                output: old(self)@.output + body@,
                ..old(self)@
            }),
            old(self)@.output_filter_result != NGX_OK ==> final(self)@ == old(self)@,
    {
        let result = self.output_filter_result;
        if result == NGX_OK {
            self.output.extend_from_slice(body.as_bytes());
            proof {
                assert(self.output@ =~= old(self).output@ + body@);
            }
        }
        Status(result)
    }
}

/// Request-handling logic an extension module supplies: one synchronous
/// invocation per request, returning a status the host interprets.
///
/// The two spec functions are the handler's own statement of what it
/// returns and what request state it leaves; `handle` is held to them.
pub trait Handler {
    /// The status this handler returns, as a function of the incoming
    /// request state.
    spec fn spec_status(&self, r: RequestView) -> Status;

    /// The request state this handler leaves behind.
    spec fn spec_request(&self, r: RequestView) -> RequestView;

    /// Handle one request.
    fn handle(&self, r: &mut Request) -> (s: Status)
        ensures
            s == self.spec_status(old(r)@),
            final(r)@ == self.spec_request(old(r)@),
    ;
}

/// A fixed status is itself a handler: it returns that status and leaves
/// the request untouched.
impl Handler for Status {
    open spec fn spec_status(&self, r: RequestView) -> Status {
        *self
    }

    open spec fn spec_request(&self, r: RequestView) -> RequestView {
        r
    }

    fn handle(&self, r: &mut Request) -> (s: Status) {
        *self
    }
}

/// The native entry point the host invokes per request: wraps the host's
/// request (already a non-owning facade here), invokes the handler, and
/// returns the handler's status in the host's integer convention —
/// exactly, for every status the handler can return.
pub fn http_request_handler<H: Handler>(handler: &H, r: &mut Request) -> (code: isize)
    ensures
        code == handler.spec_status(old(r)@).0,
        final(r)@ == handler.spec_request(old(r)@),
{
    let status = handler.handle(r);
    status.into_native()
}

} // verus!
