//! The uniform handler capability and its two wire-format adapters.
//!
//! The router invokes every endpoint through one polymorphic `handle`
//! operation; a TLV adapter and a JSON adapter implement it, each owning its
//! format's parsing, error encoding, and HTTP status mapping. Protocol-level
//! failures never surface as transport failures: the TLV adapter answers 200
//! with the failure encoded in the payload, and the JSON adapter maps
//! application errors onto HTTP statuses.

use vstd::prelude::*;

use crate::accessories::AccessoryDatabase;
use crate::event::EventEmitter;
use crate::http::{status_response, tlv_response, ContentType, HttpResponse};
use crate::tlv::{Encodable, ErrorContainer};

verus! {

/// The shared context handles threaded into every handler invocation, as the
/// plain values this core reads of them: the identity bound to the current
/// connection, the accessory database, and the event bus. The remaining
/// server subsystems (configuration, durable storage, the notification
/// subscription table) stay outside the dispatch core and are owned by the
/// surrounding runtime.
pub struct Context {
    pub controller_id: Option<uuid::Uuid>,
    pub accessory_database: AccessoryDatabase,
    pub event_emitter: EventEmitter,
}

/// An application-level failure crossing the handler boundary.
#[derive(Debug, Clone, PartialEq)]
pub enum HandlerError {
    /// A declared outcome that maps onto exactly this HTTP status.
    HttpStatus(u16),
    /// An unclassified failure; its detail is logged, never put on the wire.
    Internal(String),
}

/// The uniform capability the router invokes: one operation, whatever wire
/// format backs the endpoint.
pub trait HandlerExt: Sized {
    /// Which results an invocation may produce, relating the request and the
    /// context it arrived in to the state it leaves behind and its response.
    spec fn handle_allows(
        &self,
        uri: Seq<char>,
        body: Seq<u8>,
        ctx0: Context,
        new_self: Self,
        ctx1: Context,
        r: Result<HttpResponse, HandlerError>,
    ) -> bool;

    fn handle(&mut self, uri: &str, body: Vec<u8>, ctx: &mut Context) -> (r: Result<
        HttpResponse,
        HandlerError,
    >)
        ensures
            old(self).handle_allows(uri@, body@, *old(ctx), *final(self), *final(ctx), r),
    ;
}

/// The protocol contract a TLV endpoint hands to its adapter: a parse step
/// that types the raw payload, and a state transition executed against the
/// shared context.
pub trait TlvHandlerExt: Sized {
    type ParseResult;

    type Output: Encodable;

    /// What `parse` yields on a given body: the typed step, or the protocol
    /// error that is encoded back instead.
    spec fn parse_spec(&self, body: Seq<u8>) -> Result<Self::ParseResult, ErrorContainer>;

    /// Which outcomes one step of the endpoint may produce from a typed
    /// step, together with the endpoint state it leaves behind.
    spec fn step_allows(
        &self,
        step: Self::ParseResult,
        new_self: Self,
        r: Result<Self::Output, ErrorContainer>,
    ) -> bool;

    fn parse(&self, body: Vec<u8>) -> (r: Result<Self::ParseResult, ErrorContainer>)
        ensures
            r == self.parse_spec(body@),
    ;

    fn handle(&mut self, step: Self::ParseResult, ctx: &mut Context) -> (r: Result<
        Self::Output,
        ErrorContainer,
    >)
        ensures
            old(self).step_allows(step, *final(self), r),
    ;
}

/// The bytes an endpoint outcome is encoded to: the success payload or the
/// error container, both inside the TLV body.
pub open spec fn outcome_bytes<O: Encodable>(out: Result<O, ErrorContainer>) -> Seq<u8> {
    match out {
        Result::Ok(o) => o.encode_spec(),
        Result::Err(e) => e.encode_spec(),
    }
}

/// The TLV adapter: wraps an endpoint's parse/step pair behind the uniform
/// capability.
pub struct TlvHandler<T: TlvHandlerExt + Send + Sync>(pub T);

impl<T: TlvHandlerExt + Send + Sync> TlvHandler<T> {
    /// The wrapped endpoint.
    pub open spec fn endpoint(&self) -> T {
        self.0
    }
}

impl<T: TlvHandlerExt + Send + Sync> From<T> for TlvHandler<T> {
    fn from(inst: T) -> (r: TlvHandler<T>) {
        TlvHandler(inst)
    }
}

impl<T: TlvHandlerExt + Send + Sync> vstd::std_specs::convert::FromSpecImpl<T> for TlvHandler<T> {
    open spec fn obeys_from_spec() -> bool {
        true
    }

    open spec fn from_spec(inst: T) -> TlvHandler<T> {
        TlvHandler(inst)
    }
}

impl<T: TlvHandlerExt + Send + Sync> HandlerExt for TlvHandler<T> {
    /// Whatever the parse or step outcome, the response status is 200 with
    /// TLV content: protocol failures travel inside the payload. A parse
    /// error is answered by its own encoding, with nothing executed; a parsed
    /// step is answered by the encoding of an outcome the endpoint allows.
    open spec fn handle_allows(
        &self,
        uri: Seq<char>,
        body: Seq<u8>,
        ctx0: Context,
        new_self: Self,
        ctx1: Context,
        r: Result<HttpResponse, HandlerError>,
    ) -> bool {
        &&& r matches Result::Ok(resp)
        &&& r matches Result::Ok(resp) ==> {
            &&& resp.status == 200
            &&& resp.content_type == ContentType::Tlv
            &&& match self.endpoint().parse_spec(body) {
                Result::Err(e) => {
                    &&& resp.body@ == e.encode_spec()
                    &&& new_self.endpoint() == self.endpoint()
                    &&& ctx1 == ctx0
                },
                Result::Ok(step) => exists|out: Result<T::Output, ErrorContainer>|
                    #[trigger] self.endpoint().step_allows(step, new_self.endpoint(), out)
                        && resp.body@ == outcome_bytes(out),
            }
        }
    }

    fn handle(&mut self, uri: &str, body: Vec<u8>, ctx: &mut Context) -> (r: Result<
        HttpResponse,
        HandlerError,
    >) {
        match self.0.parse(body) {
            Result::Err(e) => {
                let encoded = e.encode();
                Result::Ok(tlv_response(encoded, 200))
            },
            Result::Ok(step) => {
                let ghost gstep = step;
                let out = self.0.handle(step, ctx);
                let encoded = match &out {
                    Result::Ok(res) => res.encode(),
                    Result::Err(e) => e.encode(),
                };
                proof {
                    assert(old(self).endpoint().step_allows(gstep, self.endpoint(), out));
                    assert(encoded@ == outcome_bytes(out));
                }
                Result::Ok(tlv_response(encoded, 200))
            },
        }
    }
}

/// The JSON endpoint contract: one operation over the whole request and
/// every shared context handle.
pub trait JsonHandlerExt: Sized {
    /// Which results an endpoint invocation may produce.
    spec fn handle_allows(
        &self,
        uri: Seq<char>,
        body: Seq<u8>,
        ctx0: Context,
        new_self: Self,
        ctx1: Context,
        r: Result<HttpResponse, HandlerError>,
    ) -> bool;

    fn handle(&mut self, uri: &str, body: Vec<u8>, ctx: &mut Context) -> (r: Result<
        HttpResponse,
        HandlerError,
    >)
        ensures
            old(self).handle_allows(uri@, body@, *old(ctx), *final(self), *final(ctx), r),
    ;
}

/// How the JSON adapter puts an endpoint outcome on the wire: a success
/// passes through; a failure that declares a status is answered with exactly
/// that status; any other failure is answered with status 500 — in either
/// failure the body is empty, so no internal detail leaks to the caller.
pub open spec fn json_outcome_ok(out: Result<HttpResponse, HandlerError>, r: HttpResponse) -> bool {
    match out {
        Result::Ok(resp) => r == resp,
        Result::Err(HandlerError::HttpStatus(s)) => r.status == s && r.content_type
            == ContentType::Empty && r.body@ == Seq::<u8>::empty(),
        Result::Err(HandlerError::Internal(_)) => r.status == 500 && r.content_type
            == ContentType::Empty && r.body@ == Seq::<u8>::empty(),
    }
}

/// Maps a JSON endpoint outcome onto its wire response, as `json_outcome_ok`
/// states.
pub fn map_json_outcome(out: Result<HttpResponse, HandlerError>) -> (r: HttpResponse)
    ensures
        json_outcome_ok(out, r),
{
    match out {
        Result::Ok(resp) => resp,
        Result::Err(HandlerError::HttpStatus(s)) => status_response(s),
        Result::Err(HandlerError::Internal(_)) => status_response(500),
    }
}

/// The JSON adapter: wraps an endpoint behind the uniform capability and
/// owns the status mapping of its failures.
pub struct JsonHandler<T: JsonHandlerExt + Send + Sync>(pub T);

impl<T: JsonHandlerExt + Send + Sync> JsonHandler<T> {
    /// The wrapped endpoint.
    pub open spec fn endpoint(&self) -> T {
        self.0
    }
}

impl<T: JsonHandlerExt + Send + Sync> From<T> for JsonHandler<T> {
    fn from(inst: T) -> (r: JsonHandler<T>) {
        JsonHandler(inst)
    }
}

impl<T: JsonHandlerExt + Send + Sync> vstd::std_specs::convert::FromSpecImpl<T> for JsonHandler<T> {
    open spec fn obeys_from_spec() -> bool {
        true
    }

    open spec fn from_spec(inst: T) -> JsonHandler<T> {
        JsonHandler(inst)
    }
}

impl<T: JsonHandlerExt + Send + Sync> HandlerExt for JsonHandler<T> {
    /// The adapter never fails the transport: it answers with the endpoint's
    /// response, or with the status its failure maps onto under
    /// `json_outcome_ok`.
    open spec fn handle_allows(
        &self,
        uri: Seq<char>,
        body: Seq<u8>,
        ctx0: Context,
        new_self: Self,
        ctx1: Context,
        r: Result<HttpResponse, HandlerError>,
    ) -> bool {
        &&& r matches Result::Ok(resp)
        &&& r matches Result::Ok(resp) ==> exists|out: Result<HttpResponse, HandlerError>|
            #[trigger] self.endpoint().handle_allows(
                uri,
                body,
                ctx0,
                new_self.endpoint(),
                ctx1,
                out,
            ) && json_outcome_ok(out, resp)
    }

    fn handle(&mut self, uri: &str, body: Vec<u8>, ctx: &mut Context) -> (r: Result<
        HttpResponse,
        HandlerError,
    >) {
        let out = self.0.handle(uri, body, ctx);
        let ghost gout = out;
        let resp = map_json_outcome(out);
        proof {
            assert(old(self).endpoint().handle_allows(
                uri@,
                body@,
                *old(ctx),
                self.endpoint(),
                *ctx,
                gout,
            ));
            assert(json_outcome_ok(gout, resp));
        }
        Result::Ok(resp)
    }
}

} // verus!
