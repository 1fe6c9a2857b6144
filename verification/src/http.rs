//! Plain-value HTTP responses: what a handler hands back to the transport.

use vstd::prelude::*;

verus! {

/// The content family a response body belongs to.
#[derive(Clone, Copy, Debug, PartialEq, Eq)]
pub enum ContentType {
    /// Binary, length-prefixed TLV payload of the control channel.
    Tlv,
    /// JSON payload of the data plane.
    Json,
    /// No body: a bare status answer.
    Empty,
}

/// An outbound response as plain values: status code, content family, body.
#[derive(Debug)]
pub struct HttpResponse {
    pub status: u16,
    pub content_type: ContentType,
    pub body: Vec<u8>,
}

/// A response carrying a TLV payload under the given status.
pub fn tlv_response(body: Vec<u8>, status: u16) -> (r: HttpResponse)
    ensures
        r.status == status,
        r.content_type == ContentType::Tlv,
        r.body == body,
{
    HttpResponse { status, content_type: ContentType::Tlv, body }
}

/// A response carrying a JSON payload under the given status.
pub fn json_response(body: Vec<u8>, status: u16) -> (r: HttpResponse)
    ensures
        r.status == status,
        r.content_type == ContentType::Json,
        r.body == body,
{
    HttpResponse { status, content_type: ContentType::Json, body }
}

/// A bare status answer with an empty body.
pub fn status_response(status: u16) -> (r: HttpResponse)
    ensures
        r.status == status,
        r.content_type == ContentType::Empty,
        r.body@ == Seq::<u8>::empty(),
{
    HttpResponse { status, content_type: ContentType::Empty, body: Vec::new() }
}

} // verus!
