//! A pairing-style TLV endpoint reduced to the dispatch core's obligations:
//! it accumulates per-connection handshake state across requests, accepts
//! each client step exactly in sequence, and encodes protocol success and
//! protocol failure alike into the TLV payload. The cryptographic content of
//! the individual steps lives outside this core.

use vstd::prelude::*;

use crate::handler::{Context, TlvHandlerExt};
use crate::tlv::{
    find_step, item_bytes, step_of, tlv_decode, tlv_items, Encodable, ErrorContainer,
    ERROR_AUTHENTICATION, ERROR_UNKNOWN, TAG_STATE,
};

verus! {

/// The last step a client may send in one handshake.
pub const LAST_STEP: u8 = 5;

/// A successful step answer: the state item naming the server's next step.
pub struct StepResponse {
    pub state: u8,
}

impl Encodable for StepResponse {
    open spec fn encode_spec(&self) -> Seq<u8> {
        item_bytes(TAG_STATE, seq![self.state])
    }

    fn encode(&self) -> (r: Vec<u8>) {
        let mut r: Vec<u8> = Vec::new();
        r.push(TAG_STATE);
        r.push(1);
        r.push(self.state);
        proof {
            assert(r@ =~= self.encode_spec());
        }
        r
    }
}

/// The per-connection handshake state: the client step expected next.
/// Clients send the odd steps and the server answers each with the following
/// even one; a fresh sequencer expects the first step.
pub struct HandshakeSequencer {
    expected: u8,
}

impl HandshakeSequencer {
    /// The client step the sequencer will accept next.
    pub closed spec fn expected_spec(&self) -> u8 {
        self.expected
    }

    pub fn new() -> (r: HandshakeSequencer)
        ensures
            r.expected_spec() == 1,
    {
        HandshakeSequencer { expected: 1 }
    }
}

impl TlvHandlerExt for HandshakeSequencer {
    type ParseResult = u8;

    type Output = StepResponse;

    /// A body decodes to the step number its state item carries; a malformed
    /// stream or a missing state item is the protocol parse error.
    open spec fn parse_spec(&self, body: Seq<u8>) -> Result<u8, ErrorContainer> {
        match tlv_items(body) {
            Option::None => Result::Err(ErrorContainer { state: 0, code: ERROR_UNKNOWN }),
            Option::Some(items) => match step_of(items) {
                Option::None => Result::Err(ErrorContainer { state: 0, code: ERROR_UNKNOWN }),
                Option::Some(s) => Result::Ok(s),
            },
        }
    }

    /// The expected step advances the handshake and is answered with the
    /// following state; any other step is refused without disturbing the
    /// accumulated state.
    open spec fn step_allows(
        &self,
        step: u8,
        new_self: HandshakeSequencer,
        r: Result<StepResponse, ErrorContainer>,
    ) -> bool {
        if step == self.expected_spec() && step <= LAST_STEP {
            &&& r matches Result::Ok(out) && out.state == step + 1
            &&& new_self.expected_spec() == step + 2
        } else {
            &&& r matches Result::Err(e) && e.state == step && e.code == ERROR_AUTHENTICATION
            &&& new_self.expected_spec() == self.expected_spec()
        }
    }

    fn parse(&self, body: Vec<u8>) -> (r: Result<u8, ErrorContainer>) {
        match tlv_decode(&body) {
            Option::None => Result::Err(ErrorContainer::new(0, ERROR_UNKNOWN)),
            Option::Some(items) => match find_step(&items) {
                Option::None => Result::Err(ErrorContainer::new(0, ERROR_UNKNOWN)),
                Option::Some(s) => Result::Ok(s),
            },
        }
    }

    fn handle(&mut self, step: u8, ctx: &mut Context) -> (r: Result<StepResponse, ErrorContainer>) {
        if step == self.expected && step <= LAST_STEP {
            self.expected = step + 2;
            Result::Ok(StepResponse { state: step + 1 })
        } else {
            Result::Err(ErrorContainer::new(step, ERROR_AUTHENTICATION))
        }
    }
}

} // verus!
