//! TLV framing: the binary, length-prefixed item encoding of the control
//! channel, and the error container that protocol failures are reported in.

use vstd::prelude::*;

verus! {

/// Tag of the item that carries the handshake state number.
pub const TAG_STATE: u8 = 6;

/// Tag of the item that carries a protocol error code.
pub const TAG_ERROR: u8 = 7;

/// Protocol error code: the message could not be understood.
pub const ERROR_UNKNOWN: u8 = 1;

/// Protocol error code: the step is not acceptable in the current state.
pub const ERROR_AUTHENTICATION: u8 = 2;

/// One decoded tag-length-value item.
pub struct TlvItem {
    pub tag: u8,
    pub value: Vec<u8>,
}

impl View for TlvItem {
    type V = (u8, Seq<u8>);

    open spec fn view(&self) -> (u8, Seq<u8>) {
        (self.tag, self.value@)
    }
}

/// The bytes of one encoded item whose value fits a single fragment.
pub open spec fn item_bytes(tag: u8, value: Seq<u8>) -> Seq<u8>
    recommends
        value.len() <= 255,
{
    seq![tag, value.len() as u8] + value
}

/// The items encoded in `bytes` from position `i` on, or nothing if the
/// stream is malformed (a truncated header or a value running past the end).
pub open spec fn tlv_items_from(bytes: Seq<u8>, i: int) -> Option<Seq<(u8, Seq<u8>)>>
    recommends
        0 <= i,
    decreases bytes.len() - i,
{
    if i < 0 || i >= bytes.len() {
        Some(Seq::empty())
    } else if i + 2 > bytes.len() {
        None
    } else {
        let tag = bytes[i];
        let len = bytes[i + 1] as int;
        if i + 2 + len > bytes.len() {
            None
        } else {
            match tlv_items_from(bytes, i + 2 + len) {
                Option::None => None,
                Option::Some(rest) => Some(seq![(tag, bytes.subrange(i + 2, i + 2 + len))] + rest),
            }
        }
    }
}

/// The items encoded in a whole body, or nothing if it is malformed.
pub open spec fn tlv_items(bytes: Seq<u8>) -> Option<Seq<(u8, Seq<u8>)>> {
    tlv_items_from(bytes, 0)
}

/// Appends the already decoded items in front of what the rest of the
/// stream holds.
spec fn glue(acc: Seq<(u8, Seq<u8>)>, rest: Option<Seq<(u8, Seq<u8>)>>) -> Option<
    Seq<(u8, Seq<u8>)>,
> {
    match rest {
        Option::None => None,
        Option::Some(r) => Some(acc + r),
    }
}

/// Decodes a body into its TLV items; yields nothing exactly when the body
/// is malformed.
pub fn tlv_decode(bytes: &Vec<u8>) -> (r: Option<Vec<TlvItem>>)
    ensures
        match r {
            Option::Some(items) => tlv_items(bytes@) == Some(
                items@.map_values(|it: TlvItem| it@),
            ),
            Option::None => tlv_items(bytes@) is None,
        },
{
    let mut i: usize = 0;
    let mut acc: Vec<TlvItem> = Vec::new();
    loop
        invariant
            i <= bytes.len(),
            tlv_items(bytes@) == glue(
                acc@.map_values(|it: TlvItem| it@),
                tlv_items_from(bytes@, i as int),
            ),
        decreases bytes.len() - i,
    {
        if i == bytes.len() {
            proof {
                assert(tlv_items_from(bytes@, i as int) == Some(Seq::<(u8, Seq<u8>)>::empty()));
                assert(acc@.map_values(|it: TlvItem| it@) + Seq::<(u8, Seq<u8>)>::empty()
                    =~= acc@.map_values(|it: TlvItem| it@));
            }
            return Some(acc);
        }
        if bytes.len() - i < 2 {
            return None;
        }
        let tag = bytes[i];
        let len = bytes[i + 1] as usize;
        if bytes.len() - (i + 2) < len {
            return None;
        }
        let mut value: Vec<u8> = Vec::new();
        let mut j: usize = 0;
        while j < len
            invariant
                j <= len,
                i + 2 + len <= bytes.len(),
                value@ == bytes@.subrange(i + 2, i + 2 + j),
            decreases len - j,
        {
            value.push(bytes[i + 2 + j]);
            proof {
                assert(value@ =~= bytes@.subrange(i as int + 2, i as int + 2 + j as int + 1));
            }
            j = j + 1;
        }
        let ghost old_acc = acc@;
        let ghost item_v = (tag, bytes@.subrange(i as int + 2, i as int + 2 + len as int));
        acc.push(TlvItem { tag, value });
        proof {
            let f = |it: TlvItem| it@;
            assert(acc@.map_values(f) =~= old_acc.map_values(f) + seq![item_v]);
            let next = tlv_items_from(bytes@, i as int + 2 + len as int);
            match next {
                Option::None => {}
                Option::Some(rest) => {
                    assert(tlv_items_from(bytes@, i as int) == Some(seq![item_v] + rest));
                    assert(old_acc.map_values(f) + (seq![item_v] + rest) =~= (old_acc.map_values(f)
                        + seq![item_v]) + rest);
                },
            }
        }
        i = i + 2 + len;
    }
}

/// The handshake step number a decoded message carries: the value of its
/// first state item, when that value is one byte; nothing otherwise.
pub open spec fn step_of(items: Seq<(u8, Seq<u8>)>) -> Option<u8>
    decreases items.len(),
{
    if items.len() == 0 {
        None
    } else if items[0].0 == TAG_STATE {
        if items[0].1.len() == 1 {
            Some(items[0].1[0])
        } else {
            None
        }
    } else {
        step_of(items.drop_first())
    }
}

fn find_step_from(items: &Vec<TlvItem>, i: usize) -> (r: Option<u8>)
    requires
        i <= items.len(),
    ensures
        r == step_of(items@.map_values(|it: TlvItem| it@).subrange(i as int, items@.len() as int)),
    decreases items.len() - i,
{
    let ghost f = |it: TlvItem| it@;
    let ghost suffix = items@.map_values(f).subrange(i as int, items@.len() as int);
    if i == items.len() {
        proof {
            assert(suffix =~= Seq::empty());
        }
        None
    } else if items[i].tag == TAG_STATE {
        proof {
            assert(suffix[0] == items@[i as int]@);
        }
        if items[i].value.len() == 1 {
            Some(items[i].value[0])
        } else {
            None
        }
    } else {
        proof {
            assert(suffix[0] == items@[i as int]@);
            assert(suffix.drop_first() =~= items@.map_values(f).subrange(
                i as int + 1,
                items@.len() as int,
            ));
        }
        find_step_from(items, i + 1)
    }
}

/// Finds the handshake step number among decoded items, as `step_of` says.
pub fn find_step(items: &Vec<TlvItem>) -> (r: Option<u8>)
    ensures
        r == step_of(items@.map_values(|it: TlvItem| it@)),
{
    let r = find_step_from(items, 0);
    proof {
        let s = items@.map_values(|it: TlvItem| it@);
        assert(s.subrange(0, s.len() as int) =~= s);
    }
    r
}

/// Anything an endpoint can put on the wire as a TLV payload.
pub trait Encodable {
    /// The exact bytes the value encodes to.
    spec fn encode_spec(&self) -> Seq<u8>;

    /// Encodes the value to TLV bytes.
    fn encode(&self) -> (r: Vec<u8>)
        ensures
            r@ == self.encode_spec(),
    ;
}

/// A protocol-level failure, reported inside the TLV payload itself: the
/// handshake state it concerns and the protocol error code. It travels the
/// wire under a successful HTTP status; the protocol defines its own error
/// vocabulary.
pub struct ErrorContainer {
    pub state: u8,
    pub code: u8,
}

impl ErrorContainer {
    pub fn new(state: u8, code: u8) -> (r: ErrorContainer)
        ensures
            r.state == state,
            r.code == code,
    {
        ErrorContainer { state, code }
    }
}

impl Encodable for ErrorContainer {
    open spec fn encode_spec(&self) -> Seq<u8> {
        item_bytes(TAG_STATE, seq![self.state]) + item_bytes(TAG_ERROR, seq![self.code])
    }

    fn encode(&self) -> (r: Vec<u8>) {
        let mut r: Vec<u8> = Vec::new();
        r.push(TAG_STATE);
        r.push(1);
        r.push(self.state);
        r.push(TAG_ERROR);
        r.push(1);
        r.push(self.code);
        proof {
            assert(r@ =~= self.encode_spec());
        }
        r
    }
}

} // verus!
