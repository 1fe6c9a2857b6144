//! The accessory-listing endpoint and the accessory database it reads.
//!
//! The database is modeled by what the listing reads of it: the accessory
//! identifiers of the live tree. Listing serializes the current contents to
//! the JSON wire format and answers with a successful status; it mutates
//! nothing and emits no event.

use vstd::prelude::*;

use crate::handler::{Context, HandlerError, JsonHandlerExt};
use crate::http::{json_response, ContentType, HttpResponse};

verus! {

/// One exposed accessory, by its identifier.
#[derive(Clone, Copy, Debug)]
pub struct Accessory {
    pub aid: u64,
}

/// The live tree of accessories, seen as the sequence of their identifiers.
pub struct AccessoryDatabase {
    pub accessories: Vec<Accessory>,
}

impl View for AccessoryDatabase {
    type V = Seq<u64>;

    open spec fn view(&self) -> Seq<u64> {
        self.accessories@.map_values(|a: Accessory| a.aid)
    }
}

/// The decimal digits of a number, most significant first, as ASCII bytes.
pub open spec fn dec_bytes(n: nat) -> Seq<u8>
    decreases n,
{
    if n < 10 {
        seq![(48 + n) as u8]
    } else {
        dec_bytes(n / 10) + seq![(48 + n % 10) as u8]
    }
}

/// The JSON object of one accessory entry: `{"aid":` digits `}`.
pub open spec fn accessory_json(aid: u64) -> Seq<u8> {
    seq![123u8, 34u8, 97u8, 105u8, 100u8, 34u8, 58u8] + dec_bytes(aid as nat) + seq![125u8]
}

/// The comma-joined accessory entries, in database order.
pub open spec fn accessory_list_json(aids: Seq<u64>) -> Seq<u8>
    decreases aids.len(),
{
    if aids.len() == 0 {
        Seq::empty()
    } else if aids.len() == 1 {
        accessory_json(aids[0])
    } else {
        accessory_list_json(aids.drop_last()) + seq![44u8] + accessory_json(aids.last())
    }
}

/// The whole listing body: `{"accessories":[` entries `]}`.
pub open spec fn accessories_json(aids: Seq<u64>) -> Seq<u8> {
    seq![
        123u8,
        34u8,
        97u8,
        99u8,
        99u8,
        101u8,
        115u8,
        115u8,
        111u8,
        114u8,
        105u8,
        101u8,
        115u8,
        34u8,
        58u8,
        91u8,
    ] + accessory_list_json(aids) + seq![93u8, 125u8]
}

/// Appends the decimal digits of `n` to `out`.
fn push_decimal(out: &mut Vec<u8>, n: u64)
    ensures
        final(out)@ == old(out)@ + dec_bytes(n as nat),
{
    let mut digits: Vec<u8> = Vec::new();
    let mut m: u64 = n;
    digits.insert(0, 48 + (m % 10) as u8);
    proof {
        assert(digits@ =~= dec_bytes((n % 10) as nat));
    }
    m = m / 10;
    while m > 0
        invariant
            digits@.len() >= 1,
            dec_bytes(n as nat) == if m > 0 {
                dec_bytes(m as nat) + digits@
            } else {
                digits@
            },
        decreases m,
    {
        let ghost prev = digits@;
        digits.insert(0, 48 + (m % 10) as u8);
        proof {
            assert(digits@ =~= seq![(48 + (m as nat) % 10) as u8] + prev);
            if m >= 10 {
                assert(dec_bytes(m as nat) == dec_bytes((m as nat) / 10) + seq![
                    (48 + (m as nat) % 10) as u8,
                ]);
                assert(dec_bytes(m as nat) + prev =~= dec_bytes((m as nat) / 10) + digits@);
            } else {
                assert(dec_bytes(m as nat) =~= seq![(48 + (m as nat) % 10) as u8]);
                assert(dec_bytes(m as nat) + prev =~= digits@);
            }
        }
        m = m / 10;
    }
    let mut k: usize = 0;
    let ghost base = out@;
    while k < digits.len()
        invariant
            k <= digits.len(),
            out@ == base + digits@.subrange(0, k as int),
        decreases digits.len() - k,
    {
        out.push(digits[k]);
        proof {
            assert(out@ =~= base + digits@.subrange(0, k as int + 1));
        }
        k = k + 1;
    }
    proof {
        assert(digits@.subrange(0, digits@.len() as int) =~= digits@);
    }
}

impl AccessoryDatabase {
    /// Serializes the current contents to the JSON wire format.
    pub fn as_serialized_json(&self) -> (r: Vec<u8>)
        ensures
            r@ == accessories_json(self@),
    {
        let mut out: Vec<u8> = Vec::new();
        out.push(123);
        out.push(34);
        out.push(97);
        out.push(99);
        out.push(99);
        out.push(101);
        out.push(115);
        out.push(115);
        out.push(111);
        out.push(114);
        out.push(105);
        out.push(101);
        out.push(115);
        out.push(34);
        out.push(58);
        out.push(91);
        let ghost header = out@;
        proof {
            assert(self@.subrange(0, 0) =~= Seq::<u64>::empty());
            assert(header + accessory_list_json(self@.subrange(0, 0)) =~= header);
        }
        let mut i: usize = 0;
        while i < self.accessories.len()
            invariant
                i <= self.accessories.len(),
                header.len() == 16,
                out@ == header + accessory_list_json(self@.subrange(0, i as int)),
                self@.len() == self.accessories@.len(),
            decreases self.accessories.len() - i,
        {
            if i > 0 {
                out.push(44);
            }
            push_decimal_entry(&mut out, self.accessories[i].aid);
            proof {
                let prefix = self@.subrange(0, i as int + 1);
                assert(prefix.drop_last() =~= self@.subrange(0, i as int));
                assert(prefix.last() == self@[i as int]);
                if i == 0 {
                    assert(accessory_list_json(prefix) =~= accessory_json(self@[0]));
                    assert(out@ =~= header + accessory_list_json(prefix));
                } else {
                    assert(accessory_list_json(prefix) =~= accessory_list_json(
                        self@.subrange(0, i as int),
                    ) + seq![44u8] + accessory_json(self@[i as int]));
                    assert(out@ =~= header + accessory_list_json(prefix));
                }
            }
            i = i + 1;
        }
        out.push(93);
        out.push(125);
        proof {
            assert(self@.subrange(0, self@.len() as int) =~= self@);
            assert(out@ =~= accessories_json(self@));
        }
        out
    }
}

/// Appends one `{"aid":N}` entry to `out`.
fn push_decimal_entry(out: &mut Vec<u8>, aid: u64)
    ensures
        final(out)@ == old(out)@ + accessory_json(aid),
{
    out.push(123);
    out.push(34);
    out.push(97);
    out.push(105);
    out.push(100);
    out.push(34);
    out.push(58);
    push_decimal(out, aid);
    out.push(125);
    proof {
        assert(out@ =~= old(out)@ + accessory_json(aid));
    }
}

/// The stateless accessory-listing endpoint.
pub struct Accessories;

impl Accessories {
    pub fn new() -> Accessories {
        Accessories
    }
}

impl JsonHandlerExt for Accessories {
    /// Listing never fails: it answers 200 with the database serialized as
    /// JSON, touching neither the endpoint nor the shared context.
    open spec fn handle_allows(
        &self,
        uri: Seq<char>,
        body: Seq<u8>,
        ctx0: Context,
        new_self: Self,
        ctx1: Context,
        r: Result<HttpResponse, HandlerError>,
    ) -> bool {
        &&& ctx1 == ctx0
        &&& r matches Result::Ok(resp) && resp.status == 200 && resp.content_type
            == ContentType::Json && resp.body@ == accessories_json(ctx0.accessory_database@)
    }

    fn handle(&mut self, uri: &str, body: Vec<u8>, ctx: &mut Context) -> (r: Result<
        HttpResponse,
        HandlerError,
    >) {
        let resp_body = ctx.accessory_database.as_serialized_json();
        Result::Ok(json_response(resp_body, 200))
    }
}

} // verus!
