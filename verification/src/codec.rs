//! The work-item and response-item payload codec.
//!
//! The transport between the two domains carries raw bytes with their
//! length — the length is the vector's own, so a mismatch between a
//! declared size and the bytes is structurally impossible.  On top of
//! that, a strongly typed payload — an operation selector plus operand
//! bytes — serializes to the raw form before submission and parses back
//! after receipt; both directions of that trip are proved lossless.

use vstd::prelude::*;

verus! {

/// A strongly typed unit of deferred work: which operation to run and the
/// self-contained bytes it operates on.
#[derive(Debug, PartialEq, Eq)]
pub struct TypedPayload {
    /// Selects the operation the work callback should perform.
    pub tag: u8,
    /// The operand bytes, owned by the payload.
    pub body: Vec<u8>,
}

/// The wire form of a typed payload: the selector byte, then the operand.
pub open spec fn spec_encode(tag: u8, body: Seq<u8>) -> Seq<u8> {
    seq![tag] + body
}

/// Parsing the wire form: empty input carries no payload; anything else
/// splits into the selector byte and the operand.
pub open spec fn spec_decode(bytes: Seq<u8>) -> Option<(u8, Seq<u8>)> {
    if bytes.len() == 0 {
        None
    } else {
        Some((bytes.first(), bytes.drop_first()))
    }
}

/// Serialize a typed payload to the raw byte form the transport carries.
pub fn encode(p: &TypedPayload) -> (r: Vec<u8>)
    ensures
        r@ == spec_encode(p.tag, p.body@),
{
    let mut r: Vec<u8> = Vec::new();
    r.push(p.tag);
    let mut i: usize = 0;
    while i < p.body.len()
        invariant
            i <= p.body@.len(),
            r@.len() == 1 + i,
            r@[0] == p.tag,
            forall|j: int| 0 <= j < i ==> r@[j + 1] == p.body@[j],
        decreases p.body@.len() - i,
    {
        r.push(p.body[i]);
        i += 1;
    }
    proof {
        assert(r@ =~= spec_encode(p.tag, p.body@));
    }
    r
}

/// Parse raw bytes back into a typed payload; only the empty input, which
/// carries no selector, is rejected.
pub fn decode(bytes: &Vec<u8>) -> (r: Option<TypedPayload>)
    ensures
        match r {
            Some(p) => {
                &&& bytes@.len() > 0
                &&& spec_decode(bytes@) == Some((p.tag, p.body@))
            },
            None => bytes@.len() == 0,
        },
{
    if bytes.len() == 0 {
        None
    } else {
        let tag = bytes[0];
        let mut body: Vec<u8> = Vec::new();
        let mut i: usize = 1;
        while i < bytes.len()
            invariant
                1 <= i <= bytes@.len(),
                body@.len() == i - 1,
                forall|j: int| 0 <= j < i - 1 ==> body@[j] == bytes@[j + 1],
            decreases bytes@.len() - i,
        {
            body.push(bytes[i]);
            i += 1;
        }
        proof {
            assert(body@ =~= bytes@.drop_first());
        }
        Some(TypedPayload { tag, body })
    }
}

/// A unit of work as the component presents it for submission: either
/// raw bytes carried as they are, or a typed value serialized to the
/// raw form at the submission boundary.
#[derive(Debug, PartialEq, Eq)]
pub enum WorkPayload {
    /// Raw bytes, opaque to the transport.
    Raw(Vec<u8>),
    /// A typed value, serialized before the hand-off.
    Typed(TypedPayload),
}

impl WorkPayload {
    /// The bytes the transport carries for this payload.
    pub open spec fn spec_wire(self) -> Seq<u8> {
        match self {
            WorkPayload::Raw(b) => b@,
            WorkPayload::Typed(t) => spec_encode(t.tag, t.body@),
        }
    }

    /// Serialize for the hand-off; the payload is consumed, as the
    /// real-time side must not touch it again after submission.
    pub fn into_wire(self) -> (r: Vec<u8>)
        ensures
            r@ == self.spec_wire(),
    {
        match self {
            WorkPayload::Raw(b) => b,
            WorkPayload::Typed(t) => encode(&t),
        }
    }
}

/// Round-trip, serialize then parse: every typed payload survives the
/// trip to raw bytes and back unchanged.
pub proof fn lemma_encode_decode(tag: u8, body: Seq<u8>)
    ensures
        spec_decode(spec_encode(tag, body)) == Some((tag, body)),
{
    assert(spec_encode(tag, body).drop_first() =~= body);
}

/// Round-trip, parse then serialize: re-encoding whatever was parsed
/// reproduces the original raw bytes exactly.
pub proof fn lemma_decode_encode(bytes: Seq<u8>)
    requires
        bytes.len() > 0,
    ensures
        ({
            let (tag, body) = spec_decode(bytes).unwrap();
            spec_encode(tag, body) == bytes
        }),
{
    let (tag, body) = spec_decode(bytes).unwrap();
    assert(spec_encode(tag, body) =~= bytes);
}

} // verus!
