//! Byte-level building blocks for the signed portion of an invocation
//! envelope: a length-prefixed, tagged concatenation of the origin, the
//! target, the operation name and the payload, so that the authenticity
//! proof covers all four.

use vstd::prelude::*;
use vstd::string::StringSliceAdditionalSpecFns;
use vstd::utf8::encode_utf8;

use crate::entity::{EntityModel, WasccEntity};

verus! {

/// The eight little-endian base-256 digits of `n`.
pub open spec fn spec_u64_le(n: u64) -> Seq<u8> {
    seq![
        (n % 256) as u8,
        ((n / 256) % 256) as u8,
        ((n / 65536) % 256) as u8,
        ((n / 16777216) % 256) as u8,
        ((n / 4294967296) % 256) as u8,
        ((n / 1099511627776) % 256) as u8,
        ((n / 281474976710656) % 256) as u8,
        ((n / 72057594037927936) % 256) as u8,
    ]
}

/// A field as it enters the signed byte stream: its length as eight
/// little-endian bytes, then its bytes.
pub open spec fn spec_len_prefixed(b: Seq<u8>) -> Seq<u8> {
    spec_u64_le(b.len() as u64) + b
}

/// An entity in the signed byte stream: a one-byte variant tag followed
/// by its length-prefixed UTF-8 identifier fields.
pub open spec fn spec_entity_bytes(e: EntityModel) -> Seq<u8> {
    match e {
        EntityModel::Capability { capid, binding } => seq![0u8] + spec_len_prefixed(
            encode_utf8(capid),
        ) + spec_len_prefixed(encode_utf8(binding)),
        EntityModel::Actor { actor } => seq![1u8] + spec_len_prefixed(encode_utf8(actor)),
    }
}

/// The identifier fields of `e` encode to lengths an eight-byte prefix
/// can carry.  Holds for every entity built from in-memory strings.
pub open spec fn spec_entity_fits(e: EntityModel) -> bool {
    match e {
        EntityModel::Capability { capid, binding } => encode_utf8(capid).len() <= u64::MAX
            && encode_utf8(binding).len() <= u64::MAX,
        EntityModel::Actor { actor } => encode_utf8(actor).len() <= u64::MAX,
    }
}

/// Everything the authenticity proof covers, in order: origin, target,
/// operation name, payload.
pub open spec fn spec_claims_bytes(
    origin: EntityModel,
    target: EntityModel,
    operation: Seq<char>,
    payload: Seq<u8>,
) -> Seq<u8> {
    spec_entity_bytes(origin) + spec_entity_bytes(target) + spec_len_prefixed(
        encode_utf8(operation),
    ) + spec_len_prefixed(payload)
}

/// The eight little-endian digits determine the number they encode.
pub proof fn lemma_u64_le_injective(m: u64, n: u64)
    requires
        spec_u64_le(m) == spec_u64_le(n),
    ensures
        m == n,
{
    assert(spec_u64_le(m)[0] == spec_u64_le(n)[0]);
    assert(spec_u64_le(m)[1] == spec_u64_le(n)[1]);
    assert(spec_u64_le(m)[2] == spec_u64_le(n)[2]);
    assert(spec_u64_le(m)[3] == spec_u64_le(n)[3]);
    assert(spec_u64_le(m)[4] == spec_u64_le(n)[4]);
    assert(spec_u64_le(m)[5] == spec_u64_le(n)[5]);
    assert(spec_u64_le(m)[6] == spec_u64_le(n)[6]);
    assert(spec_u64_le(m)[7] == spec_u64_le(n)[7]);
    assert((m % 256) as u8 == (n % 256) as u8 && ((m / 256) % 256) as u8 == ((n / 256) % 256) as u8
        && ((m / 65536) % 256) as u8 == ((n / 65536) % 256) as u8 && ((m / 16777216) % 256) as u8
        == ((n / 16777216) % 256) as u8 && ((m / 4294967296) % 256) as u8 == ((n / 4294967296)
        % 256) as u8 && ((m / 1099511627776) % 256) as u8 == ((n / 1099511627776) % 256) as u8 && ((
    m / 281474976710656) % 256) as u8 == ((n / 281474976710656) % 256) as u8 && ((m
        / 72057594037927936) % 256) as u8 == ((n / 72057594037927936) % 256) as u8 ==> m == n)
        by (bit_vector);
}

/// A length-prefixed field is self-delimiting: however two prefixed
/// streams continue, equal streams mean equal fields and equal
/// continuations.
pub proof fn lemma_len_prefixed_peel(a: Seq<u8>, x: Seq<u8>, b: Seq<u8>, y: Seq<u8>)
    requires
        a.len() <= u64::MAX,
        b.len() <= u64::MAX,
        spec_len_prefixed(a) + x == spec_len_prefixed(b) + y,
    ensures
        a == b,
        x == y,
{
    let lhs = spec_len_prefixed(a) + x;
    let rhs = spec_len_prefixed(b) + y;
    assert(spec_u64_le(a.len() as u64) =~= lhs.subrange(0, 8));
    assert(spec_u64_le(b.len() as u64) =~= rhs.subrange(0, 8));
    lemma_u64_le_injective(a.len() as u64, b.len() as u64);
    assert(a =~= lhs.subrange(8, 8 + a.len() as int));
    assert(b =~= rhs.subrange(8, 8 + b.len() as int));
    assert(x =~= lhs.skip(8 + a.len() as int));
    assert(y =~= rhs.skip(8 + b.len() as int));
}

/// An encoded entity is self-delimiting too: the tag byte fixes the
/// variant, and each identifier field is length-prefixed, so equal
/// streams mean the same entity and equal continuations.
pub proof fn lemma_entity_bytes_peel(e1: EntityModel, x: Seq<u8>, e2: EntityModel, y: Seq<u8>)
    requires
        spec_entity_fits(e1),
        spec_entity_fits(e2),
        spec_entity_bytes(e1) + x == spec_entity_bytes(e2) + y,
    ensures
        e1 == e2,
        x == y,
{
    let lhs = spec_entity_bytes(e1) + x;
    let rhs = spec_entity_bytes(e2) + y;
    match (e1, e2) {
        (
            EntityModel::Capability { capid: c1, binding: b1 },
            EntityModel::Capability { capid: c2, binding: b2 },
        ) => {
            let uc1 = encode_utf8(c1);
            let ub1 = encode_utf8(b1);
            let uc2 = encode_utf8(c2);
            let ub2 = encode_utf8(b2);
            assert(spec_len_prefixed(uc1) + (spec_len_prefixed(ub1) + x) =~= lhs.skip(1));
            assert(spec_len_prefixed(uc2) + (spec_len_prefixed(ub2) + y) =~= rhs.skip(1));
            lemma_len_prefixed_peel(uc1, spec_len_prefixed(ub1) + x, uc2, spec_len_prefixed(ub2) + y);
            lemma_len_prefixed_peel(ub1, x, ub2, y);
            vstd::utf8::encode_utf8_decode_utf8(c1);
            vstd::utf8::encode_utf8_decode_utf8(c2);
            vstd::utf8::encode_utf8_decode_utf8(b1);
            vstd::utf8::encode_utf8_decode_utf8(b2);
        },
        (EntityModel::Actor { actor: a1 }, EntityModel::Actor { actor: a2 }) => {
            let ua1 = encode_utf8(a1);
            let ua2 = encode_utf8(a2);
            assert(spec_len_prefixed(ua1) + x =~= lhs.skip(1));
            assert(spec_len_prefixed(ua2) + y =~= rhs.skip(1));
            lemma_len_prefixed_peel(ua1, x, ua2, y);
            vstd::utf8::encode_utf8_decode_utf8(a1);
            vstd::utf8::encode_utf8_decode_utf8(a2);
        },
        (EntityModel::Capability { .. }, EntityModel::Actor { .. }) => {
            assert(lhs[0] == 0u8 && rhs[0] == 1u8);
        },
        (EntityModel::Actor { .. }, EntityModel::Capability { .. }) => {
            assert(lhs[0] == 1u8 && rhs[0] == 0u8);
        },
    }
}

/// Distinct covered fields always sign distinct byte streams: the
/// encoding determines the origin, the target, the operation and the
/// payload that went in, so the authenticity proof genuinely covers
/// all four.
pub proof fn lemma_claims_bytes_injective(
    o1: EntityModel,
    t1: EntityModel,
    op1: Seq<char>,
    p1: Seq<u8>,
    o2: EntityModel,
    t2: EntityModel,
    op2: Seq<char>,
    p2: Seq<u8>,
)
    requires
        spec_entity_fits(o1),
        spec_entity_fits(t1),
        spec_entity_fits(o2),
        spec_entity_fits(t2),
        encode_utf8(op1).len() <= u64::MAX,
        encode_utf8(op2).len() <= u64::MAX,
        p1.len() <= u64::MAX,
        p2.len() <= u64::MAX,
        spec_claims_bytes(o1, t1, op1, p1) == spec_claims_bytes(o2, t2, op2, p2),
    ensures
        o1 == o2,
        t1 == t2,
        op1 == op2,
        p1 == p2,
{
    let uop1 = encode_utf8(op1);
    let uop2 = encode_utf8(op2);
    let tail1 = spec_entity_bytes(t1) + (spec_len_prefixed(uop1) + spec_len_prefixed(p1));
    let tail2 = spec_entity_bytes(t2) + (spec_len_prefixed(uop2) + spec_len_prefixed(p2));
    assert(spec_entity_bytes(o1) + tail1 =~= spec_claims_bytes(o1, t1, op1, p1));
    assert(spec_entity_bytes(o2) + tail2 =~= spec_claims_bytes(o2, t2, op2, p2));
    lemma_entity_bytes_peel(o1, tail1, o2, tail2);
    lemma_entity_bytes_peel(t1, spec_len_prefixed(uop1) + spec_len_prefixed(p1), t2, spec_len_prefixed(uop2) + spec_len_prefixed(p2));
    lemma_len_prefixed_peel(uop1, spec_len_prefixed(p1), uop2, spec_len_prefixed(p2));
    vstd::utf8::encode_utf8_decode_utf8(op1);
    vstd::utf8::encode_utf8_decode_utf8(op2);
    assert(spec_len_prefixed(p1) + Seq::<u8>::empty() =~= spec_len_prefixed(p1));
    assert(spec_len_prefixed(p2) + Seq::<u8>::empty() =~= spec_len_prefixed(p2));
    lemma_len_prefixed_peel(p1, Seq::<u8>::empty(), p2, Seq::<u8>::empty());
}

/// Appends the eight little-endian base-256 digits of `n`.
pub fn push_u64_le(out: &mut Vec<u8>, n: u64)
    ensures
        final(out)@ == old(out)@ + spec_u64_le(n),
{
    out.push((n % 256) as u8);
    out.push(((n / 256) % 256) as u8);
    out.push(((n / 65536) % 256) as u8);
    out.push(((n / 16777216) % 256) as u8);
    out.push(((n / 4294967296) % 256) as u8);
    out.push(((n / 1099511627776) % 256) as u8);
    out.push(((n / 281474976710656) % 256) as u8);
    out.push(((n / 72057594037927936) % 256) as u8);
    assert(out@ =~= old(out)@ + spec_u64_le(n));
}

/// Appends the bytes of `b` unchanged.
pub fn push_bytes(out: &mut Vec<u8>, b: &[u8])
    ensures
        final(out)@ == old(out)@ + b@,
{
    let mut i: usize = 0;
    while i < b.len()
        invariant
            i <= b@.len(),
            out@ == old(out)@ + b@.take(i as int),
        decreases b@.len() - i,
    {
        out.push(b[i]);
        assert(b@.take(i as int).push(b@[i as int]) =~= b@.take(i + 1));
        i = i + 1;
    }
    assert(b@.take(b@.len() as int) =~= b@);
}

/// Copies a byte slice into a fresh vector.
pub fn bytes_to_vec(b: &[u8]) -> (r: Vec<u8>)
    ensures
        r@ == b@,
{
    let mut out: Vec<u8> = Vec::new();
    push_bytes(&mut out, b);
    out
}

/// Appends `b` preceded by its length, as [`spec_len_prefixed`] says.
pub fn push_len_prefixed(out: &mut Vec<u8>, b: &[u8])
    ensures
        final(out)@ == old(out)@ + spec_len_prefixed(b@),
{
    push_u64_le(out, b.len() as u64);
    push_bytes(out, b);
    assert(out@ =~= old(out)@ + spec_len_prefixed(b@));
}

/// Appends the tagged, length-prefixed form of an entity, as
/// [`spec_entity_bytes`] says.
pub fn push_entity_bytes(out: &mut Vec<u8>, e: &WasccEntity)
    ensures
        final(out)@ == old(out)@ + spec_entity_bytes(e@),
{
    match e {
        WasccEntity::Capability { capid, binding } => {
            out.push(0u8);
            push_len_prefixed(out, capid.as_str().as_bytes());
            push_len_prefixed(out, binding.as_str().as_bytes());
        },
        WasccEntity::Actor { actor } => {
            out.push(1u8);
            push_len_prefixed(out, actor.as_str().as_bytes());
        },
    }
    assert(out@ =~= old(out)@ + spec_entity_bytes(e@));
}

/// Builds the full byte stream the authenticity proof is computed over,
/// as [`spec_claims_bytes`] says.
pub fn claims_bytes(
    origin: &WasccEntity,
    target: &WasccEntity,
    operation: &str,
    payload: &[u8],
) -> (r: Vec<u8>)
    ensures
        r@ == spec_claims_bytes(origin@, target@, operation@, payload@),
{
    let mut out: Vec<u8> = Vec::new();
    push_entity_bytes(&mut out, origin);
    push_entity_bytes(&mut out, target);
    push_len_prefixed(&mut out, operation.as_bytes());
    push_len_prefixed(&mut out, payload);
    assert(out@ =~= spec_claims_bytes(origin@, target@, operation@, payload@));
    out
}

} // verus!
