//! Little-endian byte encodings shared by the emitter and the decoder.
//!
//! Scalar fields of an instruction are fixed-width little-endian integers.
//! Variable-length payloads (a tensor's data vector, a shape list) are laid
//! out by the container serializer: a 64-bit little-endian element count
//! followed by the fixed-width little-endian elements.  The serializer calls
//! go through `bincode`; everything else here is verified code.

use vstd::prelude::*;

verus! {

// ---------------------------------------------------------------------------
// Scalar encodings.
// ---------------------------------------------------------------------------

/// The two little-endian bytes of a 16-bit value.
pub open spec fn u16_le_bytes(v: u16) -> Seq<u8> {
    seq![(v & 0xff) as u8, ((v >> 8) & 0xff) as u8]
}

/// The four little-endian bytes of a 32-bit value.
pub open spec fn u32_le_bytes(v: u32) -> Seq<u8> {
    seq![
        (v & 0xff) as u8,
        ((v >> 8) & 0xff) as u8,
        ((v >> 16) & 0xff) as u8,
        ((v >> 24) & 0xff) as u8,
    ]
}

/// The eight little-endian bytes of a 64-bit value.
pub open spec fn u64_le_bytes(v: u64) -> Seq<u8> {
    seq![
        (v & 0xff) as u8,
        ((v >> 8) & 0xff) as u8,
        ((v >> 16) & 0xff) as u8,
        ((v >> 24) & 0xff) as u8,
        ((v >> 32) & 0xff) as u8,
        ((v >> 40) & 0xff) as u8,
        ((v >> 48) & 0xff) as u8,
        ((v >> 56) & 0xff) as u8,
    ]
}

/// The four little-endian bytes of a 32-bit signed value (its bit pattern).
pub open spec fn i32_le_bytes(v: i32) -> Seq<u8> {
    u32_le_bytes(v as u32)
}

/// The 16-bit value read back from two little-endian bytes.
pub open spec fn u16_of_le(b0: u8, b1: u8) -> u16 {
    (b0 as u16) | ((b1 as u16) << 8)
}

/// The 32-bit value read back from four little-endian bytes.
pub open spec fn u32_of_le(b0: u8, b1: u8, b2: u8, b3: u8) -> u32 {
    (b0 as u32) | ((b1 as u32) << 8) | ((b2 as u32) << 16) | ((b3 as u32) << 24)
}

/// The 64-bit value read back from eight little-endian bytes.
pub open spec fn u64_of_le(b: Seq<u8>) -> u64
    recommends
        b.len() == 8,
{
    (b[0] as u64) | ((b[1] as u64) << 8) | ((b[2] as u64) << 16) | ((b[3] as u64) << 24) | ((
    b[4] as u64) << 32) | ((b[5] as u64) << 40) | ((b[6] as u64) << 48) | ((b[7] as u64) << 56)
}

/// Reading two little-endian bytes undoes writing them.
pub proof fn lemma_u16_le_round_trip(v: u16)
    ensures
        u16_of_le(u16_le_bytes(v)[0], u16_le_bytes(v)[1]) == v,
{
    let b0 = u16_le_bytes(v)[0];
    let b1 = u16_le_bytes(v)[1];
    assert((b0 as u16) | ((b1 as u16) << 8) == v) by (bit_vector)
        requires
            b0 == (v & 0xff) as u8 && b1 == ((v >> 8) & 0xff) as u8,
    ;
}

/// Reading four little-endian bytes undoes writing them.
pub proof fn lemma_u32_le_round_trip(v: u32)
    ensures
        u32_of_le(u32_le_bytes(v)[0], u32_le_bytes(v)[1], u32_le_bytes(v)[2], u32_le_bytes(v)[3])
            == v,
{
    let b0 = u32_le_bytes(v)[0];
    let b1 = u32_le_bytes(v)[1];
    let b2 = u32_le_bytes(v)[2];
    let b3 = u32_le_bytes(v)[3];
    assert((b0 as u32) | ((b1 as u32) << 8) | ((b2 as u32) << 16) | ((b3 as u32) << 24) == v)
        by (bit_vector)
        requires
            b0 == (v & 0xff) as u8 && b1 == ((v >> 8) & 0xff) as u8 && b2 == ((v >> 16)
                & 0xff) as u8 && b3 == ((v >> 24) & 0xff) as u8,
    ;
}

/// Writing four little-endian bytes undoes reading them.
pub proof fn lemma_u32_of_le_round_trip(b0: u8, b1: u8, b2: u8, b3: u8)
    ensures
        u32_le_bytes(u32_of_le(b0, b1, b2, b3)) == seq![b0, b1, b2, b3],
{
    let v = u32_of_le(b0, b1, b2, b3);
    assert((v & 0xff) as u8 == b0 && ((v >> 8) & 0xff) as u8 == b1 && ((v >> 16) & 0xff) as u8 == b2
        && ((v >> 24) & 0xff) as u8 == b3) by (bit_vector)
        requires
            v == (b0 as u32) | ((b1 as u32) << 8) | ((b2 as u32) << 16) | ((b3 as u32) << 24),
    ;
    assert(u32_le_bytes(v) =~= seq![b0, b1, b2, b3]);
}

/// Writing eight little-endian bytes undoes reading them.
pub proof fn lemma_u64_of_le_round_trip(b: Seq<u8>)
    requires
        b.len() == 8,
    ensures
        u64_le_bytes(u64_of_le(b)) == b,
{
    let b0 = b[0];
    let b1 = b[1];
    let b2 = b[2];
    let b3 = b[3];
    let b4 = b[4];
    let b5 = b[5];
    let b6 = b[6];
    let b7 = b[7];
    let v = u64_of_le(b);
    assert((v & 0xff) as u8 == b0 && ((v >> 8) & 0xff) as u8 == b1 && ((v >> 16) & 0xff) as u8 == b2
        && ((v >> 24) & 0xff) as u8 == b3 && ((v >> 32) & 0xff) as u8 == b4 && ((v >> 40)
        & 0xff) as u8 == b5 && ((v >> 48) & 0xff) as u8 == b6 && ((v >> 56) & 0xff) as u8 == b7)
        by (bit_vector)
        requires
            v == (b0 as u64) | ((b1 as u64) << 8) | ((b2 as u64) << 16) | ((b3 as u64) << 24) | ((
            b4 as u64) << 32) | ((b5 as u64) << 40) | ((b6 as u64) << 48) | ((b7 as u64) << 56),
    ;
    assert(u64_le_bytes(v) =~= b);
}

/// Reading eight little-endian bytes undoes writing them.
pub proof fn lemma_u64_le_round_trip(v: u64)
    ensures
        u64_of_le(u64_le_bytes(v)) == v,
{
    let b = u64_le_bytes(v);
    let b0 = b[0];
    let b1 = b[1];
    let b2 = b[2];
    let b3 = b[3];
    let b4 = b[4];
    let b5 = b[5];
    let b6 = b[6];
    let b7 = b[7];
    assert((b0 as u64) | ((b1 as u64) << 8) | ((b2 as u64) << 16) | ((b3 as u64) << 24) | ((
    b4 as u64) << 32) | ((b5 as u64) << 40) | ((b6 as u64) << 48) | ((b7 as u64) << 56) == v)
        by (bit_vector)
        requires
            b0 == (v & 0xff) as u8 && b1 == ((v >> 8) & 0xff) as u8 && b2 == ((v >> 16)
                & 0xff) as u8 && b3 == ((v >> 24) & 0xff) as u8 && b4 == ((v >> 32) & 0xff) as u8
                && b5 == ((v >> 40) & 0xff) as u8 && b6 == ((v >> 48) & 0xff) as u8 && b7 == ((v
                >> 56) & 0xff) as u8,
    ;
}

// ---------------------------------------------------------------------------
// Executable scalar readers and writers.
// ---------------------------------------------------------------------------

/// Appends the two little-endian bytes of `v`.
pub fn push_u16_le(out: &mut Vec<u8>, v: u16)
    ensures
        final(out)@ == old(out)@ + u16_le_bytes(v),
{
    let b0: u8 = (v & 0xff) as u8;
    let b1: u8 = ((v >> 8) & 0xff) as u8;
    out.push(b0);
    out.push(b1);
    assert(out@ =~= old(out)@ + u16_le_bytes(v));
}

/// Appends the four little-endian bytes of `v`.
pub fn push_u32_le(out: &mut Vec<u8>, v: u32)
    ensures
        final(out)@ == old(out)@ + u32_le_bytes(v),
{
    let b0: u8 = (v & 0xff) as u8;
    let b1: u8 = ((v >> 8) & 0xff) as u8;
    let b2: u8 = ((v >> 16) & 0xff) as u8;
    let b3: u8 = ((v >> 24) & 0xff) as u8;
    out.push(b0);
    out.push(b1);
    out.push(b2);
    out.push(b3);
    assert(out@ =~= old(out)@ + u32_le_bytes(v));
}

/// Reads a 16-bit value from two little-endian bytes.
pub fn u16_from_le(b0: u8, b1: u8) -> (r: u16)
    ensures
        r == u16_of_le(b0, b1),
        u16_le_bytes(r) == seq![b0, b1],
{
    let r: u16 = (b0 as u16) | ((b1 as u16) << 8);
    proof {
        assert((r & 0xff) as u8 == b0 && ((r >> 8) & 0xff) as u8 == b1) by (bit_vector)
            requires
                r == (b0 as u16) | ((b1 as u16) << 8),
        ;
        assert(u16_le_bytes(r) =~= seq![b0, b1]);
    }
    r
}

/// Reads a 32-bit value from four little-endian bytes.
pub fn u32_from_le(b0: u8, b1: u8, b2: u8, b3: u8) -> (r: u32)
    ensures
        r == u32_of_le(b0, b1, b2, b3),
        u32_le_bytes(r) == seq![b0, b1, b2, b3],
{
    let r: u32 = (b0 as u32) | ((b1 as u32) << 8) | ((b2 as u32) << 16) | ((b3 as u32) << 24);
    proof {
        lemma_u32_of_le_round_trip(b0, b1, b2, b3);
    }
    r
}

// ---------------------------------------------------------------------------
// Container encodings: count-prefixed element lists.
// ---------------------------------------------------------------------------

/// The little-endian bytes of a list of 32-bit values, element after element.
pub open spec fn u32s_le_bytes(s: Seq<u32>) -> Seq<u8>
    decreases s.len(),
{
    if s.len() == 0 {
        Seq::empty()
    } else {
        u32_le_bytes(s[0]) + u32s_le_bytes(s.skip(1))
    }
}

/// The little-endian bytes of a list of machine words, eight bytes each.
pub open spec fn usizes_le_bytes(s: Seq<usize>) -> Seq<u8>
    decreases s.len(),
{
    if s.len() == 0 {
        Seq::empty()
    } else {
        u64_le_bytes(s[0] as u64) + usizes_le_bytes(s.skip(1))
    }
}

/// The serialized form of a vector of 32-bit values: a 64-bit little-endian
/// element count, then the elements.
pub open spec fn wire_u32_vec(s: Seq<u32>) -> Seq<u8> {
    u64_le_bytes(s.len() as u64) + u32s_le_bytes(s)
}

/// The serialized form of a vector of machine words: a 64-bit little-endian
/// element count, then the elements, eight bytes each.
pub open spec fn wire_usize_vec(s: Seq<usize>) -> Seq<u8> {
    u64_le_bytes(s.len() as u64) + usizes_le_bytes(s)
}

pub proof fn lemma_u32s_le_bytes_len(s: Seq<u32>)
    ensures
        u32s_le_bytes(s).len() == 4 * s.len(),
    decreases s.len(),
{
    if s.len() > 0 {
        lemma_u32s_le_bytes_len(s.skip(1));
    }
}

pub proof fn lemma_usizes_le_bytes_len(s: Seq<usize>)
    ensures
        usizes_le_bytes(s).len() == 8 * s.len(),
    decreases s.len(),
{
    if s.len() > 0 {
        lemma_usizes_le_bytes_len(s.skip(1));
    }
}

/// The list of 32-bit values read back from `4 * n` bytes.
pub open spec fn u32s_of_le_bytes(b: Seq<u8>) -> Seq<u32>
    recommends
        b.len() % 4 == 0,
    decreases b.len(),
{
    if b.len() < 4 {
        Seq::empty()
    } else {
        seq![u32_of_le(b[0], b[1], b[2], b[3])] + u32s_of_le_bytes(b.skip(4))
    }
}

/// The list of machine words read back from `8 * n` bytes.
pub open spec fn usizes_of_le_bytes(b: Seq<u8>) -> Seq<usize>
    recommends
        b.len() % 8 == 0,
    decreases b.len(),
{
    if b.len() < 8 {
        Seq::empty()
    } else {
        seq![u64_of_le(b.take(8)) as usize] + usizes_of_le_bytes(b.skip(8))
    }
}

/// How many 32-bit values a byte list decodes to.
pub proof fn lemma_u32s_of_le_bytes_len(b: Seq<u8>)
    ensures
        4 * u32s_of_le_bytes(b).len() <= b.len(),
        b.len() % 4 == 0 ==> 4 * u32s_of_le_bytes(b).len() == b.len(),
    decreases b.len(),
{
    if b.len() >= 4 {
        lemma_u32s_of_le_bytes_len(b.skip(4));
    }
}

/// How many machine words a byte list decodes to.
pub proof fn lemma_usizes_of_le_bytes_len(b: Seq<u8>)
    ensures
        8 * usizes_of_le_bytes(b).len() <= b.len(),
        b.len() % 8 == 0 ==> 8 * usizes_of_le_bytes(b).len() == b.len(),
    decreases b.len(),
{
    if b.len() >= 8 {
        lemma_usizes_of_le_bytes_len(b.skip(8));
    }
}

/// Reading element bytes undoes writing them.
pub proof fn lemma_u32s_round_trip(s: Seq<u32>)
    ensures
        u32s_of_le_bytes(u32s_le_bytes(s)) == s,
    decreases s.len(),
{
    lemma_u32s_le_bytes_len(s);
    if s.len() == 0 {
        assert(u32s_of_le_bytes(u32s_le_bytes(s)) =~= s);
    } else {
        let b = u32s_le_bytes(s);
        lemma_u32s_le_bytes_len(s.skip(1));
        assert(b.len() >= 4);
        lemma_u32_le_round_trip(s[0]);
        assert(b.skip(4) =~= u32s_le_bytes(s.skip(1)));
        lemma_u32s_round_trip(s.skip(1));
        assert(b[0] == u32_le_bytes(s[0])[0]);
        assert(b[1] == u32_le_bytes(s[0])[1]);
        assert(b[2] == u32_le_bytes(s[0])[2]);
        assert(b[3] == u32_le_bytes(s[0])[3]);
        assert(u32s_of_le_bytes(b) =~= s);
    }
}

/// Reading machine-word bytes undoes writing them.
pub proof fn lemma_usizes_round_trip(s: Seq<usize>)
    ensures
        usizes_of_le_bytes(usizes_le_bytes(s)) == s,
    decreases s.len(),
{
    lemma_usizes_le_bytes_len(s);
    if s.len() == 0 {
        assert(usizes_of_le_bytes(usizes_le_bytes(s)) =~= s);
    } else {
        let b = usizes_le_bytes(s);
        lemma_usizes_le_bytes_len(s.skip(1));
        assert(b.len() >= 8);
        lemma_u64_le_round_trip(s[0] as u64);
        assert(b.take(8) =~= u64_le_bytes(s[0] as u64));
        assert(b.skip(8) =~= usizes_le_bytes(s.skip(1)));
        lemma_usizes_round_trip(s.skip(1));
        assert(usizes_of_le_bytes(b) =~= s);
    }
}

// ---------------------------------------------------------------------------
// Trusted serializer calls.
// ---------------------------------------------------------------------------

/// Relies on `bincode::serialize` for `Vec<u32>`: with its default
/// configuration (fixed-width integers, little endian) it writes the element
/// count as a 64-bit little-endian value, then each element as four
/// little-endian bytes, and cannot fail when writing to memory.
#[verifier::external_body]
pub fn serialize_u32_vec(v: &Vec<u32>) -> (r: Vec<u8>)
    ensures
        r@ == wire_u32_vec(v@),
{
    bincode::serialize(v).unwrap()
}

/// Relies on `bincode::serialize` for `Vec<usize>`: machine words are
/// widened to 64 bits, so the layout is the element count followed by the
/// elements, eight little-endian bytes each.
#[verifier::external_body]
pub fn serialize_usize_vec(v: &Vec<usize>) -> (r: Vec<u8>)
    ensures
        r@ == wire_usize_vec(v@),
{
    bincode::serialize(v).unwrap()
}

/// Whether `b` begins with a well-shaped serialized vector of 32-bit
/// values: an eight-byte count `n`, then at least `4 * n` element bytes.
pub open spec fn u32_vec_wire_ok(b: Seq<u8>) -> bool {
    b.len() >= 8 && 8 + 4 * (u64_of_le(b.take(8)) as int) <= b.len()
}

/// The vector of 32-bit values at the front of `b`.
pub open spec fn u32_vec_of_wire(b: Seq<u8>) -> Seq<u32>
    recommends
        u32_vec_wire_ok(b),
{
    u32s_of_le_bytes(b.subrange(8, 8 + 4 * (u64_of_le(b.take(8)) as int)))
}

/// Whether `b` begins with a well-shaped serialized vector of machine
/// words whose values all fit the word size.
pub open spec fn usize_vec_wire_ok(b: Seq<u8>) -> bool {
    &&& b.len() >= 8
    &&& 8 + 8 * (u64_of_le(b.take(8)) as int) <= b.len()
    &&& forall|i: int|
        0 <= i < u64_of_le(b.take(8)) as int ==> u64_of_le(
            #[trigger] b.subrange(8 + 8 * i, 16 + 8 * i),
        ) <= usize::MAX
}

/// The vector of machine words at the front of `b`.
pub open spec fn usize_vec_of_wire(b: Seq<u8>) -> Seq<usize>
    recommends
        usize_vec_wire_ok(b),
{
    usizes_of_le_bytes(b.subrange(8, 8 + 8 * (u64_of_le(b.take(8)) as int)))
}

/// Relies on `bincode::deserialize` for `Vec<u32>`: with the default
/// configuration it reads an eight-byte little-endian element count, then
/// that many four-byte little-endian elements, ignores what follows, and
/// reports an error exactly when the bytes run out.
#[verifier::external_body]
pub fn deserialize_u32_vec(b: &[u8]) -> (r: Option<Vec<u32>>)
    ensures
        u32_vec_wire_ok(b@) <==> r is Some,
        r matches Some(v) ==> v@ == u32_vec_of_wire(b@),
{
    match bincode::deserialize::<Vec<u32>>(b) {
        Ok(v) => Some(v),
        Err(_) => None,
    }
}

/// Relies on `bincode::deserialize` for `Vec<usize>`: as for 32-bit values,
/// but elements are eight bytes wide and a value that does not fit a
/// machine word is an error.
#[verifier::external_body]
pub fn deserialize_usize_vec(b: &[u8]) -> (r: Option<Vec<usize>>)
    ensures
        usize_vec_wire_ok(b@) <==> r is Some,
        r matches Some(v) ==> v@ == usize_vec_of_wire(b@),
{
    match bincode::deserialize::<Vec<usize>>(b) {
        Ok(v) => Some(v),
        Err(_) => None,
    }
}

/// The bytes of element `i` within an encoded machine-word list.
pub proof fn lemma_usizes_le_bytes_index(s: Seq<usize>, i: int)
    requires
        0 <= i < s.len(),
    ensures
        usizes_le_bytes(s).subrange(8 * i, 8 * i + 8) == u64_le_bytes(s[i] as u64),
    decreases i,
{
    lemma_usizes_le_bytes_len(s);
    if i == 0 {
        lemma_usizes_le_bytes_len(s.skip(1));
        assert(usizes_le_bytes(s).subrange(0, 8) =~= u64_le_bytes(s[0] as u64));
    } else {
        lemma_usizes_le_bytes_len(s.skip(1));
        lemma_usizes_le_bytes_index(s.skip(1), i - 1);
        assert(usizes_le_bytes(s).subrange(8 * i, 8 * i + 8) =~= usizes_le_bytes(s.skip(1)).subrange(
            8 * (i - 1),
            8 * (i - 1) + 8,
        ));
        assert(s.skip(1)[i - 1] == s[i]);
    }
}

/// Deserializing a serialized vector of 32-bit values gives the vector back.
pub proof fn lemma_wire_u32_vec_round_trip(s: Seq<u32>)
    requires
        s.len() <= usize::MAX,
    ensures
        u32_vec_wire_ok(wire_u32_vec(s)),
        u32_vec_of_wire(wire_u32_vec(s)) == s,
{
    let b = wire_u32_vec(s);
    lemma_u32s_le_bytes_len(s);
    assert(b.take(8) =~= u64_le_bytes(s.len() as u64));
    lemma_u64_le_round_trip(s.len() as u64);
    assert(b.subrange(8, 8 + 4 * (s.len() as int)) =~= u32s_le_bytes(s));
    lemma_u32s_round_trip(s);
}

/// Deserializing a serialized vector of machine words gives the vector back.
pub proof fn lemma_wire_usize_vec_round_trip(s: Seq<usize>)
    requires
        s.len() <= usize::MAX,
    ensures
        usize_vec_wire_ok(wire_usize_vec(s)),
        usize_vec_of_wire(wire_usize_vec(s)) == s,
{
    let b = wire_usize_vec(s);
    lemma_usizes_le_bytes_len(s);
    assert(b.take(8) =~= u64_le_bytes(s.len() as u64));
    lemma_u64_le_round_trip(s.len() as u64);
    assert(b.subrange(8, 8 + 8 * (s.len() as int)) =~= usizes_le_bytes(s));
    lemma_usizes_round_trip(s);
    assert forall|i: int| 0 <= i < u64_of_le(b.take(8)) as int implies u64_of_le(
        #[trigger] b.subrange(8 + 8 * i, 16 + 8 * i),
    ) <= usize::MAX by {
        lemma_usizes_le_bytes_index(s, i);
        assert(b.subrange(8 + 8 * i, 16 + 8 * i) =~= usizes_le_bytes(s).subrange(
            8 * i,
            8 * i + 8,
        ));
        lemma_u64_le_round_trip(s[i] as u64);
    }
}

} // verus!
