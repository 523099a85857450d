use vstd::prelude::*;

verus! {

/// The two big-endian bytes of a 16-bit value: high byte first.
pub open spec fn be16(v: u16) -> Seq<u8> {
    seq![(v / 256) as u8, (v % 256) as u8]
}

/// The 16-bit value read big-endian from a high and a low byte.
pub open spec fn u16_of(hi: u8, lo: u8) -> u16 {
    (hi * 256 + lo) as u16
}

/// Reading back the two big-endian bytes of a value gives the value.
pub proof fn lemma_be16_roundtrip(v: u16)
    ensures
        be16(v).len() == 2,
        u16_of(be16(v)[0], be16(v)[1]) == v,
{
    assert(v / 256 < 256);
    assert((v / 256) * 256 + v % 256 == v) by (nonlinear_arith);
}

/// All value sequences laid out as consecutive big-endian pairs.
pub open spec fn be16_flat(values: Seq<u16>) -> Seq<u8>
    decreases values.len(),
{
    if values.len() == 0 {
        Seq::<u8>::empty()
    } else {
        be16(values[0]) + be16_flat(values.skip(1))
    }
}

pub proof fn lemma_be16_flat_len(values: Seq<u16>)
    ensures
        be16_flat(values).len() == 2 * values.len(),
    decreases values.len(),
{
    if values.len() > 0 {
        lemma_be16_flat_len(values.skip(1));
    }
}

/// Appending one value to a sequence appends its two bytes to the layout.
pub proof fn lemma_be16_flat_snoc(values: Seq<u16>, v: u16)
    ensures
        be16_flat(values.push(v)) == be16_flat(values) + be16(v),
    decreases values.len(),
{
    if values.len() == 0 {
        let p = values.push(v);
        assert(p[0] == v);
        assert(p.skip(1) =~= Seq::<u16>::empty());
        assert(be16_flat(p.skip(1)) == Seq::<u8>::empty());
        assert(be16_flat(p) == be16(v) + be16_flat(p.skip(1)));
        assert(be16_flat(values) == Seq::<u8>::empty());
        assert(be16(v) + Seq::<u8>::empty() =~= Seq::<u8>::empty() + be16(v));
    } else {
        lemma_be16_flat_snoc(values.skip(1), v);
        assert(values.push(v)[0] == values[0]);
        assert(values.push(v).skip(1) =~= values.skip(1).push(v));
        assert(be16_flat(values.push(v)) == be16(values[0]) + (be16_flat(values.skip(1)) + be16(
            v,
        )));
        assert(be16(values[0]) + (be16_flat(values.skip(1)) + be16(v)) =~= (be16(values[0])
            + be16_flat(values.skip(1))) + be16(v));
    }
}

/// Relies on bytes::BufMut::put_u8 on Vec<u8>: appends the byte.
#[verifier::external_body]
pub(crate) fn put_u8(buf: &mut Vec<u8>, v: u8)
    ensures
        final(buf)@ == old(buf)@.push(v),
{
    bytes::BufMut::put_u8(buf, v);
}

/// Relies on bytes::BufMut::put_u16 on Vec<u8>: appends the value as two
/// big-endian bytes.
#[verifier::external_body]
pub(crate) fn put_u16(buf: &mut Vec<u8>, v: u16)
    ensures
        final(buf)@ == old(buf)@ + be16(v),
{
    bytes::BufMut::put_u16(buf, v);
}

/// Relies on bytes::BufMut::put_slice on Vec<u8>: appends the slice's bytes
/// in order.
#[verifier::external_body]
pub(crate) fn put_slice(buf: &mut Vec<u8>, s: &[u8])
    ensures
        final(buf)@ == old(buf)@ + s@,
{
    bytes::BufMut::put_slice(buf, s);
}

/// Relies on bytes::Buf::get_u8 on a byte slice: reads the first remaining
/// byte.
#[verifier::external_body]
pub(crate) fn get_u8_at(p: &[u8], off: usize) -> (r: u8)
    requires
        off < p@.len(),
    ensures
        r == p@[off as int],
{
    let mut s: &[u8] = &p[off..];
    bytes::Buf::get_u8(&mut s)
}

/// Relies on bytes::Buf::get_u16 on a byte slice: reads the first two
/// remaining bytes big-endian.
#[verifier::external_body]
pub(crate) fn get_u16_at(p: &[u8], off: usize) -> (r: u16)
    requires
        off + 2 <= p@.len(),
    ensures
        r == u16_of(p@[off as int], p@[off as int + 1]),
{
    let mut s: &[u8] = &p[off..];
    bytes::Buf::get_u16(&mut s)
}

} // verus!
