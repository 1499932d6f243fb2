use vstd::prelude::*;

verus! {

/// Width in bytes of one encoded `Swap`: two big-endian `u32` fields.
pub const SWAP_LEN: usize = 8;

/// A fixed-shape record of two unsigned 32-bit quantities.
#[derive(Debug, Clone, Copy, PartialEq, Eq, Structural)]
pub struct Swap {
    pub qty_1: u32,
    pub qty_2: u32,
}

/// The four bytes of `x`, most significant first.
pub open spec fn be_bytes(x: u32) -> Seq<u8> {
    seq![
        (x / 0x100_0000) as u8,
        ((x / 0x1_0000) % 0x100) as u8,
        ((x / 0x100) % 0x100) as u8,
        (x % 0x100) as u8,
    ]
}

/// The number that four bytes spell, most significant first.
pub open spec fn be_value(b0: u8, b1: u8, b2: u8, b3: u8) -> int {
    b0 * 0x100_0000 + b1 * 0x1_0000 + b2 * 0x100 + b3
}

/// The canonical encoding of a record: its fields in order, each big-endian.
pub open spec fn encoding(s: Swap) -> Seq<u8> {
    be_bytes(s.qty_1) + be_bytes(s.qty_2)
}

/// The record that the first eight bytes of `b` spell.
pub open spec fn decoding(b: Seq<u8>) -> Swap
    recommends
        b.len() >= 8,
{
    Swap {
        qty_1: be_value(b[0], b[1], b[2], b[3]) as u32,
        qty_2: be_value(b[4], b[5], b[6], b[7]) as u32,
    }
}

/// Error of `Swap::deserialize`.
#[derive(Debug, Clone, Copy, PartialEq, Eq, Structural)]
pub enum CodecError {
    /// Fewer bytes than one encoded record holds.
    TruncatedInput,
}

/// The four bytes of `x` spell `x` again.
pub proof fn lemma_be_value_of_bytes(x: u32)
    ensures
        be_value(be_bytes(x)[0], be_bytes(x)[1], be_bytes(x)[2], be_bytes(x)[3]) == x,
{
    let b = be_bytes(x);
    assert(b[0] == x / 0x100_0000);
    assert(b[1] == (x / 0x1_0000) % 0x100);
    assert(b[2] == (x / 0x100) % 0x100);
    assert(b[3] == x % 0x100);
    assert((x / 0x100_0000) * 0x100_0000 + ((x / 0x1_0000) % 0x100) * 0x1_0000
        + ((x / 0x100) % 0x100) * 0x100 + x % 0x100 == x) by (nonlinear_arith);
}

/// Round trip: decoding the encoding of a record gives the record back.
pub proof fn lemma_round_trip(v1: u32, v2: u32)
    ensures
        decoding(encoding(Swap { qty_1: v1, qty_2: v2 })) == (Swap { qty_1: v1, qty_2: v2 }),
{
    let e = encoding(Swap { qty_1: v1, qty_2: v2 });
    lemma_be_value_of_bytes(v1);
    lemma_be_value_of_bytes(v2);
    assert(e.subrange(0, 4) =~= be_bytes(v1));
    assert(e.subrange(4, 8) =~= be_bytes(v2));
}

/// Every record encodes to exactly eight bytes.
pub proof fn lemma_encoding_len(s: Swap)
    ensures
        encoding(s).len() == SWAP_LEN,
{
}

/// Decoding reads the first eight bytes only: whatever follows them changes nothing.
pub proof fn lemma_prefix_tolerance(b: Seq<u8>)
    requires
        b.len() > SWAP_LEN,
    ensures
        decoding(b) == decoding(b.subrange(0, SWAP_LEN as int)),
{
}

impl Swap {
    /// Encodes the record as its two fields in order, each big-endian.
    pub fn serialize(&self) -> (v: Vec<u8>)
        ensures
            v@ == encoding(*self),
    {
        let mut v: Vec<u8> = Vec::with_capacity(SWAP_LEN);
        push_be_u32(&mut v, self.qty_1);
        push_be_u32(&mut v, self.qty_2);
        assert(v@ =~= encoding(*self));
        v
    }

    /// Decodes a record from the first eight bytes of `data`; later bytes are
    /// ignored, and fewer than eight are refused.
    pub fn deserialize(data: &[u8]) -> (r: Result<Swap, CodecError>)
        ensures
            data@.len() < SWAP_LEN ==> r == Err::<Swap, CodecError>(CodecError::TruncatedInput),
            data@.len() >= SWAP_LEN ==> r == Ok::<Swap, CodecError>(decoding(data@)),
    {
        if data.len() < SWAP_LEN {
            return Err(CodecError::TruncatedInput);
        }
        let qty_1 = read_be_u32(data[0], data[1], data[2], data[3]);
        let qty_2 = read_be_u32(data[4], data[5], data[6], data[7]);
        Ok(Swap { qty_1, qty_2 })
    }
}

/// Appends the four big-endian bytes of `x`.
fn push_be_u32(v: &mut Vec<u8>, x: u32)
    ensures
        final(v)@ == old(v)@ + be_bytes(x),
{
    v.push((x / 0x100_0000) as u8);
    v.push(((x / 0x1_0000) % 0x100) as u8);
    v.push(((x / 0x100) % 0x100) as u8);
    v.push((x % 0x100) as u8);
    assert(final(v)@ =~= old(v)@ + be_bytes(x));
}

/// The `u32` that four bytes spell, most significant first.
fn read_be_u32(b0: u8, b1: u8, b2: u8, b3: u8) -> (r: u32)
    ensures
        r == be_value(b0, b1, b2, b3),
{
    assert(b0 * 0x100_0000 + b1 * 0x1_0000 + b2 * 0x100 + b3 <= 0xffff_ffff) by (nonlinear_arith)
        requires b0 <= 0xff, b1 <= 0xff, b2 <= 0xff, b3 <= 0xff;
    (b0 as u32) * 0x100_0000 + (b1 as u32) * 0x1_0000 + (b2 as u32) * 0x100 + (b3 as u32)
}

} // verus!
