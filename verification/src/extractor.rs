use crate::error::Error;
use vstd::arithmetic::div_mod::lemma_fundamental_div_mod_converse;
use vstd::prelude::*;

verus! {

/// Byte order used to interpret every multi-byte field of one decode.
#[derive(Debug, Clone, Copy, PartialEq, Eq, Structural)]
pub enum Endianness {
    Big,
    Little,
}

/// The number a byte sequence denotes when its first byte is least
/// significant.
pub open spec fn le_value(b: Seq<u8>) -> nat
    decreases b.len(),
{
    if b.len() == 0 {
        0
    } else {
        b.first() as nat + 256 * le_value(b.drop_first())
    }
}

/// The number a byte sequence denotes when its first byte is most
/// significant.
pub open spec fn be_value(b: Seq<u8>) -> nat
    decreases b.len(),
{
    if b.len() == 0 {
        0
    } else {
        256 * be_value(b.drop_last()) + b.last() as nat
    }
}

/// The number a fixed-width field denotes under the chosen byte order.
pub open spec fn field_value(e: Endianness, b: Seq<u8>) -> nat {
    match e {
        Endianness::Little => le_value(b),
        Endianness::Big => be_value(b),
    }
}

/// 256 to the power `n`: the number of values `n` bytes can denote.
pub open spec fn pow256(n: nat) -> nat
    decreases n,
{
    if n == 0 {
        1
    } else {
        256 * pow256((n - 1) as nat)
    }
}

/// The 32-bit field stored at offset `p` of `d`.
pub open spec fn u32_at(e: Endianness, d: Seq<u8>, p: int) -> u32 {
    field_value(e, d.subrange(p, p + 4)) as u32
}

/// The 64-bit field stored at offset `p` of `d`.
pub open spec fn u64_at(e: Endianness, d: Seq<u8>, p: int) -> u64 {
    field_value(e, d.subrange(p, p + 8)) as u64
}

/// The 128-bit field stored at offset `p` of `d`.
pub open spec fn u128_at(e: Endianness, d: Seq<u8>, p: int) -> u128 {
    field_value(e, d.subrange(p, p + 16)) as u128
}

pub proof fn lemma_le_value_bound(b: Seq<u8>)
    ensures
        le_value(b) < pow256(b.len()),
    decreases b.len(),
{
    if b.len() > 0 {
        lemma_le_value_bound(b.drop_first());
    }
}

pub proof fn lemma_be_value_bound(b: Seq<u8>)
    ensures
        be_value(b) < pow256(b.len()),
    decreases b.len(),
{
    if b.len() > 0 {
        lemma_be_value_bound(b.drop_last());
    }
}

pub proof fn lemma_field_value_bound(e: Endianness, b: Seq<u8>)
    ensures
        field_value(e, b) < pow256(b.len()),
{
    lemma_le_value_bound(b);
    lemma_be_value_bound(b);
}

pub proof fn lemma_pow256_mono(a: nat, b: nat)
    requires
        a <= b,
    ensures
        pow256(a) <= pow256(b),
    decreases b,
{
    if a < b {
        lemma_pow256_mono(a, (b - 1) as nat);
    }
}

/// The four bytes that encode `v` under the chosen byte order.
pub open spec fn spec_u32_bytes(e: Endianness, v: u32) -> Seq<u8> {
    match e {
        Endianness::Little => seq![
            (v % 256) as u8,
            ((v / 256) % 256) as u8,
            ((v / 0x10000) % 256) as u8,
            ((v / 0x1000000) % 256) as u8,
        ],
        Endianness::Big => seq![
            ((v / 0x1000000) % 256) as u8,
            ((v / 0x10000) % 256) as u8,
            ((v / 256) % 256) as u8,
            (v % 256) as u8,
        ],
    }
}

/// Reading back the four bytes that encode `v` yields `v` again.
pub proof fn lemma_u32_bytes_value(e: Endianness, v: u32)
    ensures
        spec_u32_bytes(e, v).len() == 4,
        field_value(e, spec_u32_bytes(e, v)) == v,
{
    let b0 = (v % 256) as u8;
    let b1 = ((v / 256) % 256) as u8;
    let b2 = ((v / 0x10000) % 256) as u8;
    let b3 = ((v / 0x1000000) % 256) as u8;
    assert(v == 256 * (v as int / 256) + v as int % 256) by {
        vstd::arithmetic::div_mod::lemma_fundamental_div_mod(v as int, 256);
    }
    assert(v as int / 256 == 256 * (v as int / 0x10000) + (v as int / 256) % 256) by {
        vstd::arithmetic::div_mod::lemma_fundamental_div_mod(v as int / 256, 256);
        vstd::arithmetic::div_mod::lemma_div_denominator(v as int, 256, 256);
    }
    assert(v as int / 0x10000 == 256 * (v as int / 0x1000000) + (v as int / 0x10000) % 256) by {
        vstd::arithmetic::div_mod::lemma_fundamental_div_mod(v as int / 0x10000, 256);
        vstd::arithmetic::div_mod::lemma_div_denominator(v as int, 0x10000, 256);
    }
    assert(v as int / 0x1000000 < 256) by {
        vstd::arithmetic::div_mod::lemma_div_is_ordered(v as int, 0xffffffff, 0x1000000);
    }
    assert(b3 == v as int / 0x1000000) by {
        vstd::arithmetic::div_mod::lemma_small_mod((v as int / 0x1000000) as nat, 256);
    }
    reveal_with_fuel(le_value, 5);
    reveal_with_fuel(be_value, 5);
    let le = spec_u32_bytes(Endianness::Little, v);
    assert(le.drop_first() =~= seq![b1, b2, b3]);
    assert(seq![b1, b2, b3].drop_first() =~= seq![b2, b3]);
    assert(seq![b2, b3].drop_first() =~= seq![b3]);
    assert(seq![b3].drop_first() =~= Seq::<u8>::empty());
    assert(le_value(le) == b0 + 256 * (b1 + 256 * (b2 + 256 * (b3 as nat))));
    let be = spec_u32_bytes(Endianness::Big, v);
    assert(be.drop_last() =~= seq![b3, b2, b1]);
    assert(seq![b3, b2, b1].drop_last() =~= seq![b3, b2]);
    assert(seq![b3, b2].drop_last() =~= seq![b3]);
    assert(seq![b3].drop_last() =~= Seq::<u8>::empty());
    assert(be_value(be) == 256 * (256 * (256 * (b3 as nat) + b2) + b1) + b0);
}

/// Re-encoding the value read from four bytes yields the same four bytes.
pub proof fn lemma_u32_bytes_roundtrip(e: Endianness, b: Seq<u8>)
    requires
        b.len() == 4,
    ensures
        spec_u32_bytes(e, field_value(e, b) as u32) == b,
{
    let (b0, b1, b2, b3) = match e {
        Endianness::Little => (b[0], b[1], b[2], b[3]),
        Endianness::Big => (b[3], b[2], b[1], b[0]),
    };
    let n = field_value(e, b);
    reveal_with_fuel(le_value, 5);
    reveal_with_fuel(be_value, 5);
    match e {
        Endianness::Little => {
            assert(b.drop_first() =~= seq![b1, b2, b3]);
            assert(seq![b1, b2, b3].drop_first() =~= seq![b2, b3]);
            assert(seq![b2, b3].drop_first() =~= seq![b3]);
            assert(seq![b3].drop_first() =~= Seq::<u8>::empty());
            assert(n == b0 + 256 * (b1 + 256 * (b2 + 256 * (b3 as nat))));
        }
        Endianness::Big => {
            assert(b.drop_last() =~= seq![b3, b2, b1]);
            assert(seq![b3, b2, b1].drop_last() =~= seq![b3, b2]);
            assert(seq![b3, b2].drop_last() =~= seq![b3]);
            assert(seq![b3].drop_last() =~= Seq::<u8>::empty());
            assert(n == 256 * (256 * (256 * (b3 as nat) + b2) + b1) + b0);
        }
    }
    assert(n < 0x100000000);
    let v = n as u32;
    assert(v == n);
    lemma_fundamental_div_mod_converse(
        v as int,
        256,
        b1 + 256 * (b2 as int) + 0x10000 * (b3 as int),
        b0 as int,
    );
    lemma_fundamental_div_mod_converse(
        b1 + 256 * (b2 as int) + 0x10000 * (b3 as int),
        256,
        b2 + 256 * (b3 as int),
        b1 as int,
    );
    lemma_fundamental_div_mod_converse(b2 + 256 * (b3 as int), 256, b3 as int, b2 as int);
    vstd::arithmetic::div_mod::lemma_div_denominator(v as int, 256, 256);
    vstd::arithmetic::div_mod::lemma_div_denominator(v as int, 0x10000, 256);
    vstd::arithmetic::div_mod::lemma_small_mod(b3 as nat, 256);
    assert(spec_u32_bytes(e, v) =~= b);
}

/// Endianness-parameterized reader of fixed-width unsigned integers and raw
/// byte runs out of a byte buffer. The byte order is selected once per
/// decode; the cursor only advances when a read succeeds in full.
pub struct Extractor {
    pub endianness: Endianness,
    pub pos: usize,
}

impl Extractor {
    /// An extractor that reads little-endian fields, starting at `pos`.
    pub fn little_endian(pos: usize) -> (r: Extractor)
        ensures
            r.endianness == Endianness::Little,
            r.pos == pos,
    {
        Extractor { endianness: Endianness::Little, pos }
    }

    /// An extractor that reads big-endian fields, starting at `pos`.
    pub fn big_endian(pos: usize) -> (r: Extractor)
        ensures
            r.endianness == Endianness::Big,
            r.pos == pos,
    {
        Extractor { endianness: Endianness::Big, pos }
    }

    /// Read `n <= 16` bytes as one unsigned integer in the configured byte
    /// order. The cursor does not advance on failure.
    fn read_uint(&mut self, data: &Vec<u8>, n: usize) -> (r: Result<u128, Error>)
        requires
            n <= 16,
        ensures
            final(self).endianness == old(self).endianness,
            match r {
                Ok(v) => {
                    &&& old(self).pos + n <= data@.len()
                    &&& final(self).pos == old(self).pos + n
                    &&& v as nat == field_value(
                        old(self).endianness,
                        data@.subrange(old(self).pos as int, old(self).pos + n),
                    )
                },
                Err(er) => {
                    &&& er == Error::IoFailure
                    &&& old(self).pos + n > data@.len()
                    &&& *final(self) == *old(self)
                },
            },
    {
        let len = data.len();
        if self.pos > len || n > len - self.pos {
            return Err(Error::IoFailure);
        }
        let base = self.pos;
        let mut v: u128 = 0;
        match self.endianness {
            Endianness::Big => {
                let mut i: usize = 0;
                while i < n
                    invariant
                        i <= n,
                        n <= 16,
                        len == data@.len(),
                        base + n <= len,
                        v as nat == be_value(data@.subrange(base as int, base + i)),
                        v < pow256(i as nat),
                    decreases n - i,
                {
                    proof {
                        assert(data@.subrange(base as int, base + i + 1).drop_last() =~= data@
                            .subrange(base as int, base + i));
                        lemma_pow256_mono((i + 1) as nat, 16);
                        assert(pow256(16) == 0x100000000000000000000000000000000) by {
                            reveal_with_fuel(pow256, 17);
                        }
                    }
                    let b = data[base + i];
                    v = v * 256 + (b as u128);
                    i = i + 1;
                }
                proof {
                    assert(data@.subrange(base as int, base + n) =~= data@.subrange(
                        base as int,
                        base + i,
                    ));
                }
            }
            Endianness::Little => {
                let mut i: usize = n;
                while i > 0
                    invariant
                        i <= n,
                        n <= 16,
                        len == data@.len(),
                        base + n <= len,
                        v as nat == le_value(data@.subrange(base + i, base + n)),
                        v < pow256((n - i) as nat),
                    decreases i,
                {
                    proof {
                        assert(data@.subrange(base + i - 1, base + n).drop_first() =~= data@
                            .subrange(base + i, base + n));
                        lemma_pow256_mono((n - i + 1) as nat, 16);
                        assert(pow256(16) == 0x100000000000000000000000000000000) by {
                            reveal_with_fuel(pow256, 17);
                        }
                    }
                    let b = data[base + i - 1];
                    v = v * 256 + (b as u128);
                    i = i - 1;
                }
            }
        }
        self.pos = base + n;
        Ok(v)
    }

    /// Read one 32-bit field.
    pub fn read_u32(&mut self, data: &Vec<u8>) -> (r: Result<u32, Error>)
        ensures
            final(self).endianness == old(self).endianness,
            match r {
                Ok(v) => {
                    &&& old(self).pos + 4 <= data@.len()
                    &&& final(self).pos == old(self).pos + 4
                    &&& v == u32_at(old(self).endianness, data@, old(self).pos as int)
                },
                Err(er) => {
                    &&& er == Error::IoFailure
                    &&& old(self).pos + 4 > data@.len()
                    &&& *final(self) == *old(self)
                },
            },
    {
        let ghost e0 = *self;
        match self.read_uint(data, 4) {
            Ok(v) => {
                proof {
                    let b = data@.subrange(e0.pos as int, e0.pos + 4);
                    lemma_field_value_bound(e0.endianness, b);
                    assert(pow256(4) == 0x100000000) by {
                        reveal_with_fuel(pow256, 5);
                    }
                }
                Ok(v as u32)
            }
            Err(er) => Err(er),
        }
    }

    /// Read one 64-bit field.
    pub fn read_u64(&mut self, data: &Vec<u8>) -> (r: Result<u64, Error>)
        ensures
            final(self).endianness == old(self).endianness,
            match r {
                Ok(v) => {
                    &&& old(self).pos + 8 <= data@.len()
                    &&& final(self).pos == old(self).pos + 8
                    &&& v == u64_at(old(self).endianness, data@, old(self).pos as int)
                },
                Err(er) => {
                    &&& er == Error::IoFailure
                    &&& old(self).pos + 8 > data@.len()
                    &&& *final(self) == *old(self)
                },
            },
    {
        let ghost e0 = *self;
        match self.read_uint(data, 8) {
            Ok(v) => {
                proof {
                    let b = data@.subrange(e0.pos as int, e0.pos + 8);
                    lemma_field_value_bound(e0.endianness, b);
                    assert(pow256(8) == 0x10000000000000000) by {
                        reveal_with_fuel(pow256, 9);
                    }
                }
                Ok(v as u64)
            }
            Err(er) => Err(er),
        }
    }

    /// Read one 128-bit field.
    pub fn read_u128(&mut self, data: &Vec<u8>) -> (r: Result<u128, Error>)
        ensures
            final(self).endianness == old(self).endianness,
            match r {
                Ok(v) => {
                    &&& old(self).pos + 16 <= data@.len()
                    &&& final(self).pos == old(self).pos + 16
                    &&& v == u128_at(old(self).endianness, data@, old(self).pos as int)
                },
                Err(er) => {
                    &&& er == Error::IoFailure
                    &&& old(self).pos + 16 > data@.len()
                    &&& *final(self) == *old(self)
                },
            },
    {
        let ghost e0 = *self;
        match self.read_uint(data, 16) {
            Ok(v) => {
                proof {
                    let b = data@.subrange(e0.pos as int, e0.pos + 16);
                    lemma_field_value_bound(e0.endianness, b);
                    assert(pow256(16) == 0x100000000000000000000000000000000) by {
                        reveal_with_fuel(pow256, 17);
                    }
                }
                Ok(v)
            }
            Err(er) => Err(er),
        }
    }

    /// Read `n` raw bytes verbatim.
    pub fn read_bytes(&mut self, data: &Vec<u8>, n: usize) -> (r: Result<Vec<u8>, Error>)
        ensures
            final(self).endianness == old(self).endianness,
            match r {
                Ok(v) => {
                    &&& old(self).pos + n <= data@.len()
                    &&& final(self).pos == old(self).pos + n
                    &&& v@ == data@.subrange(old(self).pos as int, old(self).pos + n)
                },
                Err(er) => {
                    &&& er == Error::IoFailure
                    &&& old(self).pos + n > data@.len()
                    &&& *final(self) == *old(self)
                },
            },
    {
        let len = data.len();
        if self.pos > len || n > len - self.pos {
            return Err(Error::IoFailure);
        }
        let base = self.pos;
        let mut out: Vec<u8> = Vec::new();
        let mut i: usize = 0;
        while i < n
            invariant
                i <= n,
                len == data@.len(),
                base + n <= len,
                out@ == data@.subrange(base as int, base + i),
            decreases n - i,
        {
            let b = data[base + i];
            out.push(b);
            proof {
                assert(out@ =~= data@.subrange(base as int, base + i + 1));
            }
            i = i + 1;
        }
        self.pos = base + n;
        Ok(out)
    }
}

/// Write one 32-bit field: the four bytes that encode `v` under `e`.
pub fn u32_to_bytes(e: Endianness, v: u32) -> (r: Vec<u8>)
    ensures
        r@ == spec_u32_bytes(e, v),
{
    let b0 = (v % 256) as u8;
    let b1 = ((v / 256) % 256) as u8;
    let b2 = ((v / 0x10000) % 256) as u8;
    let b3 = ((v / 0x1000000) % 256) as u8;
    let mut out: Vec<u8> = Vec::new();
    match e {
        Endianness::Little => {
            out.push(b0);
            out.push(b1);
            out.push(b2);
            out.push(b3);
        }
        Endianness::Big => {
            out.push(b3);
            out.push(b2);
            out.push(b1);
            out.push(b0);
        }
    }
    proof {
        assert(out@ =~= spec_u32_bytes(e, v));
    }
    out
}

} // verus!
