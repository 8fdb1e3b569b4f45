use vstd::prelude::*;

use crate::error::TransferError;

verus! {

/// Exclusive bound of `block_height` and `tx_index`: they are 24-bit fields.
pub const FIELD_24_BOUND: u32 = 0x100_0000;

/// Weight of `block_height` in the packed form (bits 40 to 63).
pub open spec fn height_weight() -> int {
    0x100_0000_0000
}

/// Weight of `tx_index` in the packed form (bits 16 to 39).
pub open spec fn index_weight() -> int {
    0x1_0000
}

/// The packed layout `[block_height:24][tx_index:24][output_index:16]`.
pub open spec fn pack(h: int, t: int, o: int) -> int {
    h * height_weight() + t * index_weight() + o
}

/// The three fields read back from a packed value, most significant first.
pub open spec fn unpack(x: int) -> (int, int, int) {
    (
        (x / height_weight()) % 0x100_0000,
        (x / index_weight()) % 0x100_0000,
        x % index_weight(),
    )
}

/// A short coin identifier: one output of one transaction on the chain.
#[derive(Debug, Clone, Copy, PartialEq, Eq, Structural, PartialOrd, Ord)]
pub struct Scid {
    pub block_height: u32,
    pub tx_index: u32,
    pub output_index: u16,
}

impl Scid {
    /// Block height and transaction index fit in 24 bits.
    pub open spec fn wf(self) -> bool {
        self.block_height < FIELD_24_BOUND && self.tx_index < FIELD_24_BOUND
    }

    /// The identifier as its 64-bit packed value.
    pub open spec fn packed(self) -> int {
        pack(self.block_height as int, self.tx_index as int, self.output_index as int)
    }

    /// Every field of `self` is at least the field of `other`.
    pub open spec fn dominates(self, other: Scid) -> bool {
        self.block_height >= other.block_height && self.tx_index >= other.tx_index
            && self.output_index >= other.output_index
    }

    /// The fieldwise difference `self - other`.
    pub open spec fn offset_from(self, other: Scid) -> Scid {
        Scid {
            block_height: (self.block_height - other.block_height) as u32,
            tx_index: (self.tx_index - other.tx_index) as u32,
            output_index: (self.output_index - other.output_index) as u16,
        }
    }

    /// Adding the fields of a packed offset to `self` stays within the field widths.
    pub open spec fn can_apply(self, offset: u64) -> bool {
        let (h, t, o) = unpack(offset as int);
        &&& self.block_height + h < FIELD_24_BOUND
        &&& self.tx_index + t < FIELD_24_BOUND
        &&& self.output_index + o <= u16::MAX
    }

    /// `self` with the fields of a packed offset added.
    pub open spec fn applied(self, offset: u64) -> Scid {
        let (h, t, o) = unpack(offset as int);
        Scid {
            block_height: (self.block_height + h) as u32,
            tx_index: (self.tx_index + t) as u32,
            output_index: (self.output_index + o) as u16,
        }
    }

    /// The identifier of output `output_index` of transaction `tx_index` in
    /// block `block_height`; a height or index that needs more than 24 bits
    /// is refused.
    pub fn new(block_height: u32, tx_index: u32, output_index: u16) -> (r: Result<Scid, TransferError>)
        ensures
            block_height < FIELD_24_BOUND && tx_index < FIELD_24_BOUND ==> r == Ok::<Scid, TransferError>((Scid { block_height, tx_index, output_index })),
            block_height >= FIELD_24_BOUND || tx_index >= FIELD_24_BOUND ==> r == Err::<Scid, TransferError>(TransferError::Construction),
    {
        if block_height < FIELD_24_BOUND && tx_index < FIELD_24_BOUND {
            Ok(Scid { block_height, tx_index, output_index })
        } else {
            Err(TransferError::Construction)
        }
    }

    /// The packed 64-bit form `[block_height:24][tx_index:24][output_index:16]`.
    pub fn to_u64(&self) -> (r: u64)
        requires
            self.wf(),
        ensures
            r == self.packed(),
    {
        let h = self.block_height as u64;
        let t = self.tx_index as u64;
        let o = self.output_index as u64;
        let result: u64 = (h << 40u64) | (t << 16u64) | o;
        assert(result == h * 0x100_0000_0000u64 + t * 0x1_0000u64 + o) by (bit_vector)
            requires
                h < 0x100_0000,
                t < 0x100_0000,
                o < 0x1_0000,
                result == (h << 40u64) | (t << 16u64) | o,
        ;
        result
    }
    /// The fieldwise difference `self - other`; an underflow in any field is
    /// an error.
    pub fn calculate_offset(&self, other: &Scid) -> (r: Result<Scid, TransferError>)
        ensures
            self.dominates(*other) ==> r == Ok::<Scid, TransferError>(self.offset_from(*other)),
            !self.dominates(*other) ==> r == Err::<Scid, TransferError>(TransferError::Underflow),
    {
        if self.block_height >= other.block_height && self.tx_index >= other.tx_index
            && self.output_index >= other.output_index {
            Ok(
                Scid {
                    block_height: self.block_height - other.block_height,
                    tx_index: self.tx_index - other.tx_index,
                    output_index: self.output_index - other.output_index,
                },
            )
        } else {
            Err(TransferError::Underflow)
        }
    }

    /// The identifier that lies `offset` (a packed fieldwise difference) past `self`.
    pub fn from_offset(&self, offset: u64) -> (r: Scid)
        requires
            self.wf(),
            self.can_apply(offset),
        ensures
            r == self.applied(offset),
            r.wf(),
    {
        let h = (offset >> 40u64) & 0xFF_FFFFu64;
        let t = (offset >> 16u64) & 0xFF_FFFFu64;
        let o = offset & 0xFFFFu64;
        proof {
            lemma_unpack_bits(offset);
        }
        Scid {
            block_height: h as u32 + self.block_height,
            tx_index: t as u32 + self.tx_index,
            output_index: o as u16 + self.output_index,
        }
    }
}

/// The masks and shifts that read a packed value agree with [`unpack`].
proof fn lemma_unpack_bits(x: u64)
    ensures
        ((x >> 40u64) & 0xFF_FFFFu64) as int == unpack(x as int).0,
        ((x >> 16u64) & 0xFF_FFFFu64) as int == unpack(x as int).1,
        (x & 0xFFFFu64) as int == unpack(x as int).2,
{
    assert((x >> 40u64) & 0xFF_FFFFu64 == (x / 0x100_0000_0000u64) % 0x100_0000u64)
        by (bit_vector);
    assert((x >> 16u64) & 0xFF_FFFFu64 == (x / 0x1_0000u64) % 0x100_0000u64) by (bit_vector);
    assert(x & 0xFFFFu64 == x % 0x1_0000u64) by (bit_vector);
}

/// Packing three fields within their widths and unpacking the result gives
/// the fields back.
pub proof fn lemma_pack_round_trip(h: int, t: int, o: int)
    requires
        0 <= h < 0x100_0000,
        0 <= t < 0x100_0000,
        0 <= o < 0x1_0000,
    ensures
        unpack(pack(h, t, o)) == (h, t, o),
        0 <= pack(h, t, o) <= u64::MAX,
{
    let x = pack(h, t, o);
    assert(x / height_weight() == h && x / index_weight() == h * 0x100_0000 + t
        && x % index_weight() == o) by (nonlinear_arith)
        requires
            x == h * 0x100_0000_0000 + t * 0x1_0000 + o,
            0 <= h < 0x100_0000,
            0 <= t < 0x100_0000,
            0 <= o < 0x1_0000,
    ;
    assert((h * 0x100_0000 + t) % 0x100_0000 == t) by (nonlinear_arith)
        requires
            0 <= t < 0x100_0000,
            0 <= h,
    ;
}

/// Applying to `b` the packed offset of `a` from `b` gives `a` back, whenever
/// `a` dominates `b` fieldwise.
pub proof fn lemma_offset_identity(a: Scid, b: Scid)
    requires
        a.wf(),
        b.wf(),
        a.dominates(b),
    ensures
        a.offset_from(b).wf(),
        0 <= a.offset_from(b).packed() <= u64::MAX,
        b.can_apply(a.offset_from(b).packed() as u64),
        b.applied(a.offset_from(b).packed() as u64) == a,
{
    let d = a.offset_from(b);
    lemma_pack_round_trip(d.block_height as int, d.tx_index as int, d.output_index as int);
}

} // verus!
