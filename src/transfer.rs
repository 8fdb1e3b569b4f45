use vstd::prelude::*;

use crate::error::TransferError;
use crate::scid::Scid;
use crate::varint::{encode_varint, varint};

verus! {

/// Most bytes that the encoded scid field may take.
pub const SCID_FIELD_CAPACITY: usize = 8;

/// Most bytes that the encoded target-output field may take.
pub const TARGET_FIELD_CAPACITY: usize = 2;

/// Most bytes that the encoded amount field may take.
pub const AMOUNT_FIELD_CAPACITY: usize = 8;

/// One transfer instruction: `amount` units of the asset at `scid` move to
/// output `target_output` of the current transaction.
#[derive(Debug, Clone, Copy, PartialEq, Eq, Structural)]
pub struct AssetTransfer {
    pub scid: Scid,
    pub target_output: u16,
    pub amount: u64,
}

impl AssetTransfer {
    /// The scid is a valid identifier.
    pub open spec fn wf(self) -> bool {
        self.scid.wf()
    }

    /// The value carried by the scid field against `baseline`: the absolute
    /// packed identifier when it is the baseline, else the packed offset.
    pub open spec fn scid_value(self, baseline: Scid) -> Result<int, TransferError> {
        if self.scid == baseline {
            Ok(self.scid.packed())
        } else if self.scid.dominates(baseline) {
            Ok(self.scid.offset_from(baseline).packed())
        } else {
            Err(TransferError::Underflow)
        }
    }

    /// The three encoded fields when the scid field carries `scid_value`.
    pub open spec fn fields_for(self, scid_value: int) -> Result<
        (Seq<u8>, Seq<u8>, Seq<u8>),
        TransferError,
    > {
        let s = varint(scid_value as nat);
        let t = varint(self.target_output as nat);
        let a = varint(self.amount as nat);
        if s.len() <= SCID_FIELD_CAPACITY && t.len() <= TARGET_FIELD_CAPACITY && a.len()
            <= AMOUNT_FIELD_CAPACITY {
            Ok((s, t, a))
        } else {
            Err(TransferError::Capacity)
        }
    }

    /// The scid, target-output and amount fields of `self` encoded against `baseline`.
    pub open spec fn encoded(self, baseline: Scid) -> Result<
        (Seq<u8>, Seq<u8>, Seq<u8>),
        TransferError,
    > {
        match self.scid_value(baseline) {
            Ok(v) => self.fields_for(v),
            Err(e) => Err(e),
        }
    }

    /// A transfer of `amount` units of the asset at `scid` to output `target_output`.
    pub fn new(scid: Scid, target_output: u16, amount: u64) -> (r: AssetTransfer)
        ensures
            r == (AssetTransfer { scid, target_output, amount }),
    {
        AssetTransfer { scid, target_output, amount }
    }

    /// The varint-encoded scid, target-output and amount fields against
    /// `offset_scid`: the scid field carries the absolute packed scid when it
    /// is `offset_scid`, else its packed offset from `offset_scid`.
    pub fn encode_to_tuple(&self, offset_scid: &Scid) -> (r: Result<
        (Vec<u8>, Vec<u8>, Vec<u8>),
        TransferError,
    >)
        requires
            self.wf(),
            offset_scid.wf(),
        ensures
            match r {
                Ok((s, t, a)) => self.encoded(*offset_scid) == Ok::<
                    (Seq<u8>, Seq<u8>, Seq<u8>),
                    TransferError,
                >((s@, t@, a@)),
                Err(e) => self.encoded(*offset_scid) == Err::<
                    (Seq<u8>, Seq<u8>, Seq<u8>),
                    TransferError,
                >(e),
            },
    {
        let adjusted = if *offset_scid == self.scid {
            self.scid
        } else {
            match self.scid.calculate_offset(offset_scid) {
                Ok(d) => d,
                Err(e) => return Err(e),
            }
        };
        let scid_bytes = encode_varint(adjusted.to_u64());
        let target_output_bytes = encode_varint(self.target_output as u64);
        let amount_bytes = encode_varint(self.amount);
        if scid_bytes.len() <= SCID_FIELD_CAPACITY && target_output_bytes.len()
            <= TARGET_FIELD_CAPACITY && amount_bytes.len() <= AMOUNT_FIELD_CAPACITY {
            Ok((scid_bytes, target_output_bytes, amount_bytes))
        } else {
            Err(TransferError::Capacity)
        }
    }
}

/// A transfer whose scid is the baseline encodes the absolute packed
/// identifier in its scid field, not an offset of zero.
pub proof fn lemma_self_baseline(t: AssetTransfer)
    ensures
        t.scid_value(t.scid) == Ok::<int, TransferError>(t.scid.packed()),
        t.encoded(t.scid) == t.fields_for(t.scid.packed()),
{
}

} // verus!
