use vstd::prelude::*;

verus! {

/// Why an encoding step failed.
#[derive(Debug, Clone, Copy, PartialEq, Eq, Structural)]
pub enum TransferError {
    /// A block height or transaction index does not fit in 24 bits.
    Construction,
    /// A field of the later identifier is smaller than the baseline's.
    Underflow,
    /// An encoded field does not fit its buffer or a data push.
    Capacity,
}

} // verus!
