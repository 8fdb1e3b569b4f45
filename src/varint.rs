use vstd::prelude::*;

verus! {

/// The base-128 varint of `v`: seven bits per byte, least significant group
/// first, the continuation bit set on every byte but the last.
pub open spec fn varint(v: nat) -> Seq<u8>
    decreases v,
{
    if v < 0x80 {
        seq![v as u8]
    } else {
        seq![(v % 0x80 + 0x80) as u8] + varint(v / 0x80)
    }
}

/// Relies on integer_encoding's `VarInt::encode_var_vec` for `u64`: it returns
/// exactly the bytes that `encode_var` writes, which are the base-128 varint
/// of the value.
#[verifier::external_body]
pub(crate) fn encode_varint(v: u64) -> (r: Vec<u8>)
    ensures
        r@ == varint(v as nat),
{
    integer_encoding::VarInt::encode_var_vec(v)
}

} // verus!
