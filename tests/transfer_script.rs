use asset_transfer::{build_transfer_script, AssetTransfer, Scid, TransferError};
use integer_encoding::VarInt;

/// Splits the data pushes of a script made of direct pushes (length below 76).
fn direct_pushes(bytes: &[u8]) -> Vec<Vec<u8>> {
    let mut pushes = Vec::new();
    let mut i = 0;
    while i < bytes.len() {
        let n = bytes[i] as usize;
        assert!(n < 0x4c, "not a direct push at {}", i);
        pushes.push(bytes[i + 1..i + 1 + n].to_vec());
        i += 1 + n;
    }
    pushes
}

fn decode(bytes: &[u8]) -> u64 {
    let (v, n) = u64::decode_var(bytes).unwrap();
    assert_eq!(n, bytes.len());
    v
}

#[test]
fn test_transfer_script_building() {
    let scid = Scid::new(0, 0, 0).unwrap();
    let transfer = AssetTransfer::new(scid, 1, 500);
    let script = build_transfer_script(vec![transfer]).unwrap();
    println!("{:?}", script.as_script());
}

#[test]
fn single_transfer_decodes_back() {
    let scid = Scid::new(0, 0, 0).unwrap();
    let transfer = AssetTransfer::new(scid, 1, 500);
    let script = build_transfer_script(vec![transfer]).unwrap();
    let bytes = script.as_bytes();
    assert_eq!(bytes, &[0x6a, 0x01, b'R', 0x01, 0x00, 0x01, 0x01, 0x02, 0xf4, 0x03][..]);
    let pushes = direct_pushes(&bytes[1..]);
    assert_eq!(pushes.len(), 4);
    assert_eq!(pushes[0], b"R".to_vec());
    assert_eq!(decode(&pushes[1]), 0);
    assert_eq!(decode(&pushes[2]), 1);
    assert_eq!(decode(&pushes[3]), 500);
}

#[test]
fn largest_fields_are_accepted() {
    let s = Scid::new((1 << 24) - 1, (1 << 24) - 1, 65535).unwrap();
    assert_eq!(s.block_height, 0xFF_FFFF);
    assert_eq!(s.tx_index, 0xFF_FFFF);
    assert_eq!(s.output_index, 65535);
    assert_eq!(s.to_u64(), u64::MAX);
}

#[test]
fn too_wide_fields_are_refused() {
    assert_eq!(Scid::new(1 << 24, 0, 0), Err(TransferError::Construction));
    assert_eq!(Scid::new(0, 1 << 24, 0), Err(TransferError::Construction));
}

#[test]
fn packed_layout() {
    let s = Scid::new(1, 2, 3).unwrap();
    assert_eq!(s.to_u64(), 0x0000_0100_0002_0003);
    let s = Scid::new(0xAB_CDEF, 0x12_3456, 0x789A).unwrap();
    assert_eq!(s.to_u64(), 0xABCD_EF12_3456_789A);
}

#[test]
fn unpacking_round_trip() {
    let zero = Scid::new(0, 0, 0).unwrap();
    for (h, t, o) in [(0, 0, 0), (1, 2, 3), (0xFF_FFFF, 0, 0xFFFF), (12345, 0xFF_FFFF, 7)] {
        let s = Scid::new(h, t, o).unwrap();
        assert_eq!(zero.from_offset(s.to_u64()), s);
    }
}

#[test]
fn offset_then_apply_gives_back() {
    let a = Scid::new(500_000, 40, 9).unwrap();
    let b = Scid::new(499_990, 12, 2).unwrap();
    let d = a.calculate_offset(&b).unwrap();
    assert_eq!(d, Scid { block_height: 10, tx_index: 28, output_index: 7 });
    assert_eq!(b.from_offset(d.to_u64()), a);
}

#[test]
fn offset_underflow_is_an_error() {
    let a = Scid::new(10, 5, 0).unwrap();
    let b = Scid::new(9, 6, 0).unwrap();
    assert_eq!(a.calculate_offset(&b), Err(TransferError::Underflow));
    let c = Scid::new(10, 5, 1).unwrap();
    assert_eq!(a.calculate_offset(&c), Err(TransferError::Underflow));
}

#[test]
fn self_baseline_encodes_absolute_value() {
    let s = Scid::new(3, 4, 5).unwrap();
    let t = AssetTransfer::new(s, 2, 7);
    let (scid, target, amount) = t.encode_to_tuple(&s).unwrap();
    assert_eq!(scid, s.to_u64().encode_var_vec());
    assert_ne!(scid, vec![0]);
    assert_eq!(target, vec![2]);
    assert_eq!(amount, vec![7]);
}

#[test]
fn other_scid_encodes_the_offset() {
    let base = Scid::new(100, 10, 1).unwrap();
    let s = Scid::new(101, 10, 3).unwrap();
    let t = AssetTransfer::new(s, 300, 1 << 20);
    let (scid, target, amount) = t.encode_to_tuple(&base).unwrap();
    assert_eq!(decode(&scid), (1u64 << 40) | 2);
    assert_eq!(target, vec![0xac, 0x02]);
    assert_eq!(amount, vec![0x80, 0x80, 0x40]);
}

#[test]
fn encoding_below_baseline_is_an_underflow() {
    let base = Scid::new(100, 10, 1).unwrap();
    let s = Scid::new(99, 10, 1).unwrap();
    let t = AssetTransfer::new(s, 0, 0);
    assert_eq!(t.encode_to_tuple(&base), Err(TransferError::Underflow));
}

#[test]
fn fields_over_capacity_are_refused() {
    let s = Scid::new(0, 0, 0).unwrap();
    assert!(AssetTransfer::new(s, 16383, 0).encode_to_tuple(&s).is_ok());
    assert_eq!(
        AssetTransfer::new(s, 16384, 0).encode_to_tuple(&s),
        Err(TransferError::Capacity)
    );
    assert!(AssetTransfer::new(s, 0, (1 << 56) - 1).encode_to_tuple(&s).is_ok());
    assert_eq!(
        AssetTransfer::new(s, 0, 1 << 56).encode_to_tuple(&s),
        Err(TransferError::Capacity)
    );
    let high = Scid::new(0xFF_FFFF, 0, 0).unwrap();
    assert_eq!(
        AssetTransfer::new(high, 0, 0).encode_to_tuple(&high),
        Err(TransferError::Capacity)
    );
}

#[test]
fn empty_batch_is_marker_and_tag() {
    let script = build_transfer_script(vec![]).unwrap();
    assert_eq!(script.as_bytes(), &[0x6a, 0x01, b'R'][..]);
}

#[test]
fn two_transfers_keep_their_order() {
    let s1 = Scid::new(200, 5, 0).unwrap();
    let s2 = Scid::new(201, 5, 4).unwrap();
    let t1 = AssetTransfer::new(s1, 1, 10);
    let t2 = AssetTransfer::new(s2, 0, 20);
    let script = build_transfer_script(vec![t1, t2]).unwrap();
    let pushes = direct_pushes(&script.as_bytes()[1..]);
    assert_eq!(script.as_bytes()[0], 0x6a);
    assert_eq!(pushes.len(), 7);
    assert_eq!(pushes[0], b"R".to_vec());
    assert_eq!(decode(&pushes[1]), s1.to_u64());
    assert_eq!(decode(&pushes[2]), 1);
    assert_eq!(decode(&pushes[3]), 10);
    assert_eq!(decode(&pushes[4]), (1u64 << 40) | 4);
    assert_eq!(decode(&pushes[5]), 0);
    assert_eq!(decode(&pushes[6]), 20);
}

#[test]
fn baseline_is_the_first_transfer() {
    let s1 = Scid::new(201, 5, 4).unwrap();
    let s2 = Scid::new(200, 5, 0).unwrap();
    let t1 = AssetTransfer::new(s1, 1, 10);
    let t2 = AssetTransfer::new(s2, 0, 20);
    assert_eq!(build_transfer_script(vec![t1, t2]), Err(TransferError::Underflow));
}

#[test]
fn repeated_scid_encodes_absolute_value_each_time() {
    let s = Scid::new(7, 1, 0).unwrap();
    let t = AssetTransfer::new(s, 0, 1);
    let script = build_transfer_script(vec![t, t]).unwrap();
    let pushes = direct_pushes(&script.as_bytes()[1..]);
    assert_eq!(decode(&pushes[1]), s.to_u64());
    assert_eq!(decode(&pushes[4]), s.to_u64());
}
