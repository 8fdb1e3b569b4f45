use vstd::prelude::*;

use dogecoin::script::{PushBytes, ScriptBuf};

use crate::error::TransferError;
use crate::scid::Scid;
use crate::transfer::AssetTransfer;

verus! {

/// dogecoin's script type (bitcoin's `ScriptBuf`), held opaquely; what it
/// holds is stated through [`script_bytes`].
#[verifier::external_type_specification]
#[verifier::external_body]
pub struct ExScriptBuf(ScriptBuf);

/// The bytes that a script holds, in order.
pub uninterp spec fn script_bytes(s: ScriptBuf) -> Seq<u8>;

/// The data-carrier opcode (`OP_RETURN`) that opens a transfer script.
pub const DATA_MARKER_OPCODE: u8 = 0x6a;

/// The one-byte protocol tag pushed after the marker (ASCII `R`).
pub const TRANSFER_TAG: u8 = 0x52;

/// A data push as it stands in a script: the shortest of the direct,
/// `OP_PUSHDATA1`, `OP_PUSHDATA2` and `OP_PUSHDATA4` length prefixes (the
/// multi-byte lengths little-endian), then the data.
pub open spec fn push_encoding(d: Seq<u8>) -> Seq<u8> {
    let n = d.len();
    if n < 0x4c {
        seq![n as u8] + d
    } else if n < 0x100 {
        seq![0x4cu8, n as u8] + d
    } else if n < 0x1_0000 {
        seq![0x4du8, (n % 0x100) as u8, (n / 0x100) as u8] + d
    } else {
        seq![
            0x4eu8,
            (n % 0x100) as u8,
            ((n / 0x100) % 0x100) as u8,
            ((n / 0x1_0000) % 0x100) as u8,
            (n / 0x100_0000) as u8,
        ] + d
    }
}

/// Relies on `ScriptBuf::new` (bitcoin's, re-exported by dogecoin): an empty script.
#[verifier::external_body]
fn new_script() -> (r: ScriptBuf)
    ensures
        script_bytes(r) == Seq::<u8>::empty(),
{
    ScriptBuf::new()
}

/// Relies on `ScriptBuf::push_opcode`: it appends the opcode's byte.
#[verifier::external_body]
fn push_opcode(s: &mut ScriptBuf, op: u8)
    ensures
        script_bytes(*final(s)) == script_bytes(*old(s)).push(op),
{
    s.push_opcode(op.into())
}

/// Relies on `<&PushBytes>::try_from`, which accepts data shorter than 2^32
/// bytes, and on `ScriptBuf::push_slice`, which appends the length prefix and
/// the data.
#[verifier::external_body]
fn push_data(s: &mut ScriptBuf, data: &Vec<u8>) -> (r: Result<(), TransferError>)
    ensures
        data@.len() < 0x1_0000_0000 ==> r is Ok,
        data@.len() >= 0x1_0000_0000 ==> r matches Err(TransferError::Capacity),
        r is Ok ==> script_bytes(*final(s)) == script_bytes(*old(s)) + push_encoding(data@),
        r is Err ==> script_bytes(*final(s)) == script_bytes(*old(s)),
{
    let pushed: &PushBytes = match data.as_slice().try_into() {
        Ok(p) => p,
        Err(_) => return Err(TransferError::Capacity),
    };
    s.push_slice(pushed);
    Ok(())
}

/// What every transfer script starts with: the marker opcode and the pushed tag.
pub open spec fn script_header() -> Seq<u8> {
    seq![DATA_MARKER_OPCODE] + push_encoding(seq![TRANSFER_TAG])
}

/// The three pushes of one transfer's encoded fields, in field order.
pub open spec fn transfer_pushes(f: (Seq<u8>, Seq<u8>, Seq<u8>)) -> Seq<u8> {
    push_encoding(f.0) + push_encoding(f.1) + push_encoding(f.2)
}

/// The pushes of all transfers of `ts`, in order, each encoded against
/// `baseline`; the error of the first transfer that cannot be encoded.
pub open spec fn payload(ts: Seq<AssetTransfer>, baseline: Scid) -> Result<
    Seq<u8>,
    TransferError,
>
    decreases ts.len(),
{
    if ts.len() == 0 {
        Ok(Seq::empty())
    } else {
        match payload(ts.drop_last(), baseline) {
            Ok(p) => match ts.last().encoded(baseline) {
                Ok(f) => Ok(p + transfer_pushes(f)),
                Err(e) => Err(e),
            },
            Err(e) => Err(e),
        }
    }
}

/// The script of a batch: the header, then the pushes of every transfer
/// encoded against the first transfer's scid.
pub open spec fn transfer_script(ts: Seq<AssetTransfer>) -> Result<Seq<u8>, TransferError> {
    if ts.len() == 0 {
        Ok(script_header())
    } else {
        match payload(ts, ts[0].scid) {
            Ok(p) => Ok(script_header() + p),
            Err(e) => Err(e),
        }
    }
}

/// Once a prefix of a batch fails, the whole batch fails with the same error.
proof fn lemma_payload_error_persists(ts: Seq<AssetTransfer>, k: int, baseline: Scid)
    requires
        0 <= k <= ts.len(),
        payload(ts.take(k), baseline) is Err,
    ensures
        payload(ts, baseline) == payload(ts.take(k), baseline),
    decreases ts.len(),
{
    if k == ts.len() {
        assert(ts.take(k) =~= ts);
    } else {
        assert(ts.drop_last().take(k) =~= ts.take(k));
        lemma_payload_error_persists(ts.drop_last(), k, baseline);
    }
}

/// Assembles the transfer script of a batch: the marker opcode, the tag, and
/// for each transfer in order its scid, target-output and amount fields, the
/// scids encoded against the first transfer's scid.
pub fn build_transfer_script(transfers: Vec<AssetTransfer>) -> (r: Result<
    ScriptBuf,
    TransferError,
>)
    requires
        forall|i: int| 0 <= i < transfers@.len() ==> #[trigger] transfers@[i].wf(),
    ensures
        match r {
            Ok(s) => transfer_script(transfers@) == Ok::<Seq<u8>, TransferError>(
                script_bytes(s),
            ),
            Err(e) => transfer_script(transfers@) == Err::<Seq<u8>, TransferError>(e),
        },
{
    let mut script = new_script();
    push_opcode(&mut script, DATA_MARKER_OPCODE);
    let tag: Vec<u8> = vec![TRANSFER_TAG];
    match push_data(&mut script, &tag) {
        Ok(()) => {},
        Err(e) => return Err(e),
    }
    assert(script_bytes(script) =~= script_header());
    if transfers.len() == 0 {
        return Ok(script);
    }
    let baseline = transfers[0].scid;
    assert(transfers@[0].wf());
    let ghost mut done: Seq<u8> = Seq::empty();
    let mut i: usize = 0;
    while i < transfers.len()
        invariant
            0 <= i <= transfers@.len(),
            transfers@.len() > 0,
            baseline == transfers@[0].scid,
            baseline.wf(),
            forall|j: int| 0 <= j < transfers@.len() ==> #[trigger] transfers@[j].wf(),
            payload(transfers@.take(i as int), baseline) == Ok::<Seq<u8>, TransferError>(done),
            script_bytes(script) == script_header() + done,
        decreases transfers.len() - i,
    {
        let ghost prefix = transfers@.take(i as int + 1);
        assert(prefix.drop_last() =~= transfers@.take(i as int));
        let (s, t, a) = match transfers[i].encode_to_tuple(&baseline) {
            Ok(f) => f,
            Err(e) => {
                proof {
                    lemma_payload_error_persists(transfers@, i as int + 1, baseline);
                }
                return Err(e);
            },
        };
        match push_data(&mut script, &s) {
            Ok(()) => {},
            Err(e) => return Err(e),
        }
        match push_data(&mut script, &t) {
            Ok(()) => {},
            Err(e) => return Err(e),
        }
        match push_data(&mut script, &a) {
            Ok(()) => {},
            Err(e) => return Err(e),
        }
        proof {
            done = done + transfer_pushes((s@, t@, a@));
            assert(script_bytes(script) =~= script_header() + done);
        }
        i = i + 1;
    }
    assert(transfers@.take(transfers@.len() as int) =~= transfers@);
    Ok(script)
}


/// The script of an empty batch is the marker opcode and the pushed tag,
/// with no data pushes after them.
pub proof fn lemma_empty_batch()
    ensures
        transfer_script(Seq::<AssetTransfer>::empty()) == Ok::<Seq<u8>, TransferError>(
            seq![DATA_MARKER_OPCODE, 1u8, TRANSFER_TAG],
        ),
{
    assert(script_header() =~= seq![DATA_MARKER_OPCODE, 1u8, TRANSFER_TAG]);
}

/// The script of a batch of two transfers holds, after the header, the scid,
/// target-output and amount pushes of the first transfer and then those of
/// the second, both encoded against the first transfer's scid.
pub proof fn lemma_order_kept(t1: AssetTransfer, t2: AssetTransfer)
    ensures
        t1.encoded(t1.scid) is Ok && t2.encoded(t1.scid) is Ok ==> transfer_script(
            seq![t1, t2],
        ) == Ok::<Seq<u8>, TransferError>(
            script_header() + push_encoding(t1.encoded(t1.scid)->Ok_0.0) + push_encoding(
                t1.encoded(t1.scid)->Ok_0.1,
            ) + push_encoding(t1.encoded(t1.scid)->Ok_0.2) + push_encoding(
                t2.encoded(t1.scid)->Ok_0.0,
            ) + push_encoding(t2.encoded(t1.scid)->Ok_0.1) + push_encoding(
                t2.encoded(t1.scid)->Ok_0.2,
            ),
        ),
        !(t1.encoded(t1.scid) is Ok && t2.encoded(t1.scid) is Ok) ==> transfer_script(
            seq![t1, t2],
        ) is Err,
{
    let ts = seq![t1, t2];
    let b = t1.scid;
    assert(ts.drop_last() =~= seq![t1]);
    assert(seq![t1].drop_last() =~= Seq::<AssetTransfer>::empty());
    assert(ts[0] == t1 && ts.last() == t2 && seq![t1].last() == t1);
    assert(payload(Seq::<AssetTransfer>::empty(), b) == Ok::<Seq<u8>, TransferError>(
        Seq::empty(),
    ));
    assert(payload(seq![t1], b) == match t1.encoded(b) {
        Ok(f) => Ok(Seq::<u8>::empty() + transfer_pushes(f)),
        Err(e) => Err(e),
    });
    assert(payload(ts, b) == match payload(seq![t1], b) {
        Ok(p) => match t2.encoded(b) {
            Ok(f) => Ok(p + transfer_pushes(f)),
            Err(e) => Err(e),
        },
        Err(e) => Err(e),
    });
    if t1.encoded(t1.scid) is Ok && t2.encoded(t1.scid) is Ok {
        let f1 = t1.encoded(t1.scid)->Ok_0;
        let f2 = t2.encoded(t1.scid)->Ok_0;
        assert(payload(ts, t1.scid) == Ok::<Seq<u8>, TransferError>(
            Seq::<u8>::empty() + transfer_pushes(f1) + transfer_pushes(f2),
        ));
        assert(script_header() + (Seq::<u8>::empty() + transfer_pushes(f1) + transfer_pushes(f2))
            =~= script_header() + push_encoding(f1.0) + push_encoding(f1.1) + push_encoding(f1.2)
            + push_encoding(f2.0) + push_encoding(f2.1) + push_encoding(f2.2));
    }
}

} // verus!
