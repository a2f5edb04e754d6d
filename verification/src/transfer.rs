//! The asynchronous transfer engine's data and decisions.
//!
//! Everything the engine computes is here: the native buffer size for each
//! transfer type, the little-endian packing of the 8-byte control setup, the
//! distribution of an isochronous buffer over its packets, the direction
//! rule, and the decoding of a native completion into the payload or error
//! the guest receives. The bridge state machine in `bridge` drives these;
//! the event pump shim hands completions to `complete_transfer`.

use vstd::prelude::*;

verus! {

use std::sync::Arc;
use std::sync::atomic::AtomicBool;
use std::sync::atomic::Ordering;
use crate::errors::LibusbError;
use crate::rendezvous::TransferOutcome;
use crate::rendezvous::outcome_send;

/// The four USB transfer types.
#[derive(Clone, Copy, Debug, PartialEq, Eq, Structural)]
pub enum TransferType {
    Control,
    Bulk,
    Interrupt,
    Isochronous,
}

/// The 8-byte control setup, before the length field is appended.
#[derive(Clone, Copy, Debug, PartialEq, Eq, Structural)]
pub struct TransferSetup {
    pub bm_request_type: u8,
    pub b_request: u8,
    pub w_value: u16,
    pub w_index: u16,
}

/// Per-transfer options fixed at allocation.
#[derive(Clone, Copy, Debug, PartialEq, Eq, Structural)]
pub struct TransferOptions {
    pub endpoint: u8,
    pub timeout_ms: u32,
    pub stream_id: u32,
    pub iso_packets: u32,
}

/// A configuration choice for `set_configuration`.
#[derive(Clone, Copy, Debug, PartialEq, Eq, Structural)]
pub enum ConfigValue {
    Value(u8),
    Unconfigured,
}

/// The native configuration code for a configuration choice.
pub open spec fn spec_config_code(config: ConfigValue) -> i32 {
    match config {
        ConfigValue::Value(v) => v as i32,
        ConfigValue::Unconfigured => 0,
    }
}

/// The code handed to the native `set_configuration` call.
pub fn config_code(config: ConfigValue) -> (r: i32)
    ensures
        r == spec_config_code(config),
{
    match config {
        ConfigValue::Value(v) => v as i32,
        ConfigValue::Unconfigured => 0,
    }
}

/// The native buffer length for a transfer: the payload length, preceded by
/// the 8-byte setup for control transfers.
pub open spec fn spec_total_len(kind: TransferType, buf_size: u32) -> int {
    if kind is Control {
        buf_size + 8
    } else {
        buf_size as int
    }
}

/// The 8 setup bytes as they are written into a control buffer:
/// little-endian, with the payload length appended as a 16-bit value.
pub open spec fn setup_bytes(setup: TransferSetup, length: u32) -> Seq<u8> {
    seq![
        setup.bm_request_type,
        setup.b_request,
        (setup.w_value & 0xFF) as u8,
        (setup.w_value >> 8) as u8,
        (setup.w_index & 0xFF) as u8,
        (setup.w_index >> 8) as u8,
        (length & 0xFF) as u8,
        ((length >> 8) & 0xFF) as u8,
    ]
}

/// Whether the transfer moves data device-to-host: the high bit of the
/// stored `bm_request_type` for control transfers, the high bit of the
/// endpoint address otherwise.
pub open spec fn spec_is_in(kind: TransferType, bm_request_type: u8, endpoint: u8) -> bool {
    if kind is Control {
        bm_request_type & 0x80 != 0
    } else {
        endpoint & 0x80 != 0
    }
}

/// Decide the transfer's direction.
pub fn is_in_direction(kind: TransferType, bm_request_type: u8, endpoint: u8) -> (r: bool)
    ensures
        r == spec_is_in(kind, bm_request_type, endpoint),
{
    match kind {
        TransferType::Control => bm_request_type & 0x80 != 0,
        _ => endpoint & 0x80 != 0,
    }
}

/// The sum of a sequence of packet lengths.
pub open spec fn len_sum(s: Seq<u32>) -> int
    decreases s.len(),
{
    if s.len() == 0 {
        0
    } else {
        s[0] + len_sum(s.drop_first())
    }
}

/// A packet-length sum is never negative.
pub proof fn lemma_len_sum_nonneg(s: Seq<u32>)
    ensures
        len_sum(s) >= 0,
    decreases s.len(),
{
    if s.len() > 0 {
        lemma_len_sum_nonneg(s.drop_first());
    }
}

/// Appending one length adds it to the sum.
pub proof fn lemma_len_sum_push(s: Seq<u32>, x: u32)
    ensures
        len_sum(s.push(x)) == len_sum(s) + x,
    decreases s.len(),
{
    assert(len_sum(s.push(x)) == s.push(x)[0] + len_sum(s.push(x).drop_first()));
    if s.len() == 0 {
        assert(s.push(x)[0] == x);
        assert(s.push(x).drop_first() =~= Seq::<u32>::empty());
        assert(len_sum(Seq::<u32>::empty()) == 0);
    } else {
        assert(s.push(x)[0] == s[0]);
        assert(s.push(x).drop_first() =~= s.drop_first().push(x));
        lemma_len_sum_push(s.drop_first(), x);
        assert(len_sum(s) == s[0] + len_sum(s.drop_first()));
    }
}

/// Walking one element forward moves it out of the remaining sum.
pub proof fn lemma_len_sum_skip(s: Seq<u32>, i: int)
    requires
        0 <= i < s.len(),
    ensures
        len_sum(s.skip(i)) == s[i] + len_sum(s.skip(i + 1)),
{
    assert(s.skip(i).drop_first() =~= s.skip(i + 1));
    assert(s.skip(i)[0] == s[i]);
}

/// How an isochronous buffer is distributed: every packet receives
/// `buf_size / n`, and the last packet absorbs the remainder.
pub open spec fn spec_iso_lengths(buf_size: u32, n: u32) -> Seq<u32>
    recommends
        n > 0,
{
    Seq::new(
        n as nat,
        |i: int|
            if i == n - 1 {
                ((buf_size / n) + (buf_size % n)) as u32
            } else {
                buf_size / n
            },
    )
}

/// The distributed packet lengths add up to exactly the buffer size.
pub proof fn lemma_iso_lengths_sum(buf_size: u32, n: u32)
    requires
        n > 0,
    ensures
        len_sum(spec_iso_lengths(buf_size, n)) == buf_size,
{
    let base = buf_size / n;
    let rem = buf_size % n;
    let s = spec_iso_lengths(buf_size, n);
    lemma_const_len_sum(base, (n - 1) as nat);
    assert(base + rem <= buf_size) by (nonlinear_arith)
        requires
            n > 0 && base == buf_size / n && rem == buf_size % n,
    ;
    let body = Seq::new((n - 1) as nat, |i: int| base);
    assert(s =~= body.push((base + rem) as u32));
    lemma_len_sum_push(body, (base + rem) as u32);
    assert((n - 1) * (base as int) + base == n * (base as int)) by (nonlinear_arith)
        requires
            n >= 1,
    ;
    assert(n * (buf_size / n) + buf_size % n == buf_size) by (nonlinear_arith)
        requires
            n > 0,
    ;
}

/// The sum of a constant sequence.
proof fn lemma_const_len_sum(q: u32, k: nat)
    ensures
        len_sum(Seq::new(k, |i: int| q)) == k * q,
    decreases k,
{
    if k > 0 {
        lemma_const_len_sum(q, (k - 1) as nat);
        let s = Seq::new(k, |i: int| q);
        assert(s.drop_first() =~= Seq::new((k - 1) as nat, |i: int| q));
        assert((k as int) * q == (k as int - 1) * q + q) by (nonlinear_arith);
    } else {
        assert(Seq::new(0, |i: int| q).len() == 0);
    }
}

/// Compute the isochronous packet lengths for a buffer.
pub fn iso_packet_lengths(buf_size: u32, n: u32) -> (r: Vec<u32>)
    requires
        n > 0,
    ensures
        r@ == spec_iso_lengths(buf_size, n),
        len_sum(r@) == buf_size,
{
    let base = buf_size / n;
    let rem = buf_size % n;
    proof {
        assert(base + rem <= buf_size) by (nonlinear_arith)
            requires
                n > 0 && base == buf_size / n && rem == buf_size % n,
        ;
    }
    let mut r: Vec<u32> = Vec::new();
    let mut i: u32 = 0;
    while i < n - 1
        invariant
            n > 0,
            i <= n - 1,
            r@ =~= Seq::new(i as nat, |k: int| base),
        decreases n - 1 - i,
    {
        r.push(base);
        proof {
            assert(r@ =~= Seq::new((i + 1) as nat, |k: int| base));
        }
        i += 1;
    }
    r.push(base + rem);
    proof {
        assert(r@ =~= spec_iso_lengths(buf_size, n));
        lemma_iso_lengths_sum(buf_size, n);
    }
    r
}

/// The error a failed native completion status maps to. Status codes follow
/// the native transfer-status enumeration; zero is success and never reaches
/// this map.
pub open spec fn spec_status_error(status: i32) -> LibusbError {
    if status == 2 {
        LibusbError::Timeout
    } else if status == 3 {
        LibusbError::Interrupted
    } else if status == 4 {
        LibusbError::Pipe
    } else if status == 5 {
        LibusbError::NoDevice
    } else if status == 6 {
        LibusbError::Overflow
    } else if status == 1 {
        LibusbError::Io
    } else {
        LibusbError::Other
    }
}

/// What the completion callback reports for one finished transfer.
#[derive(Clone, Debug)]
pub struct Completion {
    /// The native completion status; zero is success.
    pub status: i32,
    /// How many payload bytes the device actually moved.
    pub actual_length: u32,
    /// Per-packet actual lengths; non-empty only for isochronous transfers.
    pub iso_packet_actual_lengths: Vec<u32>,
}

/// The payload or error a completion decodes to, over the buffer the
/// backend filled. Isochronous transfers (any with packets) return the
/// summed packet payload from the buffer's start; control transfers return
/// `actual_length` bytes after the 8-byte setup when the stored direction is
/// device-to-host; bulk and interrupt transfers return `actual_length` bytes
/// from the start when the endpoint address marks a device-to-host endpoint.
/// Host-to-device completions return an empty payload.
pub open spec fn spec_decode(
    kind: TransferType,
    endpoint: u8,
    bm_request_type: u8,
    completion: Completion,
    buffer: Seq<u8>,
) -> Result<Seq<u8>, LibusbError> {
    if completion.status != 0 {
        Err(spec_status_error(completion.status))
    } else if completion.iso_packet_actual_lengths@.len() > 0 {
        let total = len_sum(completion.iso_packet_actual_lengths@);
        if total > 0 {
            Ok(buffer.take(total))
        } else {
            Ok(Seq::empty())
        }
    } else if kind is Control {
        if bm_request_type & 0x80 != 0 && completion.actual_length > 0 {
            Ok(buffer.subrange(8, 8 + completion.actual_length))
        } else {
            Ok(Seq::empty())
        }
    } else {
        if endpoint & 0x80 != 0 && completion.actual_length > 0 {
            Ok(buffer.take(completion.actual_length as int))
        } else {
            Ok(Seq::empty())
        }
    }
}

/// The bounds a successful completion report must respect: everything it
/// claims was written fits inside the transfer's buffer.
pub open spec fn completion_in_bounds(
    kind: TransferType,
    endpoint: u8,
    bm_request_type: u8,
    completion: Completion,
    buffer: Seq<u8>,
) -> bool {
    completion.status == 0 ==> {
        &&& len_sum(completion.iso_packet_actual_lengths@) <= buffer.len()
        &&& (completion.iso_packet_actual_lengths@.len() == 0 && kind is Control
            && bm_request_type & 0x80 != 0 && completion.actual_length > 0 ==> 8
            + completion.actual_length <= buffer.len())
        &&& (completion.iso_packet_actual_lengths@.len() == 0 && !(kind is Control) && endpoint
            & 0x80 != 0 && completion.actual_length > 0 ==> completion.actual_length
            <= buffer.len())
    }
}

/// Decode one native completion into the payload or error the guest
/// receives.
pub fn decode_completion(
    kind: TransferType,
    endpoint: u8,
    bm_request_type: u8,
    completion: &Completion,
    buffer: &Vec<u8>,
) -> (r: Result<Vec<u8>, LibusbError>)
    requires
        completion_in_bounds(kind, endpoint, bm_request_type, *completion, buffer@),
    ensures
        match (r, spec_decode(kind, endpoint, bm_request_type, *completion, buffer@)) {
            (Ok(v), Ok(s)) => v@ == s,
            (Err(e), Err(f)) => e == f,
            _ => false,
        },
{
    if completion.status != 0 {
        let e = match completion.status {
            2 => LibusbError::Timeout,
            3 => LibusbError::Interrupted,
            4 => LibusbError::Pipe,
            5 => LibusbError::NoDevice,
            6 => LibusbError::Overflow,
            1 => LibusbError::Io,
            _ => LibusbError::Other,
        };
        return Err(e);
    }
    let buffer_len = buffer.len();
    if completion.iso_packet_actual_lengths.len() > 0 {
        proof {
            lemma_len_sum_nonneg(completion.iso_packet_actual_lengths@);
        }
        let total = sum_lengths(&completion.iso_packet_actual_lengths);
        if total > 0 {
            Ok(copy_range(buffer, 0, total as usize))
        } else {
            Ok(Vec::new())
        }
    } else if matches!(kind, TransferType::Control) {
        if bm_request_type & 0x80 != 0 && completion.actual_length > 0 {
            assert(8 + completion.actual_length <= buffer_len);
            Ok(copy_range(buffer, 8, 8 + completion.actual_length as usize))
        } else {
            Ok(Vec::new())
        }
    } else {
        if endpoint & 0x80 != 0 && completion.actual_length > 0 {
            assert(completion.actual_length <= buffer_len);
            Ok(copy_range(buffer, 0, completion.actual_length as usize))
        } else {
            Ok(Vec::new())
        }
    }
}

/// Sum the per-packet actual lengths.
fn sum_lengths(lengths: &Vec<u32>) -> (r: u64)
    requires
        len_sum(lengths@) <= usize::MAX,
    ensures
        r == len_sum(lengths@),
{
    proof {
        lemma_len_sum_nonneg(lengths@);
        assert(lengths@.skip(0) =~= lengths@);
    }
    let mut acc: u64 = 0;
    let mut i: usize = 0;
    while i < lengths.len()
        invariant
            i <= lengths@.len(),
            len_sum(lengths@) <= usize::MAX,
            acc + len_sum(lengths@.skip(i as int)) == len_sum(lengths@),
            acc >= 0,
        decreases lengths@.len() - i,
    {
        proof {
            lemma_len_sum_skip(lengths@, i as int);
            lemma_len_sum_nonneg(lengths@.skip(i as int + 1));
        }
        acc = acc + lengths[i] as u64;
        i += 1;
    }
    proof {
        assert(lengths@.skip(lengths@.len() as int) =~= Seq::<u32>::empty());
    }
    acc
}

/// Copy `src[from..to]` into an owned buffer.
fn copy_range(src: &Vec<u8>, from: usize, to: usize) -> (r: Vec<u8>)
    requires
        from <= to <= src@.len(),
    ensures
        r@ == src@.subrange(from as int, to as int),
{
    let mut r: Vec<u8> = Vec::new();
    let mut i: usize = from;
    while i < to
        invariant
            from <= i <= to <= src@.len(),
            r@ =~= src@.subrange(from as int, i as int),
        decreases to - i,
    {
        r.push(src[i]);
        proof {
            assert(r@ =~= src@.subrange(from as int, i as int + 1));
        }
        i += 1;
    }
    r
}

/// Resolve what the rendezvous handed the awaiter: the outcome the
/// completion sent, unchanged, or `Interrupted` when the sending half
/// vanished without ever sending.
pub fn resolve_rendezvous(received: Option<TransferOutcome>) -> (r: Result<Vec<u8>, LibusbError>)
    ensures
        received matches Some(outcome) ==> r == outcome,
        received is None ==> r == Err::<Vec<u8>, LibusbError>(LibusbError::Interrupted),
{
    match received {
        Some(outcome) => outcome,
        None => Err(LibusbError::Interrupted),
    }
}

/// The in-flight half of a submitted transfer: sole owner of the buffer
/// while the backend holds it, carrier of the rendezvous sender and the
/// shared completion flag. Produced by submission, consumed exactly once by
/// `complete_transfer` (or dismantled by an aborted submission).
pub struct TransferContext {
    /// The sending half of the transfer's rendezvous.
    pub sender: tokio::sync::oneshot::Sender<TransferOutcome>,
    /// Shared with the transfer record; set once by completion.
    pub completed: Arc<AtomicBool>,
    /// The native transfer buffer, owned here while in flight.
    pub buffer: Vec<u8>,
    /// The transfer's type, for completion decoding.
    pub kind: TransferType,
    /// The endpoint address, for the direction of non-control transfers.
    pub endpoint: u8,
    /// The stored setup, for the direction of control transfers.
    pub setup: TransferSetup,
}

/// Consume one completion on the event pump thread: decode the status and
/// payload, mark the transfer completed, send the outcome through the
/// rendezvous (a lost send means the awaiter is gone and is ignored), and
/// release the buffer. The outcome sent is exactly what `spec_decode` states
/// for the context's buffer and the given report.
pub fn complete_transfer(ctx: TransferContext, completion: &Completion)
    requires
        completion_in_bounds(ctx.kind, ctx.endpoint, ctx.setup.bm_request_type, *completion,
            ctx.buffer@),
{
    let TransferContext { sender, completed, buffer, kind, endpoint, setup } = ctx;
    let outcome = decode_completion(kind, endpoint, setup.bm_request_type, completion, &buffer);
    completed.store(true, Ordering::SeqCst);
    let _ = outcome_send(sender, outcome);
}

} // verus!
