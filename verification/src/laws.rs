//! The bridge's laws: properties that relate several operations, stated
//! over the same relations the operations' own contracts use.

use vstd::prelude::*;

verus! {

use crate::bridge::DeviceEntry;
use crate::bridge::Event;
use crate::bridge::Info;
use crate::bridge::ListDevicesOutcome;
use crate::bridge::MyState;
use crate::bridge::UsbDevice;
use crate::bridge::admitted_entries;
use crate::bridge::spec_admitted;
use crate::bridge::spec_awaited;
use crate::bridge::spec_enumerated;
use crate::bridge::spec_polled;
use crate::bridge::spec_submitted;
use crate::transfer::Completion;
use crate::transfer::TransferContext;
use crate::transfer::TransferType;
use crate::transfer::spec_decode;
use crate::transfer::spec_is_in;
use crate::errors::LibusbError;

/// A submission is observed by at most one await: awaiting an in-flight
/// transfer removes its record, after which no state can await that handle
/// again. Together with the in-flight context being consumed exactly once
/// by completion, every submission delivers at most one outcome to the
/// guest.
pub proof fn lemma_await_consumes_transfer(pre: MyState, post: MyState, t: u32)
    requires
        spec_awaited(pre, post, t),
    ensures
        !post.transfers.contains(t),
        forall|later: MyState| !spec_awaited(post, later, t),
{
}

/// At most one submission is in flight per transfer record: once submitted,
/// the record holds the rendezvous receiver, and a second submission from
/// that state is impossible (it fails `Busy`).
pub proof fn lemma_single_submission(
    pre: MyState,
    post: MyState,
    t: u32,
    data: Seq<u8>,
    ctx: TransferContext,
)
    requires
        spec_submitted(pre, post, t, data, ctx),
    ensures
        forall|later: MyState, data2: Seq<u8>, ctx2: TransferContext|
            !spec_submitted(post, later, t, data2, ctx2),
{
}

/// Enumeration admits exactly the devices the policy allows: every
/// returned entry is admitted, every admitted snapshot entry is returned,
/// and every skipped entry's native reference is handed back for release.
pub proof fn lemma_enumeration_admits_exactly(
    pre: MyState,
    post: MyState,
    entries: Seq<DeviceEntry>,
    out: ListDevicesOutcome,
)
    requires
        spec_enumerated(pre, post, entries, out),
    ensures
        forall|k: int|
            0 <= k < out.devices@.len() ==> spec_admitted(
                pre.allowed_usbdevices,
                #[trigger] admitted_entries(pre.allowed_usbdevices, entries)[k],
            ),
        forall|j: int|
            0 <= j < entries.len() && spec_admitted(pre.allowed_usbdevices, #[trigger] entries[j])
                ==> admitted_entries(pre.allowed_usbdevices, entries).contains(entries[j]),
        forall|j: int|
            0 <= j < entries.len() && !spec_admitted(pre.allowed_usbdevices, #[trigger] entries[j])
                ==> out.released@.contains(entries[j].native),
{
    let policy = pre.allowed_usbdevices;
    let admitted_pred = |e: DeviceEntry| spec_admitted(policy, e);
    let rejected_pred = |e: DeviceEntry| !spec_admitted(policy, e);
    assert forall|k: int|
        0 <= k < out.devices@.len() implies spec_admitted(
        policy,
        #[trigger] admitted_entries(policy, entries)[k],
    ) by {
        entries.lemma_filter_pred(admitted_pred, k);
    }
    assert forall|j: int|
        0 <= j < entries.len() && spec_admitted(policy, #[trigger] entries[j]) implies
        admitted_entries(policy, entries).contains(entries[j]) by {
        entries.lemma_filter_contains(admitted_pred, j);
    }
    assert forall|j: int|
        0 <= j < entries.len() && !spec_admitted(policy, #[trigger] entries[j]) implies out
        .released@.contains(entries[j].native) by {
        entries.lemma_filter_contains(rejected_pred, j);
        let rejected = entries.filter(rejected_pred);
        let i = choose|i: int| 0 <= i < rejected.len() && rejected[i] == entries[j];
        assert(out.released@[i] == entries[j].native);
    }
}

/// The loop-back round trip: an OUT submission of `data` on a bulk
/// endpoint fills the in-flight buffer with exactly `data`; a device that
/// echoes that buffer back on a device-to-host endpoint, completing with
/// `data`'s length, decodes to exactly `data`.
pub proof fn lemma_out_in_round_trip(
    pre: MyState,
    post: MyState,
    t: u32,
    data: Seq<u8>,
    ctx: TransferContext,
    completion: Completion,
    in_endpoint: u8,
)
    requires
        spec_submitted(pre, post, t, data, ctx),
        pre.transfers.at(t).kind is Bulk,
        !spec_is_in(
            pre.transfers.at(t).kind,
            pre.transfers.at(t).setup().bm_request_type,
            pre.transfers.at(t).endpoint,
        ),
        completion.status == 0,
        completion.iso_packet_actual_lengths@.len() == 0,
        completion.actual_length == data.len(),
        in_endpoint & 0x80 != 0,
    ensures
        spec_decode(TransferType::Bulk, in_endpoint, ctx.setup.bm_request_type, completion,
            ctx.buffer@) == Ok::<Seq<u8>, LibusbError>(data),
{
    assert(ctx.buffer@ == data);
    if completion.actual_length > 0 {
        assert(ctx.buffer@.take(completion.actual_length as int) =~= data);
    } else {
        assert(data =~= Seq::<u8>::empty());
    }
}

/// Concurrent submissions cannot contaminate one another: each in-flight
/// context owns a buffer holding exactly its own submission's bytes, so
/// whatever order completions arrive in, every await can only ever see its
/// own transfer's payload. (The completion order itself is the backend's
/// alone; the bridge imposes none.)
pub proof fn lemma_no_payload_contamination(
    pre: MyState,
    mid: MyState,
    post: MyState,
    t1: u32,
    t2: u32,
    d1: Seq<u8>,
    d2: Seq<u8>,
    c1: TransferContext,
    c2: TransferContext,
)
    requires
        spec_submitted(pre, mid, t1, d1, c1),
        spec_submitted(mid, post, t2, d2, c2),
        !(pre.transfers.at(t1).kind is Control),
        !spec_is_in(
            pre.transfers.at(t1).kind,
            pre.transfers.at(t1).setup().bm_request_type,
            pre.transfers.at(t1).endpoint,
        ),
        !(mid.transfers.at(t2).kind is Control),
        !spec_is_in(
            mid.transfers.at(t2).kind,
            mid.transfers.at(t2).setup().bm_request_type,
            mid.transfers.at(t2).endpoint,
        ),
    ensures
        c1.buffer@ == d1,
        c2.buffer@ == d2,
{
}

/// A successful control IN completion returns exactly `actual_length`
/// bytes starting at offset 8 of the transfer buffer — the payload after
/// the setup header, never the header itself.
pub proof fn lemma_control_in_payload(
    endpoint: u8,
    bm_request_type: u8,
    completion: Completion,
    buffer: Seq<u8>,
)
    requires
        completion.status == 0,
        completion.iso_packet_actual_lengths@.len() == 0,
        bm_request_type & 0x80 != 0,
        8 + completion.actual_length <= buffer.len(),
    ensures
        spec_decode(TransferType::Control, endpoint, bm_request_type, completion, buffer) == Ok::<
            Seq<u8>,
            LibusbError,
        >(buffer.subrange(8, 8 + completion.actual_length)),
{
    if completion.actual_length == 0 {
        assert(buffer.subrange(8, 8) =~= Seq::<u8>::empty());
    }
}

/// Hot-plug is first-in, first-out: two events enqueued in order are
/// delivered by the next poll in that order, after everything already
/// queued, with nothing dropped and nothing duplicated.
pub proof fn lemma_hotplug_fifo(
    s0: MyState,
    s1: MyState,
    s2: MyState,
    s3: MyState,
    x1: (Event, Info, UsbDevice),
    x2: (Event, Info, UsbDevice),
    out: Seq<(Event, Info, u32)>,
)
    requires
        s1.hotplug_queue@ == s0.hotplug_queue@.push(x1),
        s2.hotplug_queue@ == s1.hotplug_queue@.push(x2),
        spec_polled(s2, s3, out),
    ensures
        out.len() == s0.hotplug_queue@.len() + 2,
        forall|k: int|
            0 <= k < s0.hotplug_queue@.len() ==> (#[trigger] out[k]).0 == s0.hotplug_queue@[k].0
                && out[k].1 == s0.hotplug_queue@[k].1,
        out[s0.hotplug_queue@.len() as int].0 == x1.0,
        out[s0.hotplug_queue@.len() as int].1 == x1.1,
        out[s0.hotplug_queue@.len() as int + 1].0 == x2.0,
        out[s0.hotplug_queue@.len() as int + 1].1 == x2.1,
        forall|k1: int, k2: int|
            0 <= k1 < k2 < out.len() ==> (#[trigger] out[k1]).2 != (#[trigger] out[k2]).2,
{
    let n = s0.hotplug_queue@.len() as int;
    assert(s2.hotplug_queue@[n] == x1);
    assert(s2.hotplug_queue@[n + 1] == x2);
}

} // verus!
