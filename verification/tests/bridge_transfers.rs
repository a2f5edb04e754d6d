use usb_bridge::complete_transfer;
use usb_bridge::AllowedUSBDevices;
use usb_bridge::Completion;
use usb_bridge::DeviceDescriptor;
use usb_bridge::DeviceEntry;
use usb_bridge::LibusbError;
use usb_bridge::MyState;
use usb_bridge::TransferContext;
use usb_bridge::TransferOptions;
use usb_bridge::TransferSetup;
use usb_bridge::TransferType;

fn entry(native: u64, vendor_id: u16, product_id: u16) -> DeviceEntry {
    DeviceEntry {
        native,
        descriptor: Some(DeviceDescriptor {
            length: 18,
            descriptor_type: 1,
            usb_version_bcd: 0x0200,
            device_class: 0,
            device_subclass: 0,
            device_protocol: 0,
            max_packet_size0: 64,
            vendor_id,
            product_id,
            device_version_bcd: 0x0100,
            manufacturer_index: 1,
            product_index: 2,
            serial_number_index: 3,
            num_configurations: 1,
        }),
        bus_number: 1,
        device_address: 7,
        port_number: 4,
        speed_raw: 3,
    }
}

/// A bridge with one opened device handle.
fn opened_bridge() -> (MyState, u32) {
    let mut st = MyState::new(AllowedUSBDevices::Denied(vec![]));
    st.init(0).unwrap();
    let out = st.list_devices(Ok(vec![entry(10, 0x0951, 0x1666)])).unwrap();
    let device = out.devices[0].0;
    let handle = st.open(device, Ok(700)).unwrap();
    (st, handle)
}

fn no_setup() -> TransferSetup {
    TransferSetup {
        bm_request_type: 0,
        b_request: 0,
        w_value: 0,
        w_index: 0,
    }
}

fn opts(endpoint: u8) -> TransferOptions {
    TransferOptions {
        endpoint,
        timeout_ms: 1000,
        stream_id: 0,
        iso_packets: 0,
    }
}

fn success(actual_length: u32) -> Completion {
    Completion {
        status: 0,
        actual_length,
        iso_packet_actual_lengths: vec![],
    }
}

fn failure(status: i32) -> Completion {
    Completion {
        status,
        actual_length: 0,
        iso_packet_actual_lengths: vec![],
    }
}

/// Counts native transfer objects like a backend would: one allocation per
/// accepted `new_transfer`, one free when the completion callback runs (or
/// when a never-submitted transfer is dropped and its object reclaimed).
struct MockCounter {
    allocs: usize,
    frees: usize,
}

impl MockCounter {
    fn new() -> MockCounter {
        MockCounter { allocs: 0, frees: 0 }
    }

    fn complete(&mut self, ctx: TransferContext, completion: &Completion) {
        complete_transfer(ctx, completion);
        self.frees += 1;
    }
}

#[test]
fn new_transfer_without_native_allocation_fails_nomem() {
    let (mut st, h) = opened_bridge();
    let r = st.new_transfer(h, TransferType::Bulk, no_setup(), 8, opts(0x02), false);
    assert!(matches!(r, Err(LibusbError::NoMem)));
}

#[test]
fn control_buffer_carries_little_endian_setup() {
    let (mut st, h) = opened_bridge();
    let setup = TransferSetup {
        bm_request_type: 0x80,
        b_request: 0x06,
        w_value: 0x0100,
        w_index: 0x1234,
    };
    let t = st
        .new_transfer(h, TransferType::Control, setup, 18, opts(0), true)
        .unwrap();
    let rec = st.transfers.get(t);
    let buffer = rec.buffer.as_ref().unwrap();
    assert_eq!(buffer.len(), 26);
    assert_eq!(
        &buffer[0..8],
        &[0x80, 0x06, 0x00, 0x01, 0x34, 0x12, 18, 0]
    );
    assert!(buffer[8..].iter().all(|b| *b == 0));
    assert_eq!(rec.buf_len, 18);
}

#[test]
fn control_in_returns_payload_after_setup_header() {
    // GET_DESCRIPTOR(Device) with buf_size = 18: submit empty data, the
    // device fills 18 bytes after the header, await returns exactly them.
    let (mut st, h) = opened_bridge();
    let setup = TransferSetup {
        bm_request_type: 0x80,
        b_request: 0x06,
        w_value: 0x0100,
        w_index: 0,
    };
    let t = st
        .new_transfer(h, TransferType::Control, setup, 18, opts(0), true)
        .unwrap();
    let mut ctx = st.submit_transfer(t, vec![]).unwrap();
    // The device writes the descriptor into the data stage (offset 8).
    let descriptor: [u8; 18] = [
        18, 0x01, 0x00, 0x02, 0, 0, 0, 64, 0x51, 0x09, 0x66, 0x16, 0x00, 0x01, 1, 2, 3, 1,
    ];
    ctx.buffer[8..26].copy_from_slice(&descriptor);
    complete_transfer(ctx, &success(18));
    let data = st.await_transfer(t).unwrap();
    assert_eq!(data.len(), 18);
    assert_eq!(data[1], 0x01);
    // Bytes 8..10 encode the vendor id little-endian.
    assert_eq!(u16::from_le_bytes([data[8], data[9]]), 0x0951);
    assert_eq!(data, descriptor.to_vec());
    assert!(!st.transfers.has(t));
}

#[test]
fn control_out_copies_data_into_payload_region() {
    let (mut st, h) = opened_bridge();
    let setup = TransferSetup {
        bm_request_type: 0x00,
        b_request: 0x09,
        w_value: 1,
        w_index: 0,
    };
    let t = st
        .new_transfer(h, TransferType::Control, setup, 4, opts(0), true)
        .unwrap();
    let ctx = st.submit_transfer(t, vec![9, 8, 7, 6]).unwrap();
    assert_eq!(&ctx.buffer[0..2], &[0x00, 0x09]);
    assert_eq!(&ctx.buffer[8..12], &[9, 8, 7, 6]);
    complete_transfer(ctx, &success(4));
    // A host-to-device completion carries no payload back.
    let data = st.await_transfer(t).unwrap();
    assert!(data.is_empty());
}

#[test]
fn bulk_out_validates_declared_length() {
    let (mut st, h) = opened_bridge();
    let t = st
        .new_transfer(h, TransferType::Bulk, no_setup(), 512, opts(0x02), true)
        .unwrap();
    // 511 of 512 declared bytes: rejected, the transfer stays submittable.
    let r = st.submit_transfer(t, vec![0u8; 511]);
    assert!(matches!(r, Err(LibusbError::InvalidParam)));
    // Exactly 512 bytes: accepted.
    let ctx = st.submit_transfer(t, vec![0u8; 512]).unwrap();
    assert_eq!(ctx.buffer.len(), 512);
    // Submitting again while in flight and not completed: Busy.
    let r = st.submit_transfer(t, vec![0u8; 512]);
    assert!(matches!(r, Err(LibusbError::Busy)));
    complete_transfer(ctx, &success(512));
    st.await_transfer(t).unwrap();
}

#[test]
fn submit_after_completion_is_busy() {
    let (mut st, h) = opened_bridge();
    let t = st
        .new_transfer(h, TransferType::Bulk, no_setup(), 2, opts(0x02), true)
        .unwrap();
    let ctx = st.submit_transfer(t, vec![1, 2]).unwrap();
    complete_transfer(ctx, &success(2));
    // The completion already ran; the record is spent until awaited.
    let r = st.submit_transfer(t, vec![1, 2]);
    assert!(matches!(r, Err(LibusbError::Busy)));
}

#[test]
fn aborted_submission_restores_the_buffer() {
    let (mut st, h) = opened_bridge();
    let t = st
        .new_transfer(h, TransferType::Bulk, no_setup(), 3, opts(0x02), true)
        .unwrap();
    let ctx = st.submit_transfer(t, vec![1, 2, 3]).unwrap();
    // The backend refused the submission.
    let e = st.submit_aborted(t, ctx, -6);
    assert_eq!(e, LibusbError::Busy);
    // Await finds no submission in flight.
    assert!(matches!(st.await_transfer(t), Err(LibusbError::NotFound)));
    assert!(st.transfers.has(t));
    // The transfer can be submitted again.
    let ctx = st.submit_transfer(t, vec![4, 5, 6]).unwrap();
    assert_eq!(&ctx.buffer[..], &[4, 5, 6]);
    complete_transfer(ctx, &success(3));
    st.await_transfer(t).unwrap();
}

#[test]
fn bulk_loopback_round_trip_returns_same_bytes() {
    // Submit [0..N) on the OUT endpoint; the loopback device echoes the
    // bytes on the paired IN endpoint; the IN await returns exactly [0..N).
    let (mut st, h) = opened_bridge();
    const N: usize = 64;
    let payload: Vec<u8> = (0..N as u8).collect();

    let t_out = st
        .new_transfer(h, TransferType::Bulk, no_setup(), N as u32, opts(0x02), true)
        .unwrap();
    let ctx_out = st.submit_transfer(t_out, payload.clone()).unwrap();
    let echoed = ctx_out.buffer.clone();
    complete_transfer(ctx_out, &success(N as u32));
    assert!(st.await_transfer(t_out).unwrap().is_empty());

    let t_in = st
        .new_transfer(h, TransferType::Bulk, no_setup(), N as u32, opts(0x81), true)
        .unwrap();
    let mut ctx_in = st.submit_transfer(t_in, vec![]).unwrap();
    ctx_in.buffer.copy_from_slice(&echoed);
    complete_transfer(ctx_in, &success(N as u32));
    let data = st.await_transfer(t_in).unwrap();
    assert_eq!(data, payload);
}

#[test]
fn timeout_surfaces_and_record_leaves_the_table() {
    let (mut st, h) = opened_bridge();
    let t = st
        .new_transfer(
            h,
            TransferType::Bulk,
            no_setup(),
            8,
            TransferOptions {
                endpoint: 0x81,
                timeout_ms: 10,
                stream_id: 0,
                iso_packets: 0,
            },
            true,
        )
        .unwrap();
    let ctx = st.submit_transfer(t, vec![]).unwrap();
    // The idle endpoint never answers; the backend reports a timeout.
    complete_transfer(ctx, &failure(2));
    let r = st.await_transfer(t);
    assert!(matches!(r, Err(LibusbError::Timeout)));
    assert!(!st.transfers.has(t));
}

#[test]
fn every_failed_status_maps_to_its_error() {
    let cases = [
        (1, LibusbError::Io),
        (2, LibusbError::Timeout),
        (3, LibusbError::Interrupted),
        (4, LibusbError::Pipe),
        (5, LibusbError::NoDevice),
        (6, LibusbError::Overflow),
        (7, LibusbError::Other),
    ];
    for (status, expected) in cases {
        let (mut st, h) = opened_bridge();
        let t = st
            .new_transfer(h, TransferType::Bulk, no_setup(), 4, opts(0x81), true)
            .unwrap();
        let ctx = st.submit_transfer(t, vec![]).unwrap();
        complete_transfer(ctx, &failure(status));
        assert_eq!(st.await_transfer(t), Err(expected));
    }
}

#[test]
fn await_without_submission_is_not_found() {
    let (mut st, h) = opened_bridge();
    let t = st
        .new_transfer(h, TransferType::Bulk, no_setup(), 4, opts(0x81), true)
        .unwrap();
    let r = st.await_transfer(t);
    assert!(matches!(r, Err(LibusbError::NotFound)));
    // The record stays until awaited successfully or dropped.
    assert!(st.transfers.has(t));
}

#[test]
fn cancel_before_completion_then_interrupted_await() {
    let (mut st, h) = opened_bridge();
    let t = st
        .new_transfer(h, TransferType::Bulk, no_setup(), 4, opts(0x81), true)
        .unwrap();
    let ctx = st.submit_transfer(t, vec![]).unwrap();
    // Nothing has completed: the native cancel is wanted.
    assert!(st.cancel_transfer(t));
    // The cancellation still arrives through the callback.
    complete_transfer(ctx, &failure(3));
    assert_eq!(st.await_transfer(t), Err(LibusbError::Interrupted));
}

#[test]
fn cancel_after_completion_does_nothing() {
    let (mut st, h) = opened_bridge();
    let t = st
        .new_transfer(h, TransferType::Bulk, no_setup(), 2, opts(0x81), true)
        .unwrap();
    let ctx = st.submit_transfer(t, vec![]).unwrap();
    complete_transfer(ctx, &success(0));
    // The shared flag was set by the completion; cancel is a no-op.
    assert!(!st.cancel_transfer(t));
}

#[test]
fn dropped_receiver_resolves_as_interrupted() {
    let (mut st, h) = opened_bridge();
    let t = st
        .new_transfer(h, TransferType::Bulk, no_setup(), 2, opts(0x81), true)
        .unwrap();
    let ctx = st.submit_transfer(t, vec![]).unwrap();
    // The context is dismantled without ever sending.
    drop(ctx);
    assert_eq!(st.await_transfer(t), Err(LibusbError::Interrupted));
}

#[test]
fn completion_order_is_preserved_across_independent_endpoints() {
    // k transfers submitted concurrently on distinct endpoints complete in
    // the order the backend reports; each await returns its own payload.
    let (mut st, h) = opened_bridge();
    let mut handles = vec![];
    let mut contexts = vec![];
    for k in 0..4u8 {
        let t = st
            .new_transfer(h, TransferType::Bulk, no_setup(), 4, opts(0x81 + k), true)
            .unwrap();
        let ctx = st.submit_transfer(t, vec![]).unwrap();
        handles.push(t);
        contexts.push(ctx);
    }
    // The backend completes them in reverse submission order.
    let mut completion_order = vec![];
    for (k, mut ctx) in contexts.into_iter().enumerate().rev() {
        let fill = [k as u8; 4];
        ctx.buffer.copy_from_slice(&fill);
        complete_transfer(ctx, &success(4));
        completion_order.push(k);
    }
    assert_eq!(completion_order, vec![3, 2, 1, 0]);
    // Awaiting in completion order: each transfer carries its own bytes,
    // with no cross-transfer contamination.
    for k in completion_order {
        let data = st.await_transfer(handles[k]).unwrap();
        assert_eq!(data, vec![k as u8; 4]);
    }
}

#[test]
fn interrupt_in_returns_reported_bytes_from_buffer_start() {
    let (mut st, h) = opened_bridge();
    let t = st
        .new_transfer(h, TransferType::Interrupt, no_setup(), 8, opts(0x83), true)
        .unwrap();
    let mut ctx = st.submit_transfer(t, vec![]).unwrap();
    ctx.buffer[..4].copy_from_slice(&[0xde, 0xad, 0xbe, 0xef]);
    complete_transfer(ctx, &success(4));
    let data = st.await_transfer(t).unwrap();
    assert_eq!(data, vec![0xde, 0xad, 0xbe, 0xef]);
}

#[test]
fn isochronous_buffer_is_distributed_with_remainder_in_last_packet() {
    let (mut st, h) = opened_bridge();
    let t = st
        .new_transfer(
            h,
            TransferType::Isochronous,
            no_setup(),
            10,
            TransferOptions {
                endpoint: 0x81,
                timeout_ms: 0,
                stream_id: 0,
                iso_packets: 3,
            },
            true,
        )
        .unwrap();
    let rec = st.transfers.get(t);
    assert_eq!(rec.iso_packet_lengths, vec![3, 3, 4]);
    assert_eq!(rec.buffer.as_ref().unwrap().len(), 10);
}

#[test]
fn isochronous_completion_sums_packet_payloads() {
    let (mut st, h) = opened_bridge();
    let t = st
        .new_transfer(
            h,
            TransferType::Isochronous,
            no_setup(),
            9,
            TransferOptions {
                endpoint: 0x81,
                timeout_ms: 0,
                stream_id: 0,
                iso_packets: 3,
            },
            true,
        )
        .unwrap();
    let mut ctx = st.submit_transfer(t, vec![]).unwrap();
    for (i, b) in ctx.buffer.iter_mut().enumerate() {
        *b = i as u8 + 1;
    }
    let completion = Completion {
        status: 0,
        actual_length: 0,
        iso_packet_actual_lengths: vec![2, 2, 2],
    };
    complete_transfer(ctx, &completion);
    let data = st.await_transfer(t).unwrap();
    assert_eq!(data, vec![1, 2, 3, 4, 5, 6]);
}

#[test]
fn streamed_transfer_keeps_its_stream_id() {
    let (mut st, h) = opened_bridge();
    let t = st
        .new_transfer(
            h,
            TransferType::Bulk,
            no_setup(),
            4,
            TransferOptions {
                endpoint: 0x02,
                timeout_ms: 0,
                stream_id: 5,
                iso_packets: 0,
            },
            true,
        )
        .unwrap();
    let rec = st.transfers.get(t);
    assert_eq!(rec.stream_id, 5);
    assert_eq!(rec.timeout_ms, 0);
    assert_eq!(rec.endpoint, 0x02);
}

#[test]
fn no_native_transfer_leaks_under_mock_counting() {
    // Every allocated native transfer is freed exactly once: by the
    // completion callback for submitted transfers, or on drop for a
    // transfer that was never submitted.
    let mut counter = MockCounter::new();
    let (mut st, h) = opened_bridge();
    let mut live = vec![];
    for _ in 0..3 {
        let t = st
            .new_transfer(h, TransferType::Bulk, no_setup(), 4, opts(0x02), true)
            .unwrap();
        counter.allocs += 1;
        live.push(t);
    }
    // Two run to completion.
    for &t in &live[0..2] {
        let ctx = st.submit_transfer(t, vec![0, 1, 2, 3]).unwrap();
        counter.complete(ctx, &success(4));
        st.await_transfer(t).unwrap();
    }
    // The third is dropped before submission; the mock reclaims its object.
    let cancel_needed = st.drop_transfer(live[2]);
    assert!(cancel_needed);
    counter.frees += 1;
    assert!(!st.transfers.has(live[2]));
    assert_eq!(counter.allocs, counter.frees);
}

#[test]
fn rendezvous_resolution_keeps_outcomes_and_maps_loss() {
    let sent: Result<Vec<u8>, LibusbError> = Ok(vec![1, 2, 3]);
    assert_eq!(usb_bridge::resolve_rendezvous(Some(sent)), Ok(vec![1, 2, 3]));
    let sent: Result<Vec<u8>, LibusbError> = Err(LibusbError::Pipe);
    assert_eq!(
        usb_bridge::resolve_rendezvous(Some(sent)),
        Err(LibusbError::Pipe)
    );
    assert_eq!(
        usb_bridge::resolve_rendezvous(None),
        Err(LibusbError::Interrupted)
    );
}

#[test]
fn drop_of_unknown_transfer_needs_no_cancel() {
    let (mut st, _h) = opened_bridge();
    assert!(!st.drop_transfer(1234));
}
