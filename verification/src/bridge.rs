//! The bridge state machine.
//!
//! `MyState` is the per-instance bridge: the handle tables, the hot-plug
//! queue, and the policy. Every guest-visible operation is a function from
//! the current state and the backend's answer to the next state and the
//! guest's result. The native backend itself runs outside: its raw result
//! codes, descriptor data and completion reports enter these functions as
//! plain arguments, and each contract states exactly what is decided for
//! every possible answer.

use vstd::prelude::*;

verus! {

use std::sync::Arc;
use std::sync::atomic::AtomicBool;
use std::sync::atomic::Ordering;
use std::collections::VecDeque;
use crate::descriptors::DeviceDescriptor;
use crate::descriptors::DeviceLocation;
use crate::descriptors::UsbSpeed;
use crate::descriptors::spec_speed_from_raw;
use crate::errors::LibusbError;
use crate::errors::spec_from_raw;
use crate::policy::AllowedUSBDevices;
use crate::policy::USBDeviceIdentifier;
use crate::table::Table;
use crate::transfer::TransferType;
use crate::transfer::TransferSetup;
use crate::transfer::TransferOptions;
use crate::transfer::spec_total_len;
use crate::rendezvous::TransferOutcome;

/// A device record: owner of one native device reference. The reference was
/// counted up when the record was created (enumeration or hot-plug arrival)
/// and is counted down exactly once, when the record leaves the table.
#[derive(Debug)]
pub struct UsbDevice {
    /// The native device reference this record owns.
    pub native: u64,
}

/// An opened device handle record: owner of one native handle, closed when
/// the record leaves the table.
#[derive(Debug)]
pub struct UsbDeviceHandle {
    /// The native handle this record owns.
    pub native: u64,
}

/// A transfer record. The buffer is here exactly while no submission is in
/// flight; during flight the in-flight context owns it.
pub struct UsbTransfer {
    /// The transfer buffer; `None` while a submission is in flight.
    pub buffer: Option<Vec<u8>>,
    /// The declared payload length, which OUT submissions must match.
    pub buf_len: u32,
    /// Shared with the in-flight context; set once by the completion.
    pub completed: Arc<AtomicBool>,
    /// The receiving half of the rendezvous; present once submitted.
    pub receiver: Option<tokio::sync::oneshot::Receiver<TransferOutcome>>,
    /// The setup as given at allocation; read for control direction.
    pub control_setup: Option<TransferSetup>,
    /// The transfer's type.
    pub kind: TransferType,
    /// The endpoint address.
    pub endpoint: u8,
    /// The per-transfer timeout in milliseconds; zero is unlimited.
    pub timeout_ms: u32,
    /// The stream identifier; zero means no stream.
    pub stream_id: u32,
    /// Isochronous packet lengths; empty for other types.
    pub iso_packet_lengths: Vec<u32>,
}

impl UsbTransfer {
    /// The record's invariant: the setup is retained, the buffer is present
    /// exactly while nothing is in flight, and a present buffer has the
    /// native length for this transfer type.
    pub open spec fn wf(&self) -> bool {
        &&& self.control_setup is Some
        &&& (self.buffer is Some <==> self.receiver is None)
        &&& (self.buffer matches Some(b) ==> b@.len() == spec_total_len(self.kind, self.buf_len))
    }

    /// The setup stored at allocation.
    pub open spec fn setup(&self) -> TransferSetup {
        self.control_setup->Some_0
    }
}

/// A hot-plug event kind.
#[derive(Clone, Copy, Debug, PartialEq, Eq, Structural)]
pub enum Event {
    Arrived,
    Left,
}

/// What a hot-plug event carries about the device, without opening it.
#[derive(Clone, Copy, Debug, PartialEq, Eq, Structural)]
pub struct Info {
    pub bus: u8,
    pub address: u8,
    pub vendor: u16,
    pub product: u16,
}

/// One entry of the backend's enumeration snapshot: the native reference,
/// the device descriptor if it could be read, and the bus location with the
/// raw speed code.
pub struct DeviceEntry {
    /// The native device reference; owned by the snapshot until enumeration
    /// either adopts it into the table or reports it for release.
    pub native: u64,
    /// The fetched device descriptor, `None` when the fetch failed.
    pub descriptor: Option<DeviceDescriptor>,
    pub bus_number: u8,
    pub device_address: u8,
    pub port_number: u8,
    /// The raw native speed code.
    pub speed_raw: u8,
}

/// Whether enumeration admits an entry: its descriptor was readable and the
/// policy allows its identity.
pub open spec fn spec_admitted(policy: AllowedUSBDevices, e: DeviceEntry) -> bool {
    e.descriptor matches Some(d) && policy.allows(
        USBDeviceIdentifier { vendor_id: d.vendor_id, product_id: d.product_id },
    )
}

/// The subsequence of a snapshot that the policy admits, in order.
pub open spec fn admitted_entries(
    policy: AllowedUSBDevices,
    entries: Seq<DeviceEntry>,
) -> Seq<DeviceEntry> {
    entries.filter(|e: DeviceEntry| spec_admitted(policy, e))
}

/// The subsequence of a snapshot that enumeration skips, in order.
pub open spec fn rejected_entries(
    policy: AllowedUSBDevices,
    entries: Seq<DeviceEntry>,
) -> Seq<DeviceEntry> {
    entries.filter(|e: DeviceEntry| !spec_admitted(policy, e))
}

/// The location value built for an entry.
pub open spec fn spec_location(e: DeviceEntry) -> DeviceLocation {
    DeviceLocation {
        bus_number: e.bus_number,
        device_address: e.device_address,
        port_number: e.port_number,
        speed: spec_speed_from_raw(e.speed_raw),
    }
}

/// What `list_devices` returns: the admitted devices with their fresh
/// handles, and the native references of the entries it skipped, which the
/// caller must release.
pub struct ListDevicesOutcome {
    /// One `(handle, descriptor, location)` triple per admitted entry, in
    /// snapshot order.
    pub devices: Vec<(u32, DeviceDescriptor, DeviceLocation)>,
    /// The native references of the skipped entries, in snapshot order.
    pub released: Vec<u64>,
}

/// The bridge state for one guest instance.
pub struct MyState {
    /// Device records reachable by the guest.
    pub devices: Table<UsbDevice>,
    /// Opened device handles.
    pub handles: Table<UsbDeviceHandle>,
    /// Transfer records.
    pub transfers: Table<UsbTransfer>,
    /// Hot-plug events waiting for the guest's next poll. The queue owns the
    /// device references of its entries until poll moves them into the
    /// table.
    pub hotplug_queue: VecDeque<(Event, Info, UsbDevice)>,
    /// Whether the native backend was initialised.
    pub initialized: bool,
    /// Whether the hot-plug callback was registered.
    pub hotplug_enabled: bool,
    /// The policy, fixed for the bridge's lifetime.
    pub allowed_usbdevices: AllowedUSBDevices,
}

/// The parts of the state no operation but construction may change.
pub open spec fn policy_unchanged(pre: MyState, post: MyState) -> bool {
    post.allowed_usbdevices == pre.allowed_usbdevices
}

impl MyState {
    /// The bridge invariant: every transfer record is well-formed.
    pub open spec fn wf(&self) -> bool {
        forall|t: u32| self.transfers.contains(t) ==> (#[trigger] self.transfers.at(t)).wf()
    }

    /// A fresh bridge: empty tables, empty queue, nothing initialised, the
    /// given policy fixed for its lifetime.
    pub fn new(allowed_usbdevices: AllowedUSBDevices) -> (r: MyState)
        ensures
            r.devices@ == Seq::<Option<UsbDevice>>::empty(),
            r.handles@ == Seq::<Option<UsbDeviceHandle>>::empty(),
            r.transfers@ == Seq::<Option<UsbTransfer>>::empty(),
            r.hotplug_queue@ == Seq::<(Event, Info, UsbDevice)>::empty(),
            !r.initialized,
            !r.hotplug_enabled,
            r.allowed_usbdevices == allowed_usbdevices,
            r.wf(),
    {
        MyState {
            devices: Table::new(),
            handles: Table::new(),
            transfers: Table::new(),
            hotplug_queue: VecDeque::new(),
            initialized: false,
            hotplug_enabled: false,
            allowed_usbdevices,
        }
    }

    /// Initialise the bridge against the backend. Idempotent: once
    /// initialised, further calls succeed without consulting the backend.
    /// `raw` is the backend's answer to the initialisation request; on a
    /// negative answer nothing changes and the mapped error is returned.
    pub fn init(&mut self, raw: i32) -> (r: Result<(), LibusbError>)
        requires
            old(self).wf(),
        ensures
            final(self).wf(),
            old(self).initialized ==> r == Ok::<(), LibusbError>(()) && *final(self) == *old(self),
            !old(self).initialized && raw >= 0 ==> r == Ok::<(), LibusbError>(())
                && final(self).initialized,
            !old(self).initialized && raw < 0 ==> r == Err::<(), LibusbError>(spec_from_raw(raw))
                && *final(self) == *old(self),
            final(self).devices@ == old(self).devices@,
            final(self).handles@ == old(self).handles@,
            final(self).transfers@ == old(self).transfers@,
            final(self).hotplug_queue@ == old(self).hotplug_queue@,
            final(self).hotplug_enabled == old(self).hotplug_enabled,
            policy_unchanged(*old(self), *final(self)),
    {
        if self.initialized {
            return Ok(());
        }
        if raw < 0 {
            return Err(LibusbError::from_raw(raw));
        }
        self.initialized = true;
        Ok(())
    }

    /// Enumerate the backend's devices under the policy. `fetched` is the
    /// backend's snapshot, or the negative code its listing call failed
    /// with. Exactly the admitted entries — readable descriptor, identity
    /// allowed — become device records and are returned with fresh handles,
    /// in snapshot order; the native references of all other entries are
    /// returned for release. Fails `NotFound` before initialisation.
    pub fn list_devices(&mut self, fetched: Result<Vec<DeviceEntry>, i32>) -> (r: Result<
        ListDevicesOutcome,
        LibusbError,
    >)
        requires
            old(self).wf(),
            fetched matches Err(raw) ==> raw < 0,
            old(self).devices@.len() + (match fetched {
                Ok(entries) => entries@.len(),
                Err(_) => 0,
            }) <= u32::MAX,
        ensures
            final(self).wf(),
            final(self).handles@ == old(self).handles@,
            final(self).transfers@ == old(self).transfers@,
            final(self).hotplug_queue@ == old(self).hotplug_queue@,
            final(self).initialized == old(self).initialized,
            final(self).hotplug_enabled == old(self).hotplug_enabled,
            policy_unchanged(*old(self), *final(self)),
            !old(self).initialized ==> (r matches Err(e) && e == LibusbError::NotFound
                && *final(self) == *old(self)),
            old(self).initialized ==> (fetched matches Err(raw) ==> (r == Err::<
                ListDevicesOutcome,
                LibusbError,
            >(spec_from_raw(raw)) && *final(self) == *old(self))),
            old(self).initialized ==> (fetched matches Ok(entries) ==> (r matches Ok(out)
                && spec_enumerated(*old(self), *final(self), entries@, out))),
    {
        if !self.initialized {
            return Err(LibusbError::NotFound);
        }
        let entries = match fetched {
            Ok(entries) => entries,
            Err(raw) => {
                return Err(LibusbError::from_raw(raw));
            },
        };
        let ghost policy = self.allowed_usbdevices;
        let ghost all = entries@;
        let ghost pre_devices = self.devices@;
        let ghost pre_handles = self.handles@;
        let ghost pre_transfers = self.transfers@;
        let ghost pre_queue = self.hotplug_queue@;
        let ghost pre_init = self.initialized;
        let ghost pre_enabled = self.hotplug_enabled;
        let mut devices: Vec<(u32, DeviceDescriptor, DeviceLocation)> = Vec::new();
        let mut released: Vec<u64> = Vec::new();
        let mut i: usize = 0;
        while i < entries.len()
            invariant
                self.wf(),
                i <= all.len(),
                entries@ == all,
                self.allowed_usbdevices == policy,
                self.handles@ == pre_handles,
                self.transfers@ == pre_transfers,
                self.hotplug_queue@ == pre_queue,
                self.initialized == pre_init,
                self.hotplug_enabled == pre_enabled,
                pre_devices.len() + all.len() <= u32::MAX,
                self.devices@ == pre_devices + all.take(i as int).filter(
                    |e: DeviceEntry| spec_admitted(policy, e),
                ).map_values(|e: DeviceEntry| Some(UsbDevice { native: e.native })),
                devices@.len() == all.take(i as int).filter(
                    |e: DeviceEntry| spec_admitted(policy, e),
                ).len(),
                forall|k: int|
                    0 <= k < devices@.len() ==> {
                        let adm = all.take(i as int).filter(
                            |e: DeviceEntry| spec_admitted(policy, e),
                        );
                        &&& (#[trigger] devices@[k]).0 == pre_devices.len() + k
                        &&& devices@[k].1 == adm[k].descriptor->Some_0
                        &&& devices@[k].2 == spec_location(adm[k])
                    },
                released@ == all.take(i as int).filter(
                    |e: DeviceEntry| !spec_admitted(policy, e),
                ).map_values(|e: DeviceEntry| e.native),
            decreases all.len() - i,
        {
            let ghost adm_pre = all.take(i as int).filter(
                |e: DeviceEntry| spec_admitted(policy, e),
            );
            let ghost rej_pre = all.take(i as int).filter(
                |e: DeviceEntry| !spec_admitted(policy, e),
            );
            proof {
                reveal(Seq::filter);
                assert(all.take(i + 1).drop_last() =~= all.take(i as int));
                assert(all.take(i + 1).last() == all[i as int]);
            }
            let entry = &entries[i];
            let admitted = match &entry.descriptor {
                Some(d) => {
                    let id = USBDeviceIdentifier { vendor_id: d.vendor_id, product_id: d.product_id };
                    self.allowed_usbdevices.is_allowed(&id)
                },
                None => false,
            };
            if admitted {
                let descriptor = match &entry.descriptor {
                    Some(d) => *d,
                    None => unreached(),
                };
                let location = DeviceLocation {
                    bus_number: entry.bus_number,
                    device_address: entry.device_address,
                    port_number: entry.port_number,
                    speed: UsbSpeed::from_raw(entry.speed_raw),
                };
                let handle = self.devices.push(UsbDevice { native: entry.native });
                devices.push((handle, descriptor, location));
                proof {
                    assert(all.take(i + 1).filter(|e: DeviceEntry| spec_admitted(policy, e))
                        == adm_pre.push(all[i as int]));
                    assert(all.take(i + 1).filter(|e: DeviceEntry| !spec_admitted(policy, e))
                        == rej_pre);
                    assert(adm_pre.push(all[i as int]).map_values(
                        |e: DeviceEntry| Some(UsbDevice { native: e.native }),
                    ) =~= adm_pre.map_values(|e: DeviceEntry| Some(UsbDevice { native: e.native }))
                        + seq![Some(UsbDevice { native: all[i as int].native })]);
                    assert(self.devices@ =~= pre_devices + adm_pre.push(all[i as int]).map_values(
                        |e: DeviceEntry| Some(UsbDevice { native: e.native }),
                    ));
                }
            } else {
                released.push(entry.native);
                proof {
                    assert(all.take(i + 1).filter(|e: DeviceEntry| spec_admitted(policy, e))
                        == adm_pre);
                    assert(all.take(i + 1).filter(|e: DeviceEntry| !spec_admitted(policy, e))
                        == rej_pre.push(all[i as int]));
                    assert(rej_pre.push(all[i as int]).map_values(|e: DeviceEntry| e.native)
                        =~= rej_pre.map_values(|e: DeviceEntry| e.native) + seq![
                        all[i as int].native,
                    ]);
                }
            }
            i += 1;
        }
        proof {
            assert(all.take(all.len() as int) =~= all);
        }
        Ok(ListDevicesOutcome { devices, released })
    }
}

/// Everything but the device-handle table is as it was.
pub open spec fn only_handles_changed(pre: MyState, post: MyState) -> bool {
    &&& post.devices@ == pre.devices@
    &&& post.transfers@ == pre.transfers@
    &&& post.hotplug_queue@ == pre.hotplug_queue@
    &&& post.initialized == pre.initialized
    &&& post.hotplug_enabled == pre.hotplug_enabled
    &&& policy_unchanged(pre, post)
}

impl MyState {
    /// Open a device. `opened` is the backend's answer: the fresh native
    /// handle, or the negative code the open failed with. On success the
    /// handle record joins the table and its fresh guest handle is
    /// returned.
    pub fn open(&mut self, device: u32, opened: Result<u64, i32>) -> (r: Result<u32, LibusbError>)
        requires
            old(self).wf(),
            old(self).devices.contains(device),
            opened matches Err(raw) ==> raw < 0,
            old(self).handles@.len() < u32::MAX,
        ensures
            final(self).wf(),
            only_handles_changed(*old(self), *final(self)),
            opened matches Err(raw) ==> r == Err::<u32, LibusbError>(spec_from_raw(raw))
                && final(self).handles@ == old(self).handles@,
            opened matches Ok(native) ==> {
                &&& r == Ok::<u32, LibusbError>(old(self).handles@.len() as u32)
                &&& final(self).handles@ == old(self).handles@.push(
                    Some(UsbDeviceHandle { native }),
                )
            },
    {
        match opened {
            Ok(native) => Ok(self.handles.push(UsbDeviceHandle { native })),
            Err(raw) => Err(LibusbError::from_raw(raw)),
        }
    }

    /// Take a device record out of the table and return its native
    /// reference for release; the reference is counted down exactly once.
    /// Already-removed handles release nothing.
    pub fn drop_device(&mut self, device: u32) -> (r: Option<u64>)
        requires
            old(self).wf(),
        ensures
            final(self).wf(),
            old(self).devices.contains(device) ==> r == Some(
                old(self).devices.at(device).native,
            ) && final(self).devices@ == old(self).devices@.update(device as int, None),
            !old(self).devices.contains(device) ==> r is None && final(self).devices@ == old(self).devices@,
            final(self).handles@ == old(self).handles@,
            final(self).transfers@ == old(self).transfers@,
            final(self).hotplug_queue@ == old(self).hotplug_queue@,
            final(self).initialized == old(self).initialized,
            final(self).hotplug_enabled == old(self).hotplug_enabled,
            policy_unchanged(*old(self), *final(self)),
    {
        if self.devices.has(device) {
            let record = self.devices.delete(device);
            Some(record.native)
        } else {
            None
        }
    }

    /// Close a device handle: take its record out of the table and return
    /// the native handle for the backend's close call. Idempotent — closing
    /// an already-closed handle does nothing. Dropping the guest resource
    /// closes the same way.
    pub fn close(&mut self, handle: u32) -> (r: Option<u64>)
        requires
            old(self).wf(),
        ensures
            final(self).wf(),
            only_handles_changed(*old(self), *final(self)),
            old(self).handles.contains(handle) ==> r == Some(
                old(self).handles.at(handle).native,
            ) && final(self).handles@ == old(self).handles@.update(handle as int, None),
            !old(self).handles.contains(handle) ==> r is None && final(self).handles@ == old(self).handles@,
    {
        if self.handles.has(handle) {
            let record = self.handles.delete(handle);
            Some(record.native)
        } else {
            None
        }
    }

    /// The active configuration descriptor of a device. `fetched` is the
    /// backend's walked descriptor or the negative code the fetch failed
    /// with; on success the owned guest value is built from it.
    pub fn get_active_configuration_descriptor(
        &self,
        device: u32,
        fetched: Result<&crate::descriptors::RawConfig, i32>,
    ) -> (r: Result<crate::descriptors::ConfigurationDescriptor, LibusbError>)
        requires
            self.devices.contains(device),
            fetched matches Err(raw) ==> raw < 0,
        ensures
            fetched matches Err(raw) ==> r == Err::<
                crate::descriptors::ConfigurationDescriptor,
                LibusbError,
            >(spec_from_raw(raw)),
            fetched matches Ok(raw_config) ==> (r matches Ok(c)
                && crate::descriptors::matches_config(c, *raw_config)),
    {
        match fetched {
            Ok(raw_config) => Ok(crate::descriptors::generate_config_descriptor(raw_config)),
            Err(raw) => Err(LibusbError::from_raw(raw)),
        }
    }

    /// The configuration descriptor at `config_index`; the index selects
    /// which descriptor the backend fetched.
    pub fn get_configuration_descriptor(
        &self,
        device: u32,
        config_index: u8,
        fetched: Result<&crate::descriptors::RawConfig, i32>,
    ) -> (r: Result<crate::descriptors::ConfigurationDescriptor, LibusbError>)
        requires
            self.devices.contains(device),
            fetched matches Err(raw) ==> raw < 0,
        ensures
            fetched matches Err(raw) ==> r == Err::<
                crate::descriptors::ConfigurationDescriptor,
                LibusbError,
            >(spec_from_raw(raw)),
            fetched matches Ok(raw_config) ==> (r matches Ok(c)
                && crate::descriptors::matches_config(c, *raw_config)),
    {
        let _ = config_index;
        match fetched {
            Ok(raw_config) => Ok(crate::descriptors::generate_config_descriptor(raw_config)),
            Err(raw) => Err(LibusbError::from_raw(raw)),
        }
    }

    /// The configuration descriptor with the given configuration value; the
    /// value selects which descriptor the backend fetched.
    pub fn get_configuration_descriptor_by_value(
        &self,
        device: u32,
        config_value: u8,
        fetched: Result<&crate::descriptors::RawConfig, i32>,
    ) -> (r: Result<crate::descriptors::ConfigurationDescriptor, LibusbError>)
        requires
            self.devices.contains(device),
            fetched matches Err(raw) ==> raw < 0,
        ensures
            fetched matches Err(raw) ==> r == Err::<
                crate::descriptors::ConfigurationDescriptor,
                LibusbError,
            >(spec_from_raw(raw)),
            fetched matches Ok(raw_config) ==> (r matches Ok(c)
                && crate::descriptors::matches_config(c, *raw_config)),
    {
        let _ = config_value;
        match fetched {
            Ok(raw_config) => Ok(crate::descriptors::generate_config_descriptor(raw_config)),
            Err(raw) => Err(LibusbError::from_raw(raw)),
        }
    }

    /// The currently active configuration value. `raw` is the backend's
    /// result code and `config` the value it reported.
    pub fn get_configuration(&self, handle: u32, raw: i32, config: u8) -> (r: Result<
        u8,
        LibusbError,
    >)
        requires
            self.handles.contains(handle),
        ensures
            raw >= 0 ==> r == Ok::<u8, LibusbError>(config),
            raw < 0 ==> r == Err::<u8, LibusbError>(spec_from_raw(raw)),
    {
        if raw >= 0 {
            Ok(config)
        } else {
            Err(LibusbError::from_raw(raw))
        }
    }

    /// Apply the backend's answer to a configuration change.
    pub fn set_configuration(
        &self,
        handle: u32,
        config: crate::transfer::ConfigValue,
        raw: i32,
    ) -> (r: Result<(), LibusbError>)
        requires
            self.handles.contains(handle),
        ensures
            r == crate::errors::spec_map_raw_unit(raw),
    {
        let _ = config;
        crate::errors::map_raw_unit(raw)
    }

    /// Apply the backend's answer to an interface claim.
    pub fn claim_interface(&self, handle: u32, interface: u8, raw: i32) -> (r: Result<
        (),
        LibusbError,
    >)
        requires
            self.handles.contains(handle),
        ensures
            r == crate::errors::spec_map_raw_unit(raw),
    {
        let _ = interface;
        crate::errors::map_raw_unit(raw)
    }

    /// Apply the backend's answer to an interface release.
    pub fn release_interface(&self, handle: u32, interface: u8, raw: i32) -> (r: Result<
        (),
        LibusbError,
    >)
        requires
            self.handles.contains(handle),
        ensures
            r == crate::errors::spec_map_raw_unit(raw),
    {
        let _ = interface;
        crate::errors::map_raw_unit(raw)
    }

    /// Apply the backend's answer to an alternate-setting change.
    pub fn set_interface_altsetting(
        &self,
        handle: u32,
        interface: u8,
        alt_setting: u8,
        raw: i32,
    ) -> (r: Result<(), LibusbError>)
        requires
            self.handles.contains(handle),
        ensures
            r == crate::errors::spec_map_raw_unit(raw),
    {
        let _ = interface;
        let _ = alt_setting;
        crate::errors::map_raw_unit(raw)
    }

    /// Apply the backend's answer to a halt clear on an endpoint.
    pub fn clear_halt(&self, handle: u32, endpoint: u8, raw: i32) -> (r: Result<(), LibusbError>)
        requires
            self.handles.contains(handle),
        ensures
            r == crate::errors::spec_map_raw_unit(raw),
    {
        let _ = endpoint;
        crate::errors::map_raw_unit(raw)
    }

    /// Apply the backend's answer to a device reset.
    pub fn reset_device(&self, handle: u32, raw: i32) -> (r: Result<(), LibusbError>)
        requires
            self.handles.contains(handle),
        ensures
            r == crate::errors::spec_map_raw_unit(raw),
    {
        crate::errors::map_raw_unit(raw)
    }

    /// Apply the backend's answer to a stream allocation over the given
    /// endpoints.
    pub fn alloc_streams(
        &self,
        handle: u32,
        num_streams: u32,
        endpoints: &Vec<u8>,
        raw: i32,
    ) -> (r: Result<(), LibusbError>)
        requires
            self.handles.contains(handle),
        ensures
            r == crate::errors::spec_map_raw_unit(raw),
    {
        let _ = num_streams;
        let _ = endpoints;
        crate::errors::map_raw_unit(raw)
    }

    /// Apply the backend's answer to a stream release.
    pub fn free_streams(&self, handle: u32, endpoints: &Vec<u8>, raw: i32) -> (r: Result<
        (),
        LibusbError,
    >)
        requires
            self.handles.contains(handle),
        ensures
            r == crate::errors::spec_map_raw_unit(raw),
    {
        let _ = endpoints;
        crate::errors::map_raw_unit(raw)
    }

    /// Whether a kernel driver is bound to the interface: the backend
    /// answers zero for no, a positive value for yes, a negative code for
    /// failure.
    pub fn kernel_driver_active(&self, handle: u32, interface: u8, raw: i32) -> (r: Result<
        bool,
        LibusbError,
    >)
        requires
            self.handles.contains(handle),
        ensures
            raw == 0 ==> r == Ok::<bool, LibusbError>(false),
            raw > 0 ==> r == Ok::<bool, LibusbError>(true),
            raw < 0 ==> r == Err::<bool, LibusbError>(spec_from_raw(raw)),
    {
        let _ = interface;
        if raw == 0 {
            Ok(false)
        } else if raw > 0 {
            Ok(true)
        } else {
            Err(LibusbError::from_raw(raw))
        }
    }

    /// Apply the backend's answer to a kernel-driver detach.
    pub fn detach_kernel_driver(&self, handle: u32, interface: u8, raw: i32) -> (r: Result<
        (),
        LibusbError,
    >)
        requires
            self.handles.contains(handle),
        ensures
            r == crate::errors::spec_map_raw_unit(raw),
    {
        let _ = interface;
        crate::errors::map_raw_unit(raw)
    }

    /// Apply the backend's answer to a kernel-driver reattach.
    pub fn attach_kernel_driver(&self, handle: u32, interface: u8, raw: i32) -> (r: Result<
        (),
        LibusbError,
    >)
        requires
            self.handles.contains(handle),
        ensures
            r == crate::errors::spec_map_raw_unit(raw),
    {
        let _ = interface;
        crate::errors::map_raw_unit(raw)
    }
}

/// The initial content of a transfer buffer: for control transfers the 8
/// packed setup bytes followed by a zeroed payload region, for all other
/// types a zeroed payload.
pub open spec fn spec_initial_buffer(
    kind: TransferType,
    setup: TransferSetup,
    buf_size: u32,
) -> Seq<u8> {
    if kind is Control {
        crate::transfer::setup_bytes(setup, buf_size) + Seq::new(buf_size as nat, |i: int| 0u8)
    } else {
        Seq::new(buf_size as nat, |i: int| 0u8)
    }
}

/// A freshly allocated transfer record for the given request.
pub open spec fn spec_fresh_transfer(
    rec: UsbTransfer,
    xfer_type: TransferType,
    setup: TransferSetup,
    buf_size: u32,
    opts: TransferOptions,
) -> bool {
    &&& rec.kind == xfer_type
    &&& rec.buf_len == buf_size
    &&& rec.control_setup == Some(setup)
    &&& rec.endpoint == opts.endpoint
    &&& rec.timeout_ms == opts.timeout_ms
    &&& rec.stream_id == opts.stream_id
    &&& rec.receiver is None
    &&& rec.buffer matches Some(b) && b@ == spec_initial_buffer(xfer_type, setup, buf_size)
    &&& rec.iso_packet_lengths@ == if xfer_type is Isochronous && opts.iso_packets > 0 {
        crate::transfer::spec_iso_lengths(buf_size, opts.iso_packets)
    } else {
        Seq::<u32>::empty()
    }
}

/// The submission relation: the record was idle with its buffer present;
/// the context now owns a buffer holding, for OUT directions, the caller's
/// data in the payload region; the record holds the rendezvous receiver and
/// no buffer; nothing else changed.
pub open spec fn spec_submitted(
    pre: MyState,
    post: MyState,
    t: u32,
    data: Seq<u8>,
    ctx: crate::transfer::TransferContext,
) -> bool {
    let rec = pre.transfers.at(t);
    let dir_in = crate::transfer::spec_is_in(rec.kind, rec.setup().bm_request_type, rec.endpoint);
    let newrec = post.transfers.at(t);
    &&& pre.transfers.contains(t)
    &&& rec.receiver is None
    &&& rec.buffer is Some
    &&& ctx.kind == rec.kind
    &&& ctx.endpoint == rec.endpoint
    &&& ctx.setup == rec.setup()
    &&& ctx.completed == rec.completed
    &&& (dir_in ==> ctx.buffer@ == rec.buffer->Some_0@)
    &&& (!dir_in ==> data.len() == rec.buf_len)
    &&& (!dir_in && rec.kind is Control ==> ctx.buffer@ == rec.buffer->Some_0@.subrange(0, 8)
        + data)
    &&& (!dir_in && !(rec.kind is Control) ==> ctx.buffer@ == data)
    &&& post.transfers.contains(t)
    &&& newrec.buffer is None
    &&& newrec.receiver is Some
    &&& newrec.buf_len == rec.buf_len
    &&& newrec.kind == rec.kind
    &&& newrec.endpoint == rec.endpoint
    &&& newrec.control_setup == rec.control_setup
    &&& newrec.completed == rec.completed
    &&& newrec.timeout_ms == rec.timeout_ms
    &&& newrec.stream_id == rec.stream_id
    &&& newrec.iso_packet_lengths@ == rec.iso_packet_lengths@
    &&& post.transfers@ == pre.transfers@.update(t as int, Some(newrec))
    &&& post.devices@ == pre.devices@
    &&& post.handles@ == pre.handles@
    &&& post.hotplug_queue@ == pre.hotplug_queue@
    &&& post.initialized == pre.initialized
    &&& post.hotplug_enabled == pre.hotplug_enabled
    &&& policy_unchanged(pre, post)
}

/// The await relation for an in-flight transfer: its record leaves the
/// table — the rendezvous is consumed and the handle can never be awaited
/// again — and nothing else changes.
pub open spec fn spec_awaited(pre: MyState, post: MyState, t: u32) -> bool {
    &&& pre.transfers.contains(t)
    &&& pre.transfers.at(t).receiver is Some
    &&& post.transfers@ == pre.transfers@.update(t as int, None)
    &&& !post.transfers.contains(t)
    &&& post.devices@ == pre.devices@
    &&& post.handles@ == pre.handles@
    &&& post.hotplug_queue@ == pre.hotplug_queue@
    &&& post.initialized == pre.initialized
    &&& post.hotplug_enabled == pre.hotplug_enabled
    &&& policy_unchanged(pre, post)
}

impl MyState {
    /// Allocate a transfer record against an opened handle. `alloc_ok` is
    /// whether the backend could allocate the native transfer object (with
    /// the isochronous packet count for that type); without it the request
    /// fails `NoMem` and nothing changes. Otherwise the record enters the
    /// table with its buffer sized for the type — `8 + buf_size` for
    /// control, `buf_size` otherwise — the setup packed little-endian into
    /// a control buffer's first 8 bytes, the payload zeroed, and the buffer
    /// distributed over the packet count for isochronous transfers.
    pub fn new_transfer(
        &mut self,
        handle: u32,
        xfer_type: TransferType,
        setup: TransferSetup,
        buf_size: u32,
        opts: TransferOptions,
        alloc_ok: bool,
    ) -> (r: Result<u32, LibusbError>)
        requires
            old(self).wf(),
            old(self).handles.contains(handle),
            xfer_type is Control ==> buf_size <= u32::MAX - 8,
            old(self).transfers@.len() < u32::MAX,
        ensures
            final(self).wf(),
            final(self).devices@ == old(self).devices@,
            final(self).handles@ == old(self).handles@,
            final(self).hotplug_queue@ == old(self).hotplug_queue@,
            final(self).initialized == old(self).initialized,
            final(self).hotplug_enabled == old(self).hotplug_enabled,
            policy_unchanged(*old(self), *final(self)),
            !alloc_ok ==> r == Err::<u32, LibusbError>(LibusbError::NoMem) && *final(self) == *old(self),
            alloc_ok ==> {
                let t = old(self).transfers@.len() as u32;
                &&& r == Ok::<u32, LibusbError>(t)
                &&& final(self).transfers.contains(t)
                &&& spec_fresh_transfer(final(self).transfers.at(t), xfer_type, setup, buf_size,
                    opts)
                &&& final(self).transfers@ == old(self).transfers@.push(
                    Some(final(self).transfers.at(t)),
                )
            },
    {
        if !alloc_ok {
            return Err(LibusbError::NoMem);
        }
        let mut buffer: Vec<u8> = Vec::new();
        if matches!(xfer_type, TransferType::Control) {
            buffer.push(setup.bm_request_type);
            buffer.push(setup.b_request);
            buffer.push(#[verifier::truncate] ((setup.w_value & 0xFF) as u8));
            buffer.push(#[verifier::truncate] ((setup.w_value >> 8) as u8));
            buffer.push(#[verifier::truncate] ((setup.w_index & 0xFF) as u8));
            buffer.push(#[verifier::truncate] ((setup.w_index >> 8) as u8));
            buffer.push(#[verifier::truncate] ((buf_size & 0xFF) as u8));
            buffer.push(#[verifier::truncate] (((buf_size >> 8) & 0xFF) as u8));
            proof {
                assert(buffer@ =~= crate::transfer::setup_bytes(setup, buf_size));
            }
        }
        let ghost base = buffer@;
        let mut j: u32 = 0;
        while j < buf_size
            invariant
                j <= buf_size,
                buffer@ == base + Seq::new(j as nat, |i: int| 0u8),
            decreases buf_size - j,
        {
            buffer.push(0u8);
            proof {
                assert(buffer@ =~= base + Seq::new((j + 1) as nat, |i: int| 0u8));
            }
            j += 1;
        }
        let iso_packet_lengths: Vec<u32> = if matches!(xfer_type, TransferType::Isochronous)
            && opts.iso_packets > 0 {
            crate::transfer::iso_packet_lengths(buf_size, opts.iso_packets)
        } else {
            Vec::new()
        };
        let record = UsbTransfer {
            buffer: Some(buffer),
            buf_len: buf_size,
            completed: Arc::new(AtomicBool::new(false)),
            receiver: None,
            control_setup: Some(setup),
            kind: xfer_type,
            endpoint: opts.endpoint,
            timeout_ms: opts.timeout_ms,
            stream_id: opts.stream_id,
            iso_packet_lengths,
        };
        let t = self.transfers.push(record);
        proof {
            assert forall|u: u32| final(self).transfers.contains(u) implies (#[trigger] final(self).transfers.at(u)).wf() by {
                if u != t {
                    assert(old(self).transfers.contains(u));
                    assert(old(self).transfers.at(u) == final(self).transfers.at(u));
                }
            }
        }
        Ok(t)
    }

    /// Submit an idle transfer. A record that holds the rendezvous receiver
    /// fails `Busy`: that covers both a submission still in flight and one
    /// whose completion already ran but was not yet awaited — the completed
    /// flag is set only by the completion of an in-flight context, so a
    /// record without a receiver cannot have completed and needs no flag
    /// consult. The direction is the high bit of the stored
    /// `bm_request_type` for control transfers and of the endpoint address
    /// otherwise. OUT submissions must carry exactly `buf_len` bytes (else
    /// `InvalidParam`), which are copied into the payload region; IN
    /// submissions ignore `data` and always succeed. On success the record's
    /// buffer moves into the returned in-flight context together with the
    /// rendezvous sender and the shared flag, the receiver is stored in the
    /// record, and the caller hands the context and buffer to the backend.
    pub fn submit_transfer(&mut self, transfer: u32, data: Vec<u8>) -> (r: Result<
        crate::transfer::TransferContext,
        LibusbError,
    >)
        requires
            old(self).wf(),
            old(self).transfers.contains(transfer),
        ensures
            final(self).wf(),
            r matches Err(e) ==> (e == LibusbError::Busy || e == LibusbError::InvalidParam)
                && *final(self) == *old(self),
            (old(self).transfers.at(transfer).receiver is Some) <==> r == Err::<
                crate::transfer::TransferContext,
                LibusbError,
            >(LibusbError::Busy),
            ({
                let rec = old(self).transfers.at(transfer);
                rec.receiver is None && !crate::transfer::spec_is_in(rec.kind,
                    rec.setup().bm_request_type, rec.endpoint) && data@.len() != rec.buf_len
            }) <==> r == Err::<crate::transfer::TransferContext, LibusbError>(
                LibusbError::InvalidParam,
            ),
            r matches Ok(ctx) ==> spec_submitted(*old(self), *final(self), transfer, data@, ctx),
            ({
                let rec = old(self).transfers.at(transfer);
                rec.receiver is None && (crate::transfer::spec_is_in(rec.kind,
                    rec.setup().bm_request_type, rec.endpoint) || data@.len() == rec.buf_len)
            }) ==> r matches Ok(_),
    {
        proof {
            assert(old(self).transfers.at(transfer).wf());
        }
        let rec = self.transfers.get(transfer);
        if rec.receiver.is_some() {
            return Err(LibusbError::Busy);
        }
        let setup = match rec.control_setup {
            Some(s) => s,
            None => unreached(),
        };
        let kind = rec.kind;
        let endpoint = rec.endpoint;
        let buf_len = rec.buf_len;
        let dir_in = crate::transfer::is_in_direction(kind, setup.bm_request_type, endpoint);
        if !dir_in && data.len() != buf_len as usize {
            return Err(LibusbError::InvalidParam);
        }
        let (sender, receiver) = crate::rendezvous::outcome_channel();
        let rec = self.transfers.get_mut(transfer);
        let buffer_taken = match rec.buffer.take() {
            Some(b) => b,
            None => unreached(),
        };
        rec.receiver = Some(receiver);
        let completed_shared = crate::rendezvous::share_flag(&rec.completed);
        let mut data = data;
        let flight: Vec<u8> = if dir_in {
            buffer_taken
        } else if matches!(kind, TransferType::Control) {
            let mut b: Vec<u8> = Vec::new();
            let mut k: usize = 0;
            while k < 8
                invariant
                    k <= 8,
                    buffer_taken@.len() >= 8,
                    b@ =~= buffer_taken@.subrange(0, k as int),
                decreases 8 - k,
            {
                b.push(buffer_taken[k]);
                proof {
                    assert(b@ =~= buffer_taken@.subrange(0, k as int + 1));
                }
                k += 1;
            }
            b.append(&mut data);
            b
        } else {
            data
        };
        let ctx = crate::transfer::TransferContext {
            sender,
            completed: completed_shared,
            buffer: flight,
            kind,
            endpoint,
            setup,
        };
        proof {
            assert forall|u: u32| final(self).transfers.contains(u) implies (#[trigger] final(self).transfers.at(u)).wf() by {
                if u != transfer {
                    assert(old(self).transfers.contains(u));
                    assert(old(self).transfers.at(u) == final(self).transfers.at(u));
                }
            }
        }
        Ok(ctx)
    }

    /// Dismantle a submission the backend refused: the buffer returns from
    /// the context into the record (nothing is in flight, restoring the
    /// record's invariant), the stored receiver is discarded, and the
    /// backend's negative code is mapped. The transfer can be submitted
    /// again.
    pub fn submit_aborted(
        &mut self,
        transfer: u32,
        ctx: crate::transfer::TransferContext,
        raw: i32,
    ) -> (r: LibusbError)
        requires
            old(self).wf(),
            old(self).transfers.contains(transfer),
            raw < 0,
            ctx.buffer@.len() == spec_total_len(
                old(self).transfers.at(transfer).kind,
                old(self).transfers.at(transfer).buf_len,
            ),
        ensures
            final(self).wf(),
            r == spec_from_raw(raw),
            final(self).transfers.contains(transfer),
            final(self).transfers.at(transfer).buffer == Some(ctx.buffer),
            final(self).transfers.at(transfer).receiver is None,
            final(self).transfers@ == old(self).transfers@.update(
                transfer as int,
                Some(final(self).transfers.at(transfer)),
            ),
            final(self).devices@ == old(self).devices@,
            final(self).handles@ == old(self).handles@,
            final(self).hotplug_queue@ == old(self).hotplug_queue@,
            final(self).initialized == old(self).initialized,
            final(self).hotplug_enabled == old(self).hotplug_enabled,
            policy_unchanged(*old(self), *final(self)),
    {
        proof {
            assert(old(self).transfers.at(transfer).wf());
        }
        let rec = self.transfers.get_mut(transfer);
        rec.buffer = Some(ctx.buffer);
        rec.receiver = None;
        proof {
            assert forall|u: u32| final(self).transfers.contains(u) implies (#[trigger] final(self).transfers.at(u)).wf() by {
                if u != transfer {
                    assert(old(self).transfers.contains(u));
                    assert(old(self).transfers.at(u) == final(self).transfers.at(u));
                }
            }
        }
        LibusbError::from_raw(raw)
    }

    /// Await a transfer's outcome. A record that was never submitted fails
    /// `NotFound` and stays in the table. Otherwise the call consumes the
    /// rendezvous receiver — suspending until the completion callback sends
    /// — removes the record from the table, and returns what
    /// `resolve_rendezvous` makes of the received value: the sent outcome
    /// unchanged, or `Interrupted` when the sender vanished without sending.
    /// At most one await ever observes a submission: the record is gone
    /// afterwards. This is the bridge's only suspending operation; an
    /// embedder must call it from an ordinary thread, never from inside an
    /// asynchronous executor, where the blocking receive would panic.
    pub fn await_transfer(&mut self, transfer: u32) -> (r: Result<Vec<u8>, LibusbError>)
        requires
            old(self).wf(),
            old(self).transfers.contains(transfer),
        ensures
            final(self).wf(),
            old(self).transfers.at(transfer).receiver is None ==> r == Err::<Vec<u8>, LibusbError>(
                LibusbError::NotFound,
            ) && *final(self) == *old(self),
            old(self).transfers.at(transfer).receiver is Some ==> spec_awaited(
                *old(self),
                *final(self),
                transfer,
            ),
    {
        let has_receiver = self.transfers.get(transfer).receiver.is_some();
        if !has_receiver {
            return Err(LibusbError::NotFound);
        }
        let receiver = {
            let rec = self.transfers.get_mut(transfer);
            match rec.receiver.take() {
                Some(x) => x,
                None => unreached(),
            }
        };
        let outcome = crate::rendezvous::outcome_receive(receiver);
        let _record = self.transfers.delete(transfer);
        proof {
            assert forall|u: u32| final(self).transfers.contains(u) implies (#[trigger] final(self).transfers.at(u)).wf() by {
                assert(old(self).transfers.contains(u));
                assert(old(self).transfers.at(u) == final(self).transfers.at(u));
            }
            assert(final(self).transfers@ =~= old(self).transfers@.update(transfer as int, None));
        }
        crate::transfer::resolve_rendezvous(outcome)
    }

    /// Decide a cancellation: `true` means the completion has not run yet
    /// and the caller must invoke the native cancel (mapping a negative
    /// answer through `LibusbError::from_raw`); `false` means the transfer
    /// already completed and cancellation succeeds with nothing to do. The
    /// completion itself still arrives through the callback, delivering
    /// `Interrupted` to the awaiter.
    pub fn cancel_transfer(&self, transfer: u32) -> (cancel_needed: bool)
        requires
            self.wf(),
            self.transfers.contains(transfer),
    {
        !self.transfers.get(transfer).completed.load(Ordering::SeqCst)
    }

    /// Drop a transfer record: remove it from the table and report whether
    /// a best-effort native cancel is still wanted (the completion had not
    /// run when the record was dropped). Errors of that cancel are
    /// swallowed by the caller, as a drop cannot fail.
    pub fn drop_transfer(&mut self, transfer: u32) -> (cancel_needed: bool)
        requires
            old(self).wf(),
        ensures
            final(self).wf(),
            old(self).transfers.contains(transfer) ==> final(self).transfers@ == old(self).transfers@.update(transfer as int, None),
            !old(self).transfers.contains(transfer) ==> *final(self) == *old(self)
                && !cancel_needed,
            final(self).devices@ == old(self).devices@,
            final(self).handles@ == old(self).handles@,
            final(self).hotplug_queue@ == old(self).hotplug_queue@,
            final(self).initialized == old(self).initialized,
            final(self).hotplug_enabled == old(self).hotplug_enabled,
            policy_unchanged(*old(self), *final(self)),
    {
        if self.transfers.has(transfer) {
            let record = self.transfers.delete(transfer);
            proof {
                assert forall|u: u32| final(self).transfers.contains(u) implies (#[trigger] final(self).transfers.at(u)).wf() by {
                    assert(old(self).transfers.contains(u));
                    assert(old(self).transfers.at(u) == final(self).transfers.at(u));
                }
            }
            !record.completed.load(Ordering::SeqCst)
        } else {
            false
        }
    }
}

/// The hot-plug event kind a raw native event code decodes to; unknown
/// codes are ignored by the callback.
pub open spec fn spec_event_from_raw(raw: i32) -> Option<Event> {
    if raw == 1 {
        Some(Event::Arrived)
    } else if raw == 2 {
        Some(Event::Left)
    } else {
        None
    }
}

/// Decode a raw native hot-plug event code.
pub fn event_from_raw(raw: i32) -> (r: Option<Event>)
    ensures
        r == spec_event_from_raw(raw),
{
    match raw {
        1 => Some(Event::Arrived),
        2 => Some(Event::Left),
        _ => None,
    }
}

/// Whether the hot-plug callback enqueues an event: the device descriptor
/// was readable, the policy allows the identity, and the event code is
/// known.
pub open spec fn spec_hotplug_admits(
    policy: AllowedUSBDevices,
    descriptor: Option<DeviceDescriptor>,
    raw_event: i32,
) -> bool {
    &&& descriptor matches Some(d) && policy.allows(
        USBDeviceIdentifier { vendor_id: d.vendor_id, product_id: d.product_id },
    )
    &&& spec_event_from_raw(raw_event) is Some
}

/// The queue entry built for an admitted hot-plug event.
pub open spec fn spec_hotplug_entry(
    native: u64,
    descriptor: Option<DeviceDescriptor>,
    bus: u8,
    address: u8,
    raw_event: i32,
) -> (Event, Info, UsbDevice) {
    (
        spec_event_from_raw(raw_event)->Some_0,
        Info {
            bus,
            address,
            vendor: descriptor->Some_0.vendor_id,
            product: descriptor->Some_0.product_id,
        },
        UsbDevice { native },
    )
}

/// The poll relation: the queued events come out in enqueue order, none
/// duplicated, none dropped; each queued device record moves from the queue
/// into the device table under a fresh handle; the queue is empty
/// afterwards; nothing else changes.
pub open spec fn spec_polled(pre: MyState, post: MyState, out: Seq<(Event, Info, u32)>) -> bool {
    &&& out.len() == pre.hotplug_queue@.len()
    &&& forall|k: int|
        0 <= k < out.len() ==> {
            &&& (#[trigger] out[k]).0 == pre.hotplug_queue@[k].0
            &&& out[k].1 == pre.hotplug_queue@[k].1
            &&& out[k].2 == pre.devices@.len() + k
            &&& post.devices.contains(out[k].2)
            &&& post.devices.at(out[k].2) == pre.hotplug_queue@[k].2
        }
    &&& post.hotplug_queue@.len() == 0
    &&& post.devices@ == pre.devices@ + pre.hotplug_queue@.map_values(
        |e: (Event, Info, UsbDevice)| Some(e.2),
    )
    &&& post.handles@ == pre.handles@
    &&& post.transfers@ == pre.transfers@
    &&& post.initialized == pre.initialized
    &&& post.hotplug_enabled == pre.hotplug_enabled
    &&& policy_unchanged(pre, post)
}

impl MyState {
    /// Register for hot-plug events. Idempotent once enabled. Fails
    /// `NotSupported` when the backend lacks the capability, `NotFound`
    /// before initialisation, and maps a negative registration answer;
    /// otherwise hot-plug is enabled. The caller keeps the native
    /// registration handle and must deregister it on teardown.
    pub fn enable_hotplug(&mut self, has_capability: bool, raw_register: i32) -> (r: Result<
        (),
        LibusbError,
    >)
        requires
            old(self).wf(),
        ensures
            final(self).wf(),
            old(self).hotplug_enabled ==> r == Ok::<(), LibusbError>(()) && *final(self) == *old(
                self,
            ),
            !old(self).hotplug_enabled && !has_capability ==> r == Err::<(), LibusbError>(
                LibusbError::NotSupported,
            ) && *final(self) == *old(self),
            !old(self).hotplug_enabled && has_capability && !old(self).initialized ==> r == Err::<
                (),
                LibusbError,
            >(LibusbError::NotFound) && *final(self) == *old(self),
            !old(self).hotplug_enabled && has_capability && old(self).initialized && raw_register
                < 0 ==> r == Err::<(), LibusbError>(spec_from_raw(raw_register)) && *final(self)
                == *old(self),
            !old(self).hotplug_enabled && has_capability && old(self).initialized && raw_register
                >= 0 ==> r == Ok::<(), LibusbError>(()) && final(self).hotplug_enabled,
            final(self).devices@ == old(self).devices@,
            final(self).handles@ == old(self).handles@,
            final(self).transfers@ == old(self).transfers@,
            final(self).hotplug_queue@ == old(self).hotplug_queue@,
            final(self).initialized == old(self).initialized,
            policy_unchanged(*old(self), *final(self)),
    {
        if self.hotplug_enabled {
            return Ok(());
        }
        if !has_capability {
            return Err(LibusbError::NotSupported);
        }
        if !self.initialized {
            return Err(LibusbError::NotFound);
        }
        if raw_register < 0 {
            return Err(LibusbError::from_raw(raw_register));
        }
        self.hotplug_enabled = true;
        Ok(())
    }

    /// The hot-plug callback's decision for one native event. The caller
    /// read the device descriptor (`None` when that failed) and, for an
    /// event that is admitted, counted the native device reference up
    /// before this call: the queue owns that reference until the guest's
    /// next poll. An admitted event — readable descriptor, identity
    /// allowed, known event code — is appended at the back of the queue;
    /// anything else leaves the bridge untouched.
    pub fn hotplug_event(
        &mut self,
        native: u64,
        descriptor: Option<DeviceDescriptor>,
        bus: u8,
        address: u8,
        raw_event: i32,
    ) -> (enqueued: bool)
        requires
            old(self).wf(),
        ensures
            final(self).wf(),
            enqueued == spec_hotplug_admits(old(self).allowed_usbdevices, descriptor, raw_event),
            enqueued ==> final(self).hotplug_queue@ == old(self).hotplug_queue@.push(
                spec_hotplug_entry(native, descriptor, bus, address, raw_event),
            ),
            !enqueued ==> *final(self) == *old(self),
            final(self).devices@ == old(self).devices@,
            final(self).handles@ == old(self).handles@,
            final(self).transfers@ == old(self).transfers@,
            final(self).initialized == old(self).initialized,
            final(self).hotplug_enabled == old(self).hotplug_enabled,
            policy_unchanged(*old(self), *final(self)),
    {
        let d = match descriptor {
            Some(d) => d,
            None => {
                return false;
            },
        };
        let id = USBDeviceIdentifier { vendor_id: d.vendor_id, product_id: d.product_id };
        if !self.allowed_usbdevices.is_allowed(&id) {
            return false;
        }
        let event = match event_from_raw(raw_event) {
            Some(event) => event,
            None => {
                return false;
            },
        };
        let info = Info { bus, address, vendor: d.vendor_id, product: d.product_id };
        self.hotplug_queue.push_back((event, info, UsbDevice { native }));
        true
    }

    /// Drain the hot-plug queue: every queued event is returned in enqueue
    /// order, its device record moves into the device table, and the fresh
    /// device handle replaces it in the returned triple. Never fails; an
    /// empty queue yields an empty list.
    pub fn poll_events(&mut self) -> (r: Vec<(Event, Info, u32)>)
        requires
            old(self).wf(),
            old(self).devices@.len() + old(self).hotplug_queue@.len() <= u32::MAX,
        ensures
            final(self).wf(),
            spec_polled(*old(self), *final(self), r@),
    {
        let ghost pre_queue = self.hotplug_queue@;
        let ghost pre_devices = self.devices@;
        let ghost pre_handles = self.handles@;
        let ghost pre_transfers = self.transfers@;
        let ghost pre_init = self.initialized;
        let ghost pre_enabled = self.hotplug_enabled;
        let ghost policy = self.allowed_usbdevices;
        let mut out: Vec<(Event, Info, u32)> = Vec::new();
        while self.hotplug_queue.len() > 0
            invariant
                self.wf(),
                out@.len() <= pre_queue.len(),
                self.hotplug_queue@ == pre_queue.skip(out@.len() as int),
                self.devices@ == pre_devices + pre_queue.take(out@.len() as int).map_values(
                    |e: (Event, Info, UsbDevice)| Some(e.2),
                ),
                forall|k: int|
                    0 <= k < out@.len() ==> {
                        &&& (#[trigger] out@[k]).0 == pre_queue[k].0
                        &&& out@[k].1 == pre_queue[k].1
                        &&& out@[k].2 == pre_devices.len() + k
                    },
                pre_devices.len() + pre_queue.len() <= u32::MAX,
                self.handles@ == pre_handles,
                self.transfers@ == pre_transfers,
                self.initialized == pre_init,
                self.hotplug_enabled == pre_enabled,
                self.allowed_usbdevices == policy,
            decreases self.hotplug_queue@.len(),
        {
            let ghost n = out@.len() as int;
            let (event, info, device) = match self.hotplug_queue.pop_front() {
                Some(entry) => entry,
                None => unreached(),
            };
            proof {
                assert(pre_queue.skip(n).drop_first() =~= pre_queue.skip(n + 1));
                assert(pre_queue.skip(n)[0] == pre_queue[n]);
            }
            let handle = self.devices.push(device);
            out.push((event, info, handle));
            proof {
                assert(pre_queue.take(n + 1).drop_last() =~= pre_queue.take(n));
                assert(pre_queue.take(n + 1).map_values(
                    |e: (Event, Info, UsbDevice)| Some(e.2),
                ) =~= pre_queue.take(n).map_values(|e: (Event, Info, UsbDevice)| Some(e.2)) + seq![
                    Some(pre_queue[n].2),
                ]);
                assert(self.devices@ =~= pre_devices + pre_queue.take(n + 1).map_values(
                    |e: (Event, Info, UsbDevice)| Some(e.2),
                ));
            }
        }
        proof {
            assert(pre_queue.take(pre_queue.len() as int) =~= pre_queue);
            assert forall|k: int| 0 <= k < out@.len() implies {
                &&& self.devices.contains(#[trigger] out@[k].2)
                &&& self.devices.at(out@[k].2) == pre_queue[k].2
            } by {
                assert(self.devices@[pre_devices.len() + k] == Some(pre_queue[k].2));
            }
        }
        out
    }
}

/// What teardown directs the host shim to do with its native resources.
#[derive(Clone, Copy, Debug, PartialEq, Eq, Structural)]
pub struct TeardownActions {
    /// The hot-plug callback registration must be deregistered.
    pub deregister_hotplug: bool,
    /// The event pump must stop: clear its run flag, join the thread, and
    /// shut the backend down.
    pub stop_event_pump: bool,
}

impl MyState {
    /// Tear the bridge down. The returned actions direct the host shim:
    /// deregister the hot-plug callback exactly when one was registered,
    /// and stop the event pump exactly when the backend was initialised.
    /// Idempotent — a second teardown directs nothing. Records still in the
    /// tables keep their usual release paths (close, drop, the queue's
    /// hand-over on poll).
    pub fn teardown(&mut self) -> (r: TeardownActions)
        requires
            old(self).wf(),
        ensures
            final(self).wf(),
            r.deregister_hotplug == old(self).hotplug_enabled,
            r.stop_event_pump == old(self).initialized,
            !final(self).initialized,
            !final(self).hotplug_enabled,
            final(self).devices@ == old(self).devices@,
            final(self).handles@ == old(self).handles@,
            final(self).transfers@ == old(self).transfers@,
            final(self).hotplug_queue@ == old(self).hotplug_queue@,
            policy_unchanged(*old(self), *final(self)),
    {
        let actions = TeardownActions {
            deregister_hotplug: self.hotplug_enabled,
            stop_event_pump: self.initialized,
        };
        self.hotplug_enabled = false;
        self.initialized = false;
        actions
    }
}

/// The enumeration relation: `out` lists exactly the admitted entries of
/// the snapshot, in order, each adopted into the device table under a fresh
/// handle, and `out.released` lists exactly the skipped entries' native
/// references, in order.
pub open spec fn spec_enumerated(
    pre: MyState,
    post: MyState,
    entries: Seq<DeviceEntry>,
    out: ListDevicesOutcome,
) -> bool {
    let policy = pre.allowed_usbdevices;
    let admitted = entries.filter(|e: DeviceEntry| spec_admitted(policy, e));
    let rejected = entries.filter(|e: DeviceEntry| !spec_admitted(policy, e));
    &&& out.devices@.len() == admitted.len()
    &&& forall|k: int|
        0 <= k < admitted.len() ==> {
            &&& (#[trigger] out.devices@[k]).0 == pre.devices@.len() + k
            &&& out.devices@[k].1 == admitted[k].descriptor->Some_0
            &&& out.devices@[k].2 == spec_location(admitted[k])
            &&& post.devices.contains(out.devices@[k].0)
            &&& post.devices.at(out.devices@[k].0).native == admitted[k].native
        }
    &&& out.released@ == rejected.map_values(|e: DeviceEntry| e.native)
    &&& post.devices@ == pre.devices@ + admitted.map_values(
        |e: DeviceEntry| Some(UsbDevice { native: e.native }),
    )
}

} // verus!
