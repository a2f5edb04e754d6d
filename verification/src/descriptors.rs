//! Descriptor values handed to the guest.
//!
//! Layouts follow USB 2.0. Descriptors arrive from the native backend as
//! plain field values (the backend's own descriptor structures are read at
//! the boundary); this module turns them into the owned, nested values the
//! guest receives. The configuration walk flattens each interface's
//! alternate settings in order, exactly as the backend presents them.

use vstd::prelude::*;

verus! {

/// The 18-byte USB device descriptor, as plain fields.
#[derive(Clone, Copy, Debug, PartialEq, Eq, Structural)]
pub struct DeviceDescriptor {
    pub length: u8,
    pub descriptor_type: u8,
    pub usb_version_bcd: u16,
    pub device_class: u8,
    pub device_subclass: u8,
    pub device_protocol: u8,
    pub max_packet_size0: u8,
    pub vendor_id: u16,
    pub product_id: u16,
    pub device_version_bcd: u16,
    pub manufacturer_index: u8,
    pub product_index: u8,
    pub serial_number_index: u8,
    pub num_configurations: u8,
}

/// An endpoint descriptor.
#[derive(Clone, Copy, Debug, PartialEq, Eq, Structural)]
pub struct EndpointDescriptor {
    pub length: u8,
    pub descriptor_type: u8,
    pub endpoint_address: u8,
    pub attributes: u8,
    pub max_packet_size: u16,
    pub interval: u8,
    pub refresh: u8,
    pub synch_address: u8,
}

/// One alternate setting of an interface, with its endpoints.
#[derive(Clone, Debug, PartialEq, Eq)]
pub struct InterfaceDescriptor {
    pub length: u8,
    pub descriptor_type: u8,
    pub interface_number: u8,
    pub alternate_setting: u8,
    pub interface_class: u8,
    pub interface_subclass: u8,
    pub interface_protocol: u8,
    pub interface_index: u8,
    pub endpoints: Vec<EndpointDescriptor>,
}

/// A configuration descriptor with its flattened interface list.
#[derive(Clone, Debug, PartialEq, Eq)]
pub struct ConfigurationDescriptor {
    pub length: u8,
    pub descriptor_type: u8,
    pub total_length: u16,
    pub configuration_value: u8,
    pub configuration_index: u8,
    pub attributes: u8,
    pub max_power: u8,
    pub interfaces: Vec<InterfaceDescriptor>,
}

/// The connection speed the backend reports for a device.
#[derive(Clone, Copy, Debug, PartialEq, Eq, Structural)]
pub enum UsbSpeed {
    Unknown,
    Low,
    Full,
    High,
    Super,
    SuperPlus,
    SuperPlusX2,
}

/// What `UsbSpeed::from_raw` returns for each raw speed code.
pub open spec fn spec_speed_from_raw(value: u8) -> UsbSpeed {
    if value == 1 {
        UsbSpeed::Low
    } else if value == 2 {
        UsbSpeed::Full
    } else if value == 3 {
        UsbSpeed::High
    } else if value == 4 {
        UsbSpeed::Super
    } else if value == 5 {
        UsbSpeed::SuperPlus
    } else if value == 6 {
        UsbSpeed::SuperPlusX2
    } else {
        UsbSpeed::Unknown
    }
}

impl UsbSpeed {
    /// Convert the backend's raw speed code; unknown codes map to `Unknown`.
    pub fn from_raw(value: u8) -> (r: UsbSpeed)
        ensures
            r == spec_speed_from_raw(value),
    {
        match value {
            1 => UsbSpeed::Low,
            2 => UsbSpeed::Full,
            3 => UsbSpeed::High,
            4 => UsbSpeed::Super,
            5 => UsbSpeed::SuperPlus,
            6 => UsbSpeed::SuperPlusX2,
            _ => UsbSpeed::Unknown,
        }
    }
}

/// Where a device sits on the bus.
#[derive(Clone, Copy, Debug, PartialEq, Eq, Structural)]
pub struct DeviceLocation {
    pub bus_number: u8,
    pub device_address: u8,
    pub port_number: u8,
    pub speed: UsbSpeed,
}

/// An endpoint as the backend's configuration walk yields it.
#[derive(Clone, Copy, Debug, PartialEq, Eq, Structural)]
pub struct RawEndpoint {
    pub length: u8,
    pub descriptor_type: u8,
    pub endpoint_address: u8,
    pub attributes: u8,
    pub max_packet_size: u16,
    pub interval: u8,
    pub refresh: u8,
    pub synch_address: u8,
}

/// One alternate setting as the backend yields it.
#[derive(Clone, Debug)]
pub struct RawAltSetting {
    pub length: u8,
    pub descriptor_type: u8,
    pub interface_number: u8,
    pub alternate_setting: u8,
    pub interface_class: u8,
    pub interface_subclass: u8,
    pub interface_protocol: u8,
    pub interface_index: u8,
    pub endpoints: Vec<RawEndpoint>,
}

/// One interface as the backend yields it: its alternate settings in order.
#[derive(Clone, Debug)]
pub struct RawInterface {
    pub altsettings: Vec<RawAltSetting>,
}

/// A configuration as the backend yields it.
#[derive(Clone, Debug)]
pub struct RawConfig {
    pub length: u8,
    pub descriptor_type: u8,
    pub total_length: u16,
    pub configuration_value: u8,
    pub configuration_index: u8,
    pub attributes: u8,
    pub max_power: u8,
    pub interfaces: Vec<RawInterface>,
}

/// The owned endpoint value for one raw endpoint.
pub open spec fn endpoint_of(e: RawEndpoint) -> EndpointDescriptor {
    EndpointDescriptor {
        length: e.length,
        descriptor_type: e.descriptor_type,
        endpoint_address: e.endpoint_address,
        attributes: e.attributes,
        max_packet_size: e.max_packet_size,
        interval: e.interval,
        refresh: e.refresh,
        synch_address: e.synch_address,
    }
}

/// The owned interface value built from one alternate setting.
pub open spec fn matches_alt(itf: InterfaceDescriptor, a: RawAltSetting) -> bool {
    &&& itf.length == a.length
    &&& itf.descriptor_type == a.descriptor_type
    &&& itf.interface_number == a.interface_number
    &&& itf.alternate_setting == a.alternate_setting
    &&& itf.interface_class == a.interface_class
    &&& itf.interface_subclass == a.interface_subclass
    &&& itf.interface_protocol == a.interface_protocol
    &&& itf.interface_index == a.interface_index
    &&& itf.endpoints@ == a.endpoints@.map_values(|e: RawEndpoint| endpoint_of(e))
}

/// All alternate settings of all interfaces, in backend order.
pub open spec fn flat_altsettings(interfaces: Seq<RawInterface>) -> Seq<RawAltSetting>
    decreases interfaces.len(),
{
    if interfaces.len() == 0 {
        Seq::empty()
    } else {
        flat_altsettings(interfaces.drop_last()) + interfaces.last().altsettings@
    }
}

/// The guest value built from one raw configuration: scalar fields copied,
/// interfaces flattened over their alternate settings in order.
pub open spec fn matches_config(r: ConfigurationDescriptor, raw: RawConfig) -> bool {
    &&& r.length == raw.length
    &&& r.descriptor_type == raw.descriptor_type
    &&& r.total_length == raw.total_length
    &&& r.configuration_value == raw.configuration_value
    &&& r.configuration_index == raw.configuration_index
    &&& r.attributes == raw.attributes
    &&& r.max_power == raw.max_power
    &&& r.interfaces@.len() == flat_altsettings(raw.interfaces@).len()
    &&& forall|k: int|
        0 <= k < r.interfaces@.len() ==> matches_alt(
            #[trigger] r.interfaces@[k],
            flat_altsettings(raw.interfaces@)[k],
        )
}

/// Build the owned configuration value the guest receives: one interface
/// entry per alternate setting, walked interface by interface, setting by
/// setting, endpoint by endpoint.
pub fn generate_config_descriptor(raw: &RawConfig) -> (r: ConfigurationDescriptor)
    ensures
        matches_config(r, *raw),
{
    let mut interfaces: Vec<InterfaceDescriptor> = Vec::new();
    let mut i: usize = 0;
    while i < raw.interfaces.len()
        invariant
            i <= raw.interfaces@.len(),
            interfaces@.len() == flat_altsettings(raw.interfaces@.take(i as int)).len(),
            forall|k: int|
                0 <= k < interfaces@.len() ==> matches_alt(
                    #[trigger] interfaces@[k],
                    flat_altsettings(raw.interfaces@.take(i as int))[k],
                ),
        decreases raw.interfaces@.len() - i,
    {
        let interface = &raw.interfaces[i];
        let ghost pre_flat = flat_altsettings(raw.interfaces@.take(i as int));
        let ghost post_flat = flat_altsettings(raw.interfaces@.take(i + 1 as int));
        proof {
            assert(raw.interfaces@.take(i + 1 as int).drop_last() =~= raw.interfaces@.take(
                i as int,
            ));
            assert(post_flat =~= pre_flat + interface.altsettings@);
        }
        let mut j: usize = 0;
        while j < interface.altsettings.len()
            invariant
                j <= interface.altsettings@.len(),
                interfaces@.len() == pre_flat.len() + j,
                post_flat =~= pre_flat + interface.altsettings@,
                forall|k: int|
                    0 <= k < interfaces@.len() ==> matches_alt(
                        #[trigger] interfaces@[k],
                        (pre_flat + interface.altsettings@)[k],
                    ),
            decreases interface.altsettings@.len() - j,
        {
            let alt = &interface.altsettings[j];
            let mut endpoints: Vec<EndpointDescriptor> = Vec::new();
            let mut k: usize = 0;
            while k < alt.endpoints.len()
                invariant
                    k <= alt.endpoints@.len(),
                    endpoints@ == alt.endpoints@.take(k as int).map_values(
                        |e: RawEndpoint| endpoint_of(e),
                    ),
                decreases alt.endpoints@.len() - k,
            {
                let e = &alt.endpoints[k];
                endpoints.push(
                    EndpointDescriptor {
                        length: e.length,
                        descriptor_type: e.descriptor_type,
                        endpoint_address: e.endpoint_address,
                        attributes: e.attributes,
                        max_packet_size: e.max_packet_size,
                        interval: e.interval,
                        refresh: e.refresh,
                        synch_address: e.synch_address,
                    },
                );
                proof {
                    assert(alt.endpoints@.take(k + 1 as int).map_values(
                        |e: RawEndpoint| endpoint_of(e),
                    ) =~= alt.endpoints@.take(k as int).map_values(|e: RawEndpoint| endpoint_of(e))
                        + seq![endpoint_of(alt.endpoints@[k as int])]);
                }
                k += 1;
            }
            proof {
                assert(alt.endpoints@.take(alt.endpoints@.len() as int) =~= alt.endpoints@);
            }
            interfaces.push(
                InterfaceDescriptor {
                    length: alt.length,
                    descriptor_type: alt.descriptor_type,
                    interface_number: alt.interface_number,
                    alternate_setting: alt.alternate_setting,
                    interface_class: alt.interface_class,
                    interface_subclass: alt.interface_subclass,
                    interface_protocol: alt.interface_protocol,
                    interface_index: alt.interface_index,
                    endpoints,
                },
            );
            j += 1;
        }
        i += 1;
    }
    proof {
        assert(raw.interfaces@.take(raw.interfaces@.len() as int) =~= raw.interfaces@);
    }
    ConfigurationDescriptor {
        length: raw.length,
        descriptor_type: raw.descriptor_type,
        total_length: raw.total_length,
        configuration_value: raw.configuration_value,
        configuration_index: raw.configuration_index,
        attributes: raw.attributes,
        max_power: raw.max_power,
        interfaces,
    }
}

} // verus!
