//! Host-side USB virtualization bridge.
//!
//! The bridge lets a sandboxed guest drive USB devices through a
//! capability-scoped, handle-based interface: device enumeration under an
//! allow/deny policy, configuration and interface operations, a hot-plug
//! event queue, and an asynchronous transfer engine for all four USB
//! transfer types.
//!
//! Everything the bridge decides — error mapping, policy filtering, handle
//! bookkeeping, setup-packet packing, buffer ownership, completion decoding,
//! event ordering — is verified here. The native USB backend and the sandbox
//! runtime are outside collaborators: their answers (raw result codes,
//! descriptor data, completion reports) enter the bridge as plain values,
//! and the bridge's contracts state exactly what is done with every such
//! answer.

pub mod bridge;
pub mod descriptors;
pub mod errors;
pub mod laws;
pub mod policy;
pub mod rendezvous;
pub mod table;
pub mod transfer;

pub use bridge::DeviceEntry;
pub use bridge::Event;
pub use bridge::Info;
pub use bridge::ListDevicesOutcome;
pub use bridge::MyState;
pub use bridge::TeardownActions;
pub use bridge::UsbDevice;
pub use bridge::UsbDeviceHandle;
pub use bridge::UsbTransfer;
pub use descriptors::ConfigurationDescriptor;
pub use descriptors::DeviceDescriptor;
pub use descriptors::DeviceLocation;
pub use descriptors::EndpointDescriptor;
pub use descriptors::InterfaceDescriptor;
pub use descriptors::RawAltSetting;
pub use descriptors::RawConfig;
pub use descriptors::RawEndpoint;
pub use descriptors::RawInterface;
pub use descriptors::UsbSpeed;
pub use errors::LibusbError;
pub use policy::AllowedUSBDevices;
pub use policy::USBDeviceIdentifier;
pub use transfer::Completion;
pub use transfer::ConfigValue;
pub use transfer::TransferContext;
pub use transfer::TransferOptions;
pub use transfer::TransferSetup;
pub use transfer::TransferType;
pub use transfer::complete_transfer;
pub use transfer::decode_completion;
pub use transfer::resolve_rendezvous;
