//! Reading UEFI device paths: packed, variable-length, self-describing
//! binary lists of nodes, walked without knowing their total length in
//! advance.
//!
//! The core of the crate is [`device_path`], which decodes a byte region
//! into safely traversable path, instance and node views. Supporting
//! modules carry the surrounding protocol data structures and the common
//! error type.

pub mod context;
pub mod data_types;
pub mod device_path;
pub mod disk;
pub mod end;
pub mod error;
pub mod pxe;
pub mod usb;

pub use device_path::{
    ByteConversionError, DevicePath, DevicePathHeader, DevicePathInstance,
    DevicePathInstanceIterator, DevicePathNode, DevicePathNodeEnum, DevicePathNodeIterator,
    DeviceSubType, DeviceType, NodeConversionError,
};
pub use error::{Error, Status};
