//! USB host controller data.
//!
//! The host controller itself is reached through firmware calls that
//! cannot live here; this module holds the plain values those calls
//! produce and the checked assembly of the capability report.

use vstd::prelude::*;

verus! {

/// The data transfer speed of a USB device or controller.
#[derive(Clone, Copy, Debug, PartialEq, Eq, Structural)]
pub struct Speed(pub u8);

impl Speed {
    /// Raw value for full-speed operation.
    pub const FULL: u8 = 0;

    /// Raw value for low-speed operation.
    pub const LOW: u8 = 1;

    /// Raw value for high-speed operation.
    pub const HIGH: u8 = 2;

    /// Raw value for super-speed operation.
    pub const SUPER: u8 = 3;
}

/// A USB2 host controller as the firmware advertises it: the revision of
/// the USB specification it implements.
///
/// The controller's callable surface (reset, state changes, port
/// control) goes through firmware calls that cannot live here; this type
/// carries the plain values read from the protocol structure.
#[derive(Clone, Copy, Debug)]
pub struct Usb2HostController {
    major_revision: u16,
    minor_revision: u16,
}

impl Usb2HostController {
    /// Record a controller's revision fields as the firmware reported
    /// them.
    pub fn new(major_revision: u16, minor_revision: u16) -> (r: Self)
        ensures
            r.spec_major_revision() == major_revision,
            r.spec_minor_revision() == minor_revision,
    {
        Usb2HostController { major_revision, minor_revision }
    }

    /// The recorded major revision.
    pub closed spec fn spec_major_revision(&self) -> u16 {
        self.major_revision
    }

    /// The recorded minor revision.
    pub closed spec fn spec_minor_revision(&self) -> u16 {
        self.minor_revision
    }

    /// Returns the major revision of the USB host controller.
    pub fn major_revision(&self) -> (r: u16)
        ensures
            r == self.spec_major_revision(),
    {
        self.major_revision
    }

    /// Returns the minor revision of the USB host controller.
    pub fn minor_revision(&self) -> (r: u16)
        ensures
            r == self.spec_minor_revision(),
    {
        self.minor_revision
    }
}

/// The capabilities of a USB host controller.
#[derive(Clone, Copy, Debug, PartialEq, Eq, Structural)]
pub struct Capabilities {
    /// The data transfer speed of the USB host controller.
    pub max_speed: Speed,
    /// The number of root hub ports.
    pub port_count: u8,
    /// Indicates whether the USB host controller is capable of 64-bit
    /// memory addressing.
    pub is_64_bit_capable: bool,
}

impl Capabilities {
    /// Assemble a capability report from the three raw values a
    /// controller query fills in: the 64-bit flag is set exactly when
    /// the raw byte is non-zero.
    pub fn from_raw(max_speed: Speed, port_count: u8, is_64_bit_capable: u8) -> (r: Capabilities)
        ensures
            r.max_speed == max_speed,
            r.port_count == port_count,
            r.is_64_bit_capable == (is_64_bit_capable != 0),
    {
        Capabilities { max_speed, port_count, is_64_bit_capable: is_64_bit_capable != 0 }
    }
}

} // verus!
