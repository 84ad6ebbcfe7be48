//! Plain data types shared by the protocol definitions.

use vstd::prelude::*;

verus! {

/// An IPv4 or IPv6 internet protocol address, stored as its raw bytes.
#[derive(Clone, Copy, Debug)]
pub struct IpAddress(pub [u8; 16]);

/// A MAC (media access control) address.
#[derive(Clone, Copy, Debug)]
pub struct MacAddress(pub [u8; 32]);

/// One byte of a Latin-1 string.
#[derive(Clone, Copy, Debug, PartialEq, Eq, Structural)]
pub struct Char8(pub u8);

} // verus!
