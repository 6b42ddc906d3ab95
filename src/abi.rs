//! Fixed values and request shapes of the Linux network-interface control ABI.
use vstd::prelude::*;

verus! {

/// Capacity of an interface-name buffer, terminator included.
pub const IFNAMSIZ: usize = 16;

/// Attach flag selecting a TUN (raw IP) device.
pub const IFF_TUN: i16 = 0x0001;

/// Attach flag selecting a TAP (raw Ethernet) device.
pub const IFF_TAP: i16 = 0x0002;

/// Interface flag: administratively up.
pub const IFF_UP: i16 = 0x0001;

/// Interface flag: resources allocated, running.
pub const IFF_RUNNING: i16 = 0x0040;

/// Largest frame handed to or taken from the device in one read or write.
pub const MTU_SIZE: usize = 1500;

/// Prefix length installed with an address.
pub const DEFAULT_PREFIX_LEN: u32 = 8;

/// Name plus flags: used to attach the device and to get or set interface flags.
#[derive(Clone, Copy, Debug)]
pub struct FlagsRequest {
    pub name: [u8; 16],
    pub flags: i16,
}

/// Name plus index: used to look up the interface index.
#[derive(Clone, Copy, Debug)]
pub struct IndexRequest {
    pub name: [u8; 16],
    pub index: i32,
}

/// IPv6 address as eight 16-bit words, prefix length and interface index:
/// used to install an address.
#[derive(Clone, Copy, Debug)]
pub struct AddressRequest {
    pub words: [u16; 8],
    pub prefix_len: u32,
    pub index: i32,
}

} // verus!
