//! Verified core of a TUN/TAP interface handle: kernel request construction,
//! interface naming, the bring-up decision, IPv6 address packing, and the
//! creation sequence with rollback of partially acquired descriptors.
pub mod abi;
pub mod iface;
pub mod name;
pub mod setup;

pub use abi::{AddressRequest, FlagsRequest, IndexRequest, IFNAMSIZ, MTU_SIZE};
pub use iface::{check_read_buffer, TunTap, TunTapError, TunTapType};
pub use setup::{Action, Creation, Reply};
