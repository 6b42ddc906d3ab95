//! The created interface: kind, kernel-confirmed name and index, and the
//! decisions and requests of its configuration and packet operations.
use vstd::prelude::*;
use crate::abi::{
    AddressRequest, FlagsRequest, DEFAULT_PREFIX_LEN, IFF_RUNNING, IFF_TAP, IFF_TUN, IFF_UP,
    MTU_SIZE,
};
use crate::name::{is_name_of, name_bytes, terminated};

verus! {

/// Which kind of virtual device to attach.
#[derive(Debug, Copy, Clone, PartialEq, Eq, Hash, Structural)]
pub enum TunTapType {
    Tun,
    Tap,
}

/// Why an operation on an interface failed. Variants that carry an `i32`
/// hold the operating system's error code.
#[derive(Debug, Copy, Clone, PartialEq, Eq, Structural)]
pub enum TunTapError {
    NameTooLong,
    DeviceOpenFailed(i32),
    AttachFailed(i32),
    NameNotTerminated,
    SocketCreateFailed(i32),
    IndexResolveFailed(i32),
    FlagsQueryFailed(i32),
    AddressAssignFailed(i32),
    UnsupportedAddressFamily,
    InvalidAddressLength,
    BufferTooSmall,
}

pub open spec fn attach_flags_spec(kind: TunTapType) -> i16 {
    match kind {
        TunTapType::Tun => IFF_TUN,
        TunTapType::Tap => IFF_TAP,
    }
}

/// The attach flag for a kind of device.
pub fn attach_flags(kind: TunTapType) -> (r: i16)
    ensures
        r == attach_flags_spec(kind),
{
    match kind {
        TunTapType::Tun => IFF_TUN,
        TunTapType::Tap => IFF_TAP,
    }
}

/// Flags that show the interface up: both the up bit and the running bit set.
pub open spec fn shows_up(flags: i16) -> bool {
    (flags & IFF_UP) != 0 && (flags & IFF_RUNNING) != 0
}

/// The flags to write to bring an interface up, or `None` when it already is.
pub open spec fn up_flags_spec(flags: i16) -> Option<i16> {
    if shows_up(flags) {
        None
    } else {
        Some(flags | IFF_UP | IFF_RUNNING)
    }
}

/// Word `i` of an IPv6 address: bytes `2i` and `2i + 1` read as a big-endian 16-bit value.
pub open spec fn address_word(ip: Seq<u8>, i: int) -> u16 {
    (ip[2 * i] as int * 256 + ip[2 * i + 1] as int) as u16
}

/// The words of a 16-byte address.
pub open spec fn address_words(ip: Seq<u8>) -> Seq<u16> {
    Seq::new(8, |i: int| address_word(ip, i))
}

/// Bringing an interface up twice in succession: once the first call has
/// written its flags, the second finds the interface up and asks to write
/// nothing; and flags that already show the interface up are never rewritten.
pub proof fn lemma_up_idempotent(flags: i16)
    ensures
        shows_up(flags) ==> up_flags_spec(flags) is None,
        up_flags_spec(flags) matches Some(written) ==> shows_up(written) && up_flags_spec(written) is None,
{
    let w = flags | IFF_UP | IFF_RUNNING;
    assert((w & 1i16) != 0 && (w & 0x40i16) != 0) by (bit_vector)
        requires
            w == flags | 1i16 | 0x40i16,
    ;
}

/// A created interface: its kind, the name the kernel confirmed, and its index.
pub struct TunTap {
    pub(crate) kind: TunTapType,
    pub(crate) if_name: [u8; 16],
    pub(crate) if_index: i32,
}

impl TunTap {
    /// The name buffer holds a name.
    pub open spec fn wf(&self) -> bool {
        terminated(self.name_buf())
    }

    pub closed spec fn kind_spec(&self) -> TunTapType {
        self.kind
    }

    /// The name buffer, as the kernel answered it.
    pub closed spec fn name_buf(&self) -> Seq<u8> {
        self.if_name@
    }

    pub closed spec fn index_spec(&self) -> i32 {
        self.if_index
    }

    pub(crate) fn new(kind: TunTapType, if_name: [u8; 16], if_index: i32) -> (r: TunTap)
        ensures
            r.kind_spec() == kind,
            r.name_buf() == if_name@,
            r.index_spec() == if_index,
    {
        TunTap { kind, if_name, if_index }
    }

    /// The kind of device this interface was attached as.
    pub fn kind(&self) -> (r: TunTapType)
        ensures
            r == self.kind_spec(),
    {
        self.kind
    }

    /// The interface index the kernel assigned.
    pub fn index(&self) -> (r: i32)
        ensures
            r == self.index_spec(),
    {
        self.if_index
    }

    /// The kernel-confirmed name, without its terminator.
    pub fn get_name(&self) -> (r: Vec<u8>)
        requires
            self.wf(),
        ensures
            is_name_of(self.name_buf(), r@),
    {
        name_bytes(&self.if_name)
    }

    /// The request that reads the interface's current flags.
    pub fn flags_query(&self) -> (r: FlagsRequest)
        ensures
            r.name@ == self.name_buf(),
            r.flags == 0,
    {
        FlagsRequest { name: self.if_name, flags: 0 }
    }

    /// Given the interface's current flags, the request that brings it up
    /// (up and running bits added), or `None` when both bits are already set.
    pub fn up(&self, current: i16) -> (r: Option<FlagsRequest>)
        ensures
            r is None <==> up_flags_spec(current) is None,
            r matches Some(q) ==> q.name@ == self.name_buf() && Some(q.flags) == up_flags_spec(current),
    {
        if (current & IFF_UP) != 0 && (current & IFF_RUNNING) != 0 {
            None
        } else {
            Some(FlagsRequest { name: self.if_name, flags: current | IFF_UP | IFF_RUNNING })
        }
    }

    /// Validates a raw address and packs it for installation on this interface.
    /// Four bytes (IPv4) are not supported; any length other than 4 or 16 is invalid.
    pub fn add_address(&self, ip: &[u8]) -> (r: Result<AddressRequest, TunTapError>)
        ensures
            ip@.len() == 4 ==> r == Err::<AddressRequest, TunTapError>(
                TunTapError::UnsupportedAddressFamily,
            ),
            ip@.len() != 4 && ip@.len() != 16 ==> r == Err::<AddressRequest, TunTapError>(
                TunTapError::InvalidAddressLength,
            ),
            ip@.len() == 16 ==> (r matches Ok(q) && q.words@ == address_words(ip@)
                && q.prefix_len == DEFAULT_PREFIX_LEN && q.index == self.index_spec()),
    {
        if ip.len() == 4 {
            return Err(TunTapError::UnsupportedAddressFamily);
        }
        if ip.len() != 16 {
            return Err(TunTapError::InvalidAddressLength);
        }
        let mut words = [0u16; 8];
        let mut i: usize = 0;
        while i < 8
            invariant
                i <= 8,
                ip@.len() == 16,
                words@.len() == 8,
                forall|j: int| 0 <= j < i ==> words@[j] == address_word(ip@, j),
            decreases 8 - i,
        {
            words[i] = (ip[2 * i] as u16) * 256 + ip[2 * i + 1] as u16;
            i = i + 1;
        }
        assert(words@ =~= address_words(ip@));
        Ok(AddressRequest { words, prefix_len: DEFAULT_PREFIX_LEN, index: self.if_index })
    }
}

/// Checks that a read buffer can take a whole frame of `MTU_SIZE` bytes.
pub fn check_read_buffer(len: usize) -> (r: Result<(), TunTapError>)
    ensures
        r is Ok <==> len >= MTU_SIZE,
        r is Err ==> r == Err::<(), TunTapError>(TunTapError::BufferTooSmall),
{
    if len >= MTU_SIZE {
        Ok(())
    } else {
        Err(TunTapError::BufferTooSmall)
    }
}

} // verus!
