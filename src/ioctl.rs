//! Device-control request codes of the readiness-based backend.
//!
//! A request code packs a transfer direction, the size of the argument, a group
//! letter and a number, as the BSD `_IO` / `_IOW` macros lay them out.
use vstd::prelude::*;

verus! {

/// Direction bits of a request that carries no argument.
pub const IOC_VOID: u64 = 0x2000_0000;

/// Direction bits of a request that passes its argument to the kernel.
pub const IOC_IN: u64 = 0x8000_0000;

/// Direction bits of a request that passes its argument both ways.
pub const IOC_INOUT: u64 = 0xc000_0000;

/// The bits of the argument size that a request code keeps.
pub const IOCPARM_MASK: u64 = 0x1fff;

/// Size of the `int` argument of the tun and descriptor requests.
pub const INT_SIZE: u64 = 4;

/// Size of the interface request record passed to the destroy request.
pub const IFREQ_SIZE: u64 = 32;

/// `_IO('t', 95)`: attach the tun device to the calling process.
pub const TUNSIFPID: u64 = 0x2000_745f;

/// `_IOW('t', 96, int)`: prefix each packet with its address family.
pub const TUNSIFHEAD: u64 = 0x8004_7460;

/// `_IOW('t', 94, int)`: set the interface mode flags of a tun device.
pub const TUNSIFMODE: u64 = 0x8004_745e;

/// `_IOW('f', 126, int)`: set or clear non-blocking I/O on a descriptor.
pub const FIONBIO: u64 = 0x8004_667e;

/// `_IOW('i', 121, struct ifreq)`: destroy a cloned interface by name.
pub const SIOCIFDESTROY: u64 = 0x8020_6979;

/// `_IOW('i', 16, struct ifreq)`: set the flags of an interface.
pub const SIOCSIFFLAGS: u64 = 0x8020_6910;

/// `_IOWR('i', 17, struct ifreq)`: read the flags of an interface.
pub const SIOCGIFFLAGS: u64 = 0xc020_6911;

/// Interface flag: the interface is administratively up.
pub const IFF_UP: i32 = 0x1;

/// Interface flag: the interface supports broadcast.
pub const IFF_BROADCAST: i32 = 0x2;

/// Interface flag: the interface supports multicast.
pub const IFF_MULTICAST: i32 = 0x8000;

/// The request code for direction `inout`, group `group`, number `num` and an
/// argument of `len` bytes.
pub open spec fn ioc_spec(inout: u64, group: u8, num: u8, len: u64) -> u64 {
    inout | ((len & IOCPARM_MASK) << 16u64) | ((group as u64) << 8u64) | (num as u64)
}

pub fn ioc(inout: u64, group: u8, num: u8, len: u64) -> (r: u64)
    ensures
        r == ioc_spec(inout, group, num, len),
{
    inout | ((len & IOCPARM_MASK) << 16u64) | ((group as u64) << 8u64) | (num as u64)
}

/// A request without an argument (`_IO`).
pub fn io_none(group: u8, num: u8) -> (r: u64)
    ensures
        r == ioc_spec(IOC_VOID, group, num, 0),
{
    ioc(IOC_VOID, group, num, 0)
}

/// A request that passes an argument of `len` bytes to the kernel (`_IOW`).
pub fn io_write(group: u8, num: u8, len: u64) -> (r: u64)
    ensures
        r == ioc_spec(IOC_IN, group, num, len),
{
    ioc(IOC_IN, group, num, len)
}

/// A request that passes an argument of `len` bytes both ways (`_IOWR`).
pub fn io_read_write(group: u8, num: u8, len: u64) -> (r: u64)
    ensures
        r == ioc_spec(IOC_INOUT, group, num, len),
{
    ioc(IOC_INOUT, group, num, len)
}

/// Each named request code is the encoding of its group, number and argument size.
pub proof fn lemma_request_codes()
    ensures
        TUNSIFPID == ioc_spec(IOC_VOID, 116u8, 95u8, 0),
        TUNSIFHEAD == ioc_spec(IOC_IN, 116u8, 96u8, INT_SIZE),
        TUNSIFMODE == ioc_spec(IOC_IN, 116u8, 94u8, INT_SIZE),
        FIONBIO == ioc_spec(IOC_IN, 102u8, 126u8, INT_SIZE),
        SIOCIFDESTROY == ioc_spec(IOC_IN, 105u8, 121u8, IFREQ_SIZE),
        SIOCSIFFLAGS == ioc_spec(IOC_IN, 105u8, 16u8, IFREQ_SIZE),
        SIOCGIFFLAGS == ioc_spec(IOC_INOUT, 105u8, 17u8, IFREQ_SIZE),
{
    assert(0x2000_745fu64 == 0x2000_0000u64 | ((0u64 & 0x1fffu64) << 16u64) | ((116u8 as u64)
        << 8u64) | (95u8 as u64)) by (bit_vector);
    assert(0x8004_7460u64 == 0x8000_0000u64 | ((4u64 & 0x1fffu64) << 16u64) | ((116u8 as u64)
        << 8u64) | (96u8 as u64)) by (bit_vector);
    assert(0x8004_745eu64 == 0x8000_0000u64 | ((4u64 & 0x1fffu64) << 16u64) | ((116u8 as u64)
        << 8u64) | (94u8 as u64)) by (bit_vector);
    assert(0x8004_667eu64 == 0x8000_0000u64 | ((4u64 & 0x1fffu64) << 16u64) | ((102u8 as u64)
        << 8u64) | (126u8 as u64)) by (bit_vector);
    assert(0x8020_6979u64 == 0x8000_0000u64 | ((32u64 & 0x1fffu64) << 16u64) | ((105u8 as u64)
        << 8u64) | (121u8 as u64)) by (bit_vector);
    assert(0x8020_6910u64 == 0x8000_0000u64 | ((32u64 & 0x1fffu64) << 16u64) | ((105u8 as u64)
        << 8u64) | (16u8 as u64)) by (bit_vector);
    assert(0xc020_6911u64 == 0xc000_0000u64 | ((32u64 & 0x1fffu64) << 16u64) | ((105u8 as u64)
        << 8u64) | (17u8 as u64)) by (bit_vector);
}

/// The interface flags with the administratively-up bit set, the others kept.
pub fn with_up_flag(flags: i16) -> (r: i16)
    ensures
        r == flags | (IFF_UP as i16),
{
    flags | (IFF_UP as i16)
}

/// A request code keeps each of its parts apart: the number, the group, the
/// argument size and the direction can each be read back from it.
pub proof fn lemma_ioc_fields(inout: u64, group: u8, num: u8, len: u64)
    requires
        inout == IOC_VOID || inout == IOC_IN || inout == IOC_INOUT,
    ensures
        ioc_spec(inout, group, num, len) & 0xff == num as u64,
        (ioc_spec(inout, group, num, len) >> 8u64) & 0xff == group as u64,
        (ioc_spec(inout, group, num, len) >> 16u64) & IOCPARM_MASK == len & IOCPARM_MASK,
        ioc_spec(inout, group, num, len) & 0xe000_0000 == inout,
{
    let g = group as u64;
    let n = num as u64;
    assert(g <= 0xff && n <= 0xff);
    assert(inout == 0x2000_0000u64 || inout == 0x8000_0000u64 || inout == 0xc000_0000u64);
    assert(g <= 0xff && n <= 0xff && (inout == 0x2000_0000u64 || inout == 0x8000_0000u64 || inout
        == 0xc000_0000u64) ==> {
        let c = inout | ((len & 0x1fffu64) << 16u64) | (g << 8u64) | n;
        &&& c & 0xff == n
        &&& (c >> 8u64) & 0xff == g
        &&& (c >> 16u64) & 0x1fffu64 == len & 0x1fffu64
        &&& c & 0xe000_0000 == inout
    }) by (bit_vector);
}

} // verus!
