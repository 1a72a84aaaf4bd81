use tuntap::ioctl::{
    io_none, io_read_write, io_write, ioc, with_up_flag, IOC_INOUT, SIOCGIFFLAGS, SIOCSIFFLAGS, FIONBIO, IFREQ_SIZE, INT_SIZE, IOC_IN, IOC_VOID, SIOCIFDESTROY, TUNSIFHEAD,
    TUNSIFMODE, TUNSIFPID,
};

#[test]
fn named_codes_have_kernel_values() {
    assert_eq!(TUNSIFPID, 0x2000_745f);
    assert_eq!(TUNSIFHEAD, 0x8004_7460);
    assert_eq!(TUNSIFMODE, 0x8004_745e);
    assert_eq!(FIONBIO, 0x8004_667e);
    assert_eq!(SIOCIFDESTROY, 0x8020_6979);
}

#[test]
fn encoded_codes_match_named_codes() {
    assert_eq!(io_none(b't', 95), TUNSIFPID);
    assert_eq!(io_write(b't', 96, INT_SIZE), TUNSIFHEAD);
    assert_eq!(io_write(b't', 94, INT_SIZE), TUNSIFMODE);
    assert_eq!(io_write(b'f', 126, INT_SIZE), FIONBIO);
    assert_eq!(io_write(b'i', 121, IFREQ_SIZE), SIOCIFDESTROY);
}

#[test]
fn argument_size_is_masked() {
    assert_eq!(ioc(IOC_IN, b'x', 1, 0x2000), 0x8000_7801);
    assert_eq!(ioc(IOC_IN, b'x', 1, 0x3fff), 0x9fff_7801);
    assert_eq!(ioc(IOC_VOID, 0, 0, 0), 0x2000_0000);
}

#[test]
fn parts_read_back_from_code() {
    let code = io_write(b'q', 200, 24);
    assert_eq!(code & 0xff, 200);
    assert_eq!((code >> 8) & 0xff, b'q' as u64);
    assert_eq!((code >> 16) & 0x1fff, 24);
    assert_eq!(code & 0xe000_0000, IOC_IN);
}

#[test]
fn interface_flag_codes() {
    assert_eq!(io_write(b'i', 16, IFREQ_SIZE), SIOCSIFFLAGS);
    assert_eq!(io_read_write(b'i', 17, IFREQ_SIZE), SIOCGIFFLAGS);
    assert_eq!(SIOCGIFFLAGS & 0xe000_0000, IOC_INOUT);
}

#[test]
fn up_flag_is_added() {
    assert_eq!(with_up_flag(0), 1);
    assert_eq!(with_up_flag(0x8802u16 as i16), 0x8803u16 as i16);
    assert_eq!(with_up_flag(0x43), 0x43);
}
