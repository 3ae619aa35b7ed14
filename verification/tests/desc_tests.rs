use rust_af_xdp::decimal::to_decimal;
use rust_af_xdp::desc::{add_offset_to_addr, XdpDesc, DESC_SIZE};

#[test]
fn decimal_rendering() {
    assert_eq!(to_decimal(0), "0");
    assert_eq!(to_decimal(7), "7");
    assert_eq!(to_decimal(10), "10");
    assert_eq!(to_decimal(2048), "2048");
    assert_eq!(to_decimal(u64::MAX), "18446744073709551615");
}

#[test]
fn desc_bytes_layout() {
    let d = XdpDesc { addr: 0x0102_0304_0506_0708, len: 0x1122_3344, options: 0xaabb_ccdd };
    let b = d.to_bytes();
    assert_eq!(b.len(), DESC_SIZE);
    let mut expected = Vec::new();
    expected.extend_from_slice(&d.addr.to_ne_bytes());
    expected.extend_from_slice(&d.len.to_ne_bytes());
    expected.extend_from_slice(&d.options.to_ne_bytes());
    assert_eq!(b.to_vec(), expected);
}

#[test]
fn desc_roundtrip() {
    for d in [
        XdpDesc { addr: 0, len: 0, options: 0 },
        XdpDesc { addr: 4096, len: 60, options: 1 },
        XdpDesc { addr: u64::MAX, len: u32::MAX, options: u32::MAX },
    ] {
        let b = d.to_bytes();
        assert_eq!(XdpDesc::from_bytes(&b), d);
    }
}

#[test]
fn desc_from_longer_buffer() {
    let mut buf = vec![0u8; 32];
    buf[..16].copy_from_slice(&XdpDesc { addr: 42, len: 9, options: 3 }.to_bytes());
    buf[16] = 0xff;
    assert_eq!(XdpDesc::from_bytes(&buf), XdpDesc { addr: 42, len: 9, options: 3 });
}

#[test]
fn offset_in_top_bits_is_added() {
    assert_eq!(add_offset_to_addr(8192), 8192);
    assert_eq!(add_offset_to_addr((100u64 << 48) | 8192), 8292);
    assert_eq!(add_offset_to_addr(u64::MAX), 0xffff_ffff_ffff + 0xffff);
}
