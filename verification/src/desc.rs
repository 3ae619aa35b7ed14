//! Receive descriptors (`struct xdp_desc`) and their byte layout.
use vstd::prelude::*;
use vstd::endian::{endianness, Endian};

verus! {

/// Number of bytes of one encoded descriptor (the size of `struct xdp_desc`).
pub const DESC_SIZE: usize = 16;

/// Bits of a UMEM address that hold the chunk address in unaligned mode.
pub const UNALIGNED_BUF_ADDR_MASK: u64 = 0xffff_ffff_ffff;

/// Shift that brings the offset stored in the top bits of a UMEM address down.
pub const UNALIGNED_BUF_OFFSET_SHIFT: u64 = 48;

/// A descriptor of a received (or to be sent) packet: where the packet
/// lies in the UMEM, how long it is, and its option bits.
#[derive(Clone, Copy, Debug, PartialEq, Eq, Structural)]
pub struct XdpDesc {
    pub addr: u64,
    pub len: u32,
    pub options: u32,
}

/// Little-endian bytes of a 64-bit value.
pub open spec fn u64_le_bytes(x: u64) -> Seq<u8> {
    seq![
        x as u8, (x >> 8u64) as u8, (x >> 16u64) as u8, (x >> 24u64) as u8,
        (x >> 32u64) as u8, (x >> 40u64) as u8, (x >> 48u64) as u8, (x >> 56u64) as u8,
    ]
}

/// Little-endian bytes of a 32-bit value.
pub open spec fn u32_le_bytes(x: u32) -> Seq<u8> {
    seq![x as u8, (x >> 8u32) as u8, (x >> 16u32) as u8, (x >> 24u32) as u8]
}

/// The 64-bit value whose little-endian bytes start at `at` in `b`.
pub open spec fn le_u64(b: Seq<u8>, at: int) -> u64 {
    (b[at] as u64) | ((b[at + 1] as u64) << 8u64) | ((b[at + 2] as u64) << 16u64)
        | ((b[at + 3] as u64) << 24u64) | ((b[at + 4] as u64) << 32u64)
        | ((b[at + 5] as u64) << 40u64) | ((b[at + 6] as u64) << 48u64)
        | ((b[at + 7] as u64) << 56u64)
}

/// The 32-bit value whose little-endian bytes start at `at` in `b`.
pub open spec fn le_u32(b: Seq<u8>, at: int) -> u32 {
    (b[at] as u32) | ((b[at + 1] as u32) << 8u32) | ((b[at + 2] as u32) << 16u32)
        | ((b[at + 3] as u32) << 24u32)
}

/// The bytes of a value given little-endian (`le`), put in the byte order of
/// the machine: unchanged on a little-endian machine, reversed on a
/// big-endian one.
pub open spec fn native_order(le: Seq<u8>) -> Seq<u8> {
    match endianness() {
        Endian::Little => le,
        Endian::Big => le.reverse(),
    }
}

/// The byte image of a descriptor, as `struct xdp_desc` lies in memory: the
/// address, the length and the options, each in the machine's byte order.
pub open spec fn desc_bytes(d: XdpDesc) -> Seq<u8> {
    native_order(u64_le_bytes(d.addr)) + native_order(u32_le_bytes(d.len))
        + native_order(u32_le_bytes(d.options))
}

/// The descriptor whose byte image starts the sequence `b`.
pub open spec fn desc_from_bytes(b: Seq<u8>) -> XdpDesc {
    XdpDesc {
        addr: le_u64(native_order(b.subrange(0, 8)), 0),
        len: le_u32(native_order(b.subrange(8, 12)), 0),
        options: le_u32(native_order(b.subrange(12, 16)), 0),
    }
}

/// The chunk address held in the low bits of a UMEM address.
pub open spec fn extract_addr(addr: u64) -> u64 {
    addr & UNALIGNED_BUF_ADDR_MASK
}

/// The offset held in the high bits of a UMEM address.
pub open spec fn extract_offset(addr: u64) -> u64 {
    addr >> UNALIGNED_BUF_OFFSET_SHIFT
}

/// The position in the UMEM of the data that a descriptor address designates:
/// the chunk address plus the offset carried in the top bits.
pub open spec fn data_offset(addr: u64) -> int {
    extract_addr(addr) + extract_offset(addr)
}

proof fn lemma_u64_bytes(x: u64)
    ensures
        le_u64(u64_le_bytes(x), 0) == x,
{
    let b = u64_le_bytes(x);
    let (b0, b1, b2, b3, b4, b5, b6, b7) = (b[0], b[1], b[2], b[3], b[4], b[5], b[6], b[7]);
    assert(b0 == x as u8 && b1 == (x >> 8u64) as u8 && b2 == (x >> 16u64) as u8
        && b3 == (x >> 24u64) as u8 && b4 == (x >> 32u64) as u8 && b5 == (x >> 40u64) as u8
        && b6 == (x >> 48u64) as u8 && b7 == (x >> 56u64) as u8);
    assert((b0 as u64) | ((b1 as u64) << 8u64) | ((b2 as u64) << 16u64) | ((b3 as u64) << 24u64)
        | ((b4 as u64) << 32u64) | ((b5 as u64) << 40u64) | ((b6 as u64) << 48u64)
        | ((b7 as u64) << 56u64) == x) by (bit_vector)
        requires
            b0 == x as u8, b1 == (x >> 8u64) as u8, b2 == (x >> 16u64) as u8,
            b3 == (x >> 24u64) as u8, b4 == (x >> 32u64) as u8, b5 == (x >> 40u64) as u8,
            b6 == (x >> 48u64) as u8, b7 == (x >> 56u64) as u8,
    ;
}

proof fn lemma_u32_bytes(x: u32)
    ensures
        le_u32(u32_le_bytes(x), 0) == x,
{
    let b = u32_le_bytes(x);
    let (b0, b1, b2, b3) = (b[0], b[1], b[2], b[3]);
    assert(b0 == x as u8 && b1 == (x >> 8u32) as u8 && b2 == (x >> 16u32) as u8
        && b3 == (x >> 24u32) as u8);
    assert((b0 as u32) | ((b1 as u32) << 8u32) | ((b2 as u32) << 16u32) | ((b3 as u32) << 24u32)
        == x) by (bit_vector)
        requires
            b0 == x as u8, b1 == (x >> 8u32) as u8, b2 == (x >> 16u32) as u8,
            b3 == (x >> 24u32) as u8,
    ;
}

/// Putting bytes in the machine's order twice gives them back.
pub proof fn lemma_native_order_involutive(s: Seq<u8>)
    ensures
        native_order(native_order(s)) == s,
        native_order(s).len() == s.len(),
{
    match endianness() {
        Endian::Little => {},
        Endian::Big => {
            if s.len() > 0 {
                assert(s.reverse().reverse() =~= s);
            } else {
                assert(s.reverse().reverse() =~= s);
            }
        },
    }
}

/// Decoding the byte image of a descriptor gives the descriptor back.
pub proof fn lemma_desc_roundtrip(d: XdpDesc)
    ensures
        desc_bytes(d).len() == DESC_SIZE,
        desc_from_bytes(desc_bytes(d)) == d,
{
    let b = desc_bytes(d);
    lemma_u64_bytes(d.addr);
    lemma_u32_bytes(d.len);
    lemma_u32_bytes(d.options);
    let b1 = u64_le_bytes(d.addr);
    let b2 = u32_le_bytes(d.len);
    let b3 = u32_le_bytes(d.options);
    lemma_native_order_involutive(b1);
    lemma_native_order_involutive(b2);
    lemma_native_order_involutive(b3);
    assert(b.subrange(0, 8) =~= native_order(b1));
    assert(b.subrange(8, 12) =~= native_order(b2));
    assert(b.subrange(12, 16) =~= native_order(b3));
}

/// `u64::to_ne_bytes`: the eight bytes of `x` in the byte order of the machine.
#[verifier::external_body]
fn u64_to_ne_bytes(x: u64) -> (b: [u8; 8])
    ensures
        b@ == native_order(u64_le_bytes(x)),
{
    x.to_ne_bytes()
}

/// `u32::to_ne_bytes`: the four bytes of `x` in the byte order of the machine.
#[verifier::external_body]
fn u32_to_ne_bytes(x: u32) -> (b: [u8; 4])
    ensures
        b@ == native_order(u32_le_bytes(x)),
{
    x.to_ne_bytes()
}

/// `u64::from_ne_bytes`: the value whose bytes, in the machine's order, are `b`.
#[verifier::external_body]
fn u64_from_ne_bytes(b: [u8; 8]) -> (x: u64)
    ensures
        x == le_u64(native_order(b@), 0),
{
    u64::from_ne_bytes(b)
}

/// `u32::from_ne_bytes`: the value whose bytes, in the machine's order, are `b`.
#[verifier::external_body]
fn u32_from_ne_bytes(b: [u8; 4]) -> (x: u32)
    ensures
        x == le_u32(native_order(b@), 0),
{
    u32::from_ne_bytes(b)
}

impl XdpDesc {
    /// The byte image of this descriptor, as a reader's buffer receives it.
    pub fn to_bytes(&self) -> (b: [u8; 16])
        ensures
            b@ == desc_bytes(*self),
    {
        let a = u64_to_ne_bytes(self.addr);
        let l = u32_to_ne_bytes(self.len);
        let o = u32_to_ne_bytes(self.options);
        let b = [
            a[0], a[1], a[2], a[3], a[4], a[5], a[6], a[7],
            l[0], l[1], l[2], l[3],
            o[0], o[1], o[2], o[3],
        ];
        assert(b@ =~= desc_bytes(*self));
        b
    }

    /// Reads a descriptor back from the first `DESC_SIZE` bytes of `buf`.
    pub fn from_bytes(buf: &[u8]) -> (d: XdpDesc)
        requires
            buf@.len() >= DESC_SIZE,
        ensures
            d == desc_from_bytes(buf@),
    {
        let a = [buf[0], buf[1], buf[2], buf[3], buf[4], buf[5], buf[6], buf[7]];
        let l = [buf[8], buf[9], buf[10], buf[11]];
        let o = [buf[12], buf[13], buf[14], buf[15]];
        assert(a@ =~= buf@.subrange(0, 8));
        assert(l@ =~= buf@.subrange(8, 12));
        assert(o@ =~= buf@.subrange(12, 16));
        XdpDesc { addr: u64_from_ne_bytes(a), len: u32_from_ne_bytes(l), options: u32_from_ne_bytes(o) }
    }
}

/// Where in the UMEM the data of a descriptor address starts: the chunk
/// address plus the offset that unaligned mode keeps in the top 16 bits
/// (libbpf's `xsk_umem__add_offset_to_addr`).
pub fn add_offset_to_addr(addr: u64) -> (r: u64)
    ensures
        r == data_offset(addr),
{
    let base = addr & UNALIGNED_BUF_ADDR_MASK;
    let offset = addr >> UNALIGNED_BUF_OFFSET_SHIFT;
    assert(base <= UNALIGNED_BUF_ADDR_MASK && offset <= 0xffffu64) by (bit_vector)
        requires
            base == addr & 0xffff_ffff_ffffu64,
            offset == addr >> 48u64,
    ;
    base + offset
}

/// In aligned mode an address carries no offset: the data starts at the address itself.
pub proof fn lemma_aligned_addr_is_data_offset(addr: u64)
    requires
        addr <= UNALIGNED_BUF_ADDR_MASK,
    ensures
        data_offset(addr) == addr,
{
    assert(addr & 0xffff_ffff_ffffu64 == addr && addr >> 48u64 == 0) by (bit_vector)
        requires
            addr <= 0xffff_ffff_ffffu64,
    ;
}

/// An address with offset `off` in its top bits over chunk `base` designates `base + off`.
pub proof fn lemma_unaligned_addr_is_base_plus_offset(base: u64, off: u64)
    requires
        base <= UNALIGNED_BUF_ADDR_MASK,
        off <= 0xffff,
    ensures
        data_offset(base | (off << UNALIGNED_BUF_OFFSET_SHIFT)) == base + off,
{
    let a = base | (off << 48u64);
    assert(a & 0xffff_ffff_ffffu64 == base && a >> 48u64 == off) by (bit_vector)
        requires
            base <= 0xffff_ffff_ffffu64,
            off <= 0xffffu64,
            a == base | (off << 48u64),
    ;
}

} // verus!
