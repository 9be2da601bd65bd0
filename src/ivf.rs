//! IVF container framing: a 32-byte file header, then packets of a 12-byte
//! header (payload length and presentation timestamp) and their payload. All
//! integers are little endian.
use vstd::prelude::*;

verus! {

/// Bytes of the file header.
pub const IVF_HEADER_LEN: usize = 32;

/// Bytes of a packet header.
pub const IVF_PACKET_HEADER_LEN: usize = 12;

/// The little-endian 16-bit integer at `i`.
pub open spec fn le_u16(b: Seq<u8>, i: int) -> int {
    b[i] + 256 * b[i + 1]
}

/// The little-endian 32-bit integer at `i`.
pub open spec fn le_u32(b: Seq<u8>, i: int) -> int {
    le_u16(b, i) + 65536 * le_u16(b, i + 2)
}

/// The little-endian 64-bit integer at `i`.
pub open spec fn le_u64(b: Seq<u8>, i: int) -> int {
    le_u32(b, i) + 4294967296 * le_u32(b, i + 4)
}

fn read_u16(b: &[u8], i: usize) -> (r: u16)
    requires
        i + 2 <= b@.len(),
        b@.len() <= usize::MAX,
    ensures
        r == le_u16(b@, i as int),
{
    b[i] as u16 + 256 * (b[i + 1] as u16)
}

fn read_u32(b: &[u8], i: usize) -> (r: u32)
    requires
        i + 4 <= b@.len(),
        b@.len() <= usize::MAX,
    ensures
        r == le_u32(b@, i as int),
{
    read_u16(b, i) as u32 + 65536 * (read_u16(b, i + 2) as u32)
}

fn read_u64(b: &[u8], i: usize) -> (r: u64)
    requires
        i + 8 <= b@.len(),
        b@.len() <= usize::MAX,
    ensures
        r == le_u64(b@, i as int),
{
    read_u32(b, i) as u64 + 4294967296 * (read_u32(b, i + 4) as u64)
}

/// The file header of an IVF stream.
#[derive(Debug, Copy, Clone, PartialEq, Eq)]
pub struct Header {
    /// Codec tag.
    pub tag: [u8; 4],
    /// Width in pixels.
    pub w: u16,
    /// Height in pixels.
    pub h: u16,
    /// Numerator of the timebase.
    pub timebase_num: u32,
    /// Denominator of the timebase.
    pub timebase_den: u32,
}

/// One packet of an IVF stream.
#[derive(Debug, PartialEq, Eq)]
pub struct Packet {
    /// Payload.
    pub data: Vec<u8>,
    /// Presentation timestamp, in timebase units.
    pub pts: u64,
}

/// Reads the file header at the start of `buf`: the signature and version
/// fields are skipped, the tag is at byte 8, width and height at 12 and 14,
/// the timebase denominator at 16 and its numerator at 20. `None` where `buf`
/// is shorter than a header.
pub fn read_header(buf: &[u8]) -> (r: Option<Header>)
    ensures
        r is Some <==> buf@.len() >= IVF_HEADER_LEN,
        r matches Some(h) ==> {
            &&& h.tag@ == buf@.subrange(8, 12)
            &&& h.w == le_u16(buf@, 12)
            &&& h.h == le_u16(buf@, 14)
            &&& h.timebase_den == le_u32(buf@, 16)
            &&& h.timebase_num == le_u32(buf@, 20)
        },
{
    if buf.len() < IVF_HEADER_LEN {
        return None;
    }
    let tag = [buf[8], buf[9], buf[10], buf[11]];
    assert(tag@ =~= buf@.subrange(8, 12));
    Some(
        Header {
            tag,
            w: read_u16(buf, 12),
            h: read_u16(buf, 14),
            timebase_den: read_u32(buf, 16),
            timebase_num: read_u32(buf, 20),
        },
    )
}

/// Reads the packet that starts at `pos` in `buf`, and returns it with the
/// position just after it. `None` where the packet header or its payload runs
/// past the end of `buf`.
pub fn read_packet(buf: &[u8], pos: usize) -> (r: Option<(Packet, usize)>)
    ensures
        r is Some <==> pos + IVF_PACKET_HEADER_LEN <= buf@.len() && pos + IVF_PACKET_HEADER_LEN
            + le_u32(buf@, pos as int) <= buf@.len(),
        r matches Some((p, next)) ==> {
            let start = pos + IVF_PACKET_HEADER_LEN;
            &&& p.pts == le_u64(buf@, pos + 4)
            &&& next == start + le_u32(buf@, pos as int)
            &&& p.data@ == buf@.subrange(start, next as int)
        },
{
    if pos > buf.len() || buf.len() - pos < IVF_PACKET_HEADER_LEN {
        return None;
    }
    let len = read_u32(buf, pos) as usize;
    let pts = read_u64(buf, pos + 4);
    let start = pos + IVF_PACKET_HEADER_LEN;
    if buf.len() - start < len {
        return None;
    }
    let end = start + len;
    let mut data: Vec<u8> = Vec::with_capacity(len);
    let mut i: usize = start;
    while i < end
        invariant
            start <= i <= end,
            end <= buf@.len(),
            data@ == buf@.subrange(start as int, i as int),
        decreases end - i,
    {
        data.push(buf[i]);
        i = i + 1;
        assert(data@ =~= buf@.subrange(start as int, i as int));
    }
    Some((Packet { data, pts }, end))
}

/// A timestamp of `pts` timebase units in milliseconds: `1000 * pts * num / den`,
/// rounded towards zero.
pub open spec fn spec_millis(pts: int, num: int, den: int) -> int {
    (1000 * pts * num) / den
}

/// `pts` timebase units of a timebase of `num / den` seconds, in milliseconds.
/// `None` where `den` is 0 or the product does not fit in an `i64`.
pub fn pts_to_millis(pts: u64, num: u32, den: u32) -> (r: Option<i64>)
    ensures
        r is Some <==> den != 0 && 1000 * pts * num <= i64::MAX,
        r matches Some(ms) ==> ms == spec_millis(pts as int, num as int, den as int),
{
    if den == 0 {
        return None;
    }
    proof {
        assert(1000 * pts * num <= 1000 * u64::MAX * u32::MAX) by (nonlinear_arith)
            requires
                pts <= u64::MAX,
                num <= u32::MAX,
        ;
    }
    let product: u128 = 1000 * (pts as u128) * (num as u128);
    if product > i64::MAX as u128 {
        return None;
    }
    Some((product / den as u128) as i64)
}

} // verus!
