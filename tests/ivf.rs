use dav1d::ivf::{pts_to_millis, read_header, read_packet};

fn header_bytes() -> Vec<u8> {
    let mut b = Vec::new();
    b.extend_from_slice(b"DKIF");
    b.extend_from_slice(&0u16.to_le_bytes());
    b.extend_from_slice(&32u16.to_le_bytes());
    b.extend_from_slice(b"AV01");
    b.extend_from_slice(&320u16.to_le_bytes());
    b.extend_from_slice(&240u16.to_le_bytes());
    b.extend_from_slice(&1000u32.to_le_bytes());
    b.extend_from_slice(&1u32.to_le_bytes());
    b.extend_from_slice(&5u32.to_le_bytes());
    b.extend_from_slice(&0u32.to_le_bytes());
    b
}

fn packet_bytes(payload: &[u8], pts: u64) -> Vec<u8> {
    let mut b = Vec::new();
    b.extend_from_slice(&(payload.len() as u32).to_le_bytes());
    b.extend_from_slice(&pts.to_le_bytes());
    b.extend_from_slice(payload);
    b
}

#[test]
fn header_fields() {
    let h = read_header(&header_bytes()).unwrap();
    assert_eq!(&h.tag, b"AV01");
    assert_eq!((h.w, h.h), (320, 240));
    assert_eq!(h.timebase_den, 1000);
    assert_eq!(h.timebase_num, 1);
    assert!(read_header(&header_bytes()[..31]).is_none());
}

#[test]
fn packets_in_sequence() {
    let mut file = header_bytes();
    let pts = [0u64, 33, 67, 100, 133];
    for (i, p) in pts.iter().enumerate() {
        file.extend_from_slice(&packet_bytes(&vec![i as u8; i + 1], *p));
    }
    let mut pos = 32;
    let mut seen = Vec::new();
    while let Some((packet, next)) = read_packet(&file, pos) {
        assert_eq!(packet.data, vec![seen.len() as u8; seen.len() + 1]);
        seen.push(packet.pts);
        pos = next;
    }
    assert_eq!(seen, pts.to_vec());
    assert_eq!(pos, file.len());
}

#[test]
fn truncated_packet_is_refused() {
    let p = packet_bytes(&[1, 2, 3, 4], 9);
    assert!(read_packet(&p, 0).is_some());
    assert!(read_packet(&p[..15], 0).is_none());
    assert!(read_packet(&p[..11], 0).is_none());
    assert!(read_packet(&p, 100).is_none());
    let (packet, next) = read_packet(&packet_bytes(&[], u64::MAX), 0).unwrap();
    assert_eq!((packet.data.len(), packet.pts, next), (0, u64::MAX, 12));
}

#[test]
fn timestamps_in_milliseconds() {
    assert_eq!(pts_to_millis(2, 1, 30), Some(66));
    assert_eq!(pts_to_millis(67, 1, 1000), Some(67));
    assert_eq!(pts_to_millis(4, 1001, 30000), Some(133));
    assert_eq!(pts_to_millis(1, 1, 0), None);
    assert_eq!(pts_to_millis(u64::MAX, 1, 1), None);
    assert_eq!(pts_to_millis(u64::MAX, 0, 1), Some(0));
}
