use loadpanel::packet::{Packet, PacketBuilder, PacketId};

fn feed(builder: &mut PacketBuilder, bytes: &[u8]) -> Vec<Packet> {
    let mut out = Vec::new();
    for &b in bytes {
        if let Some(p) = builder.update(b) {
            out.push(p);
        }
    }
    out
}

#[test]
fn set_indicators_frame_decodes() {
    let mut builder = PacketBuilder::new();
    let packets = feed(&mut builder, &[0x01, 0x04, 10, 20, 30, 40]);
    assert_eq!(packets.len(), 1);
    assert_eq!(packets[0].id, PacketId::SetLedsPacket);
    assert_eq!(packets[0].payload, Some(vec![10, 20, 30, 40]));
}

#[test]
fn zero_length_frame_has_no_payload() {
    let mut builder = PacketBuilder::new();
    let packets = feed(&mut builder, &[0x01, 0x00]);
    assert_eq!(packets.len(), 1);
    assert_eq!(packets[0].id, PacketId::SetLedsPacket);
    assert!(packets[0].payload.is_none());
}

#[test]
fn network_state_frame_decodes() {
    let mut builder = PacketBuilder::new();
    let packets = feed(&mut builder, &[0x02, 0x02, 0, 1]);
    assert_eq!(packets.len(), 1);
    assert_eq!(packets[0].id, PacketId::NetStatePacket);
    assert_eq!(packets[0].payload, Some(vec![0, 1]));
}

#[test]
fn render_frame_decodes() {
    let mut builder = PacketBuilder::new();
    let packets = feed(&mut builder, &[0x03, 0x08, 1, 2, 3, 4, 5, 6, 7, 8]);
    assert_eq!(packets.len(), 1);
    assert_eq!(packets[0].id, PacketId::ScreenDrawPacket);
    assert_eq!(packets[0].payload, Some(vec![1, 2, 3, 4, 5, 6, 7, 8]));
}

#[test]
fn unrecognized_identifier_is_discarded() {
    let mut builder = PacketBuilder::new();
    let packets = feed(&mut builder, &[0xFF]);
    assert_eq!(packets.len(), 0);
    let packets = feed(&mut builder, &[0x00, 0x00]);
    assert_eq!(packets.len(), 1);
    assert_eq!(packets[0].id, PacketId::Reset);
    assert!(packets[0].payload.is_none());
}

#[test]
fn oversized_length_aborts_frame() {
    let mut builder = PacketBuilder::new();
    let packets = feed(&mut builder, &[0x01, 33]);
    assert_eq!(packets.len(), 0);
    // The decoder accepts a fresh identifier byte immediately after.
    let packets = feed(&mut builder, &[0x00, 0x00]);
    assert_eq!(packets.len(), 1);
    assert_eq!(packets[0].id, PacketId::Reset);
}

#[test]
fn full_capacity_payload_is_accepted() {
    let mut builder = PacketBuilder::new();
    let mut bytes = vec![0x01, 32];
    for i in 0..32u8 {
        bytes.push(i);
    }
    let packets = feed(&mut builder, &bytes);
    assert_eq!(packets.len(), 1);
    let payload = packets[0].payload.as_ref().unwrap();
    assert_eq!(payload.len(), 32);
    for i in 0..32usize {
        assert_eq!(payload[i], i as u8);
    }
}

#[test]
fn back_to_back_frames_decode_independently() {
    let mut builder = PacketBuilder::new();
    let packets = feed(&mut builder, &[0x02, 0x02, 9, 9, 0x01, 0x01, 42]);
    assert_eq!(packets.len(), 2);
    assert_eq!(packets[0].id, PacketId::NetStatePacket);
    assert_eq!(packets[0].payload, Some(vec![9, 9]));
    assert_eq!(packets[1].id, PacketId::SetLedsPacket);
    assert_eq!(packets[1].payload, Some(vec![42]));
}

#[test]
fn adversarial_byte_soup_never_overflows() {
    // Every byte value in a row, twice over: every length byte the stream
    // offers is either honoured or rejected, and every payload handed out
    // fits the 32-byte capacity.
    let mut builder = PacketBuilder::new();
    for _ in 0..2 {
        for b in 0..=255u8 {
            if let Some(p) = builder.update(b) {
                if let Some(payload) = &p.payload {
                    assert!(payload.len() <= 32);
                }
                assert_ne!(p.id, PacketId::Invalid);
            }
        }
    }
}

#[test]
fn identifier_byte_conversion() {
    assert_eq!(PacketId::from(0u8), PacketId::Reset);
    assert_eq!(PacketId::from(1u8), PacketId::SetLedsPacket);
    assert_eq!(PacketId::from(2u8), PacketId::NetStatePacket);
    assert_eq!(PacketId::from(3u8), PacketId::ScreenDrawPacket);
    assert_eq!(PacketId::from(4u8), PacketId::Invalid);
    assert_eq!(PacketId::from(0xFFu8), PacketId::Invalid);
}
