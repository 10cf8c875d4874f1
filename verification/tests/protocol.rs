use weatherlight::protocol::ProtocolVariant;
use weatherlight::protocol::checksum;
use weatherlight::protocol::classify_vendor;
use weatherlight::protocol::wire_len;
use weatherlight::protocol::write_checksum;

#[test]
fn vendor_classification() {
    // The extended id in its decimal and hex spellings is one value.
    assert_eq!(classify_vendor(10171), Some(ProtocolVariant::Extended));
    assert_eq!(classify_vendor(0x27bb), Some(ProtocolVariant::Extended));
    assert_eq!(classify_vendor(0x04d8), Some(ProtocolVariant::Legacy));
    assert_eq!(classify_vendor(0x1234), None);
    assert_eq!(classify_vendor(0), None);
}

#[test]
fn wire_lengths() {
    assert_eq!(wire_len(ProtocolVariant::Legacy), 9);
    assert_eq!(wire_len(ProtocolVariant::Extended), 65);
}

#[test]
fn checksum_of_known_prefix() {
    // Extended framing with color (10, 20, 30): bytes 1=16, 3..=5 color,
    // 59..=62 all 255; the sum over bytes 0..=62 is 1096 = 0x0448.
    let mut buf = vec![0u8; 65];
    buf[1] = 16;
    buf[3] = 10;
    buf[4] = 20;
    buf[5] = 30;
    buf[59] = 255;
    buf[60] = 255;
    buf[61] = 255;
    buf[62] = 255;
    assert_eq!(checksum(&buf), 1096);
    write_checksum(&mut buf);
    assert_eq!(buf[63], 4);
    assert_eq!(buf[64], 72);
}

#[test]
fn checksum_is_idempotent() {
    let mut buf: Vec<u8> = (0..65u8).collect();
    write_checksum(&mut buf);
    let first = (buf[63], buf[64]);
    // Re-summing bytes 0..=62 of the already-checksummed buffer must
    // reproduce the same trailer.
    write_checksum(&mut buf);
    assert_eq!((buf[63], buf[64]), first);
    let third: Vec<u8> = buf.clone();
    write_checksum(&mut buf);
    assert_eq!(buf, third);
}

#[test]
fn checksum_covers_color_changes() {
    let mut a = vec![0u8; 65];
    let mut b = vec![0u8; 65];
    b[3] = 1;
    write_checksum(&mut a);
    write_checksum(&mut b);
    assert_ne!((a[63], a[64]), (b[63], b[64]));
    assert_eq!(b[64], a[64] + 1);
}
