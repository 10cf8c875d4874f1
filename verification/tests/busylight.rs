use weatherlight::busylight::Busylight;
use weatherlight::busylight::ConnectError;
use weatherlight::busylight::DeviceInfo;
use weatherlight::busylight::select_device;

fn device(vendor_id: u16) -> DeviceInfo {
    DeviceInfo {
        product: Some("Busylight".to_string()),
        path: Some("/dev/hidraw0".to_string()),
        vendor_id,
        product_id: 0x3bcd,
    }
}

#[test]
fn fresh_session_buffer() {
    let bl = Busylight::new();
    assert!(!bl.is_connected());
    assert!(bl.get_info().is_none());
    assert_eq!(bl.buffer.len(), 65);
    assert_eq!(bl.buffer[8], 128);
    assert!(bl.buffer[0..8].iter().all(|&b| b == 0));
    assert!(bl.buffer[9..].iter().all(|&b| b == 0));
    // Not connected: every send is silently dropped.
    assert!(bl.frame().is_none());
}

#[test]
fn select_prefers_first_allowed() {
    let devices = vec![device(0x1111), device(0x04d8), device(10171)];
    assert_eq!(select_device(&devices, 0, true), Ok(1));
    assert_eq!(select_device(&devices, 2, true), Ok(2));
    assert_eq!(select_device(&devices, 3, true), Err(ConnectError::NoDeviceFound));
}

#[test]
fn select_reports_transport_and_no_device() {
    let devices = vec![device(0x1111)];
    assert_eq!(select_device(&devices, 0, false), Err(ConnectError::TransportInitFailed));
    assert_eq!(select_device(&devices, 0, true), Err(ConnectError::NoDeviceFound));
    let empty: Vec<DeviceInfo> = Vec::new();
    assert_eq!(select_device(&empty, 0, true), Err(ConnectError::NoDeviceFound));
}

#[test]
fn extended_connect_writes_65_byte_frames() {
    let mut bl = Busylight::new();
    bl.on_opened(&device(10171));
    assert!(bl.is_connected());
    let info = bl.get_info().unwrap();
    assert_eq!(info.vendor_id, 10171);
    assert_eq!(info.product.as_deref(), Some("Busylight"));
    // Extended framing: mode 16, disable-timeout tail, no legacy sentinel.
    assert_eq!(bl.buffer[1], 16);
    assert_eq!(bl.buffer[8], 0);
    assert_eq!(&bl.buffer[59..63], &[255, 255, 255, 255]);
    let frame = bl.light_raw(10, 20, 30).unwrap();
    assert_eq!(frame.len(), 65);
    assert_eq!(&frame[3..6], &[10, 20, 30]);
    // Big-endian additive checksum over bytes 0..=62.
    assert_eq!((frame[63], frame[64]), (4, 72));
}

#[test]
fn extended_connect_by_hex_vendor_id() {
    let mut bl = Busylight::new();
    bl.on_opened(&device(0x27bb));
    let frame = bl.light_raw(0, 0, 0).unwrap();
    assert_eq!(frame.len(), 65);
}

#[test]
fn legacy_connect_writes_9_byte_frames() {
    let mut bl = Busylight::new();
    bl.on_opened(&device(0x04d8));
    assert!(bl.is_connected());
    assert_eq!(bl.buffer[1], 0);
    assert_eq!(bl.buffer[8], 128);
    let frame = bl.light_raw(7, 8, 9).unwrap();
    assert_eq!(frame, vec![0, 0, 0, 7, 8, 9, 0, 0, 128]);
}

#[test]
fn light_applies_degamma() {
    let mut bl = Busylight::new();
    bl.on_opened(&device(0x04d8));
    let frame = bl.light(128, 200, 255).unwrap();
    assert_eq!(&frame[3..6], &[55, 147, 255]);
}

#[test]
fn light_pct_applies_power_law() {
    let mut bl = Busylight::new();
    bl.on_opened(&device(0x04d8));
    let frame = bl.light_pct(200, 100, 50, 50).unwrap();
    assert_eq!(&frame[3..6], &[28, 14, 7]);
}

#[test]
fn off_blanks_the_color() {
    let mut bl = Busylight::new();
    bl.on_opened(&device(0x04d8));
    bl.light(255, 255, 255).unwrap();
    let frame = bl.off().unwrap();
    assert_eq!(&frame[3..6], &[0, 0, 0]);
}

#[test]
fn write_failure_disconnects_and_rate_limits() {
    let mut bl = Busylight::new();
    bl.on_opened(&device(10171));
    assert!(bl.is_connected());
    // Well past the cooldown: the first failure triggers one attempt.
    assert!(bl.handle_write_failure(10_000));
    assert!(!bl.is_connected());
    assert!(bl.get_info().is_none());
    // Two more failures within the same second: no further attempt.
    assert!(!bl.handle_write_failure(10_300));
    assert!(!bl.handle_write_failure(10_900));
    // After the cooldown has fully passed, an attempt is due again.
    assert!(!bl.handle_write_failure(12_000));
    assert!(bl.handle_write_failure(12_001));
}

#[test]
fn reconnect_resends_pending_frame() {
    let mut bl = Busylight::new();
    bl.on_opened(&device(10171));
    bl.light_raw(9, 9, 9);
    assert!(bl.handle_write_failure(10_000));
    // The buffer keeps the pending color across the disconnect, so the
    // reconnect can resend the frame that failed.
    bl.on_opened(&device(10171));
    let frame = bl.frame().unwrap();
    assert_eq!(&frame[3..6], &[9, 9, 9]);
}
