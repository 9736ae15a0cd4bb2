use boytacean_core::data::{read_bytes, read_u16, read_u32, read_u8, write_u16, write_u32, write_u8, DataError};
use boytacean_core::pad::{Pad, PadKey};
use boytacean_core::rle::{decode_rle, encode_rle};
use boytacean_core::serial::{NullDevice, Serial, SerialDevice};
use boytacean_core::timer::Timer;

#[test]
fn timer_overflow_reloads_and_requests() {
    let mut timer = Timer::new();
    timer.write(0xff06, 0xf0);
    timer.write(0xff05, 0xff);
    timer.write(0xff07, 0x05);
    timer.clock(15);
    assert_eq!(timer.read(0xff05), 0xff);
    assert!(!timer.int_tima());
    timer.clock(1);
    assert_eq!(timer.read(0xff05), 0xf0);
    assert!(timer.int_tima());
}

#[test]
fn timer_divider_counts_cycles() {
    let mut timer = Timer::new();
    timer.clock(255);
    assert_eq!(timer.read(0xff04), 0);
    timer.clock(1);
    assert_eq!(timer.read(0xff04), 1);
    timer.write(0xff04, 0x77);
    assert_eq!(timer.read(0xff04), 0);
}

#[test]
fn timer_disabled_does_not_count() {
    let mut timer = Timer::new();
    timer.write(0xff07, 0x01);
    timer.clock(200);
    assert_eq!(timer.read(0xff05), 0);
}

#[test]
fn pad_reports_selected_keys() {
    let mut pad = Pad::new();
    pad.key_press(PadKey::A);
    assert!(pad.int_pad());
    pad.write(0xff00, 0x20);
    assert_eq!(pad.read(0xff00) & 0x0f, 0x0f);
    pad.write(0xff00, 0x10);
    assert_eq!(pad.read(0xff00) & 0x0f, 0x0e);
    pad.key_lift(PadKey::A);
    assert_eq!(pad.read(0xff00) & 0x0f, 0x0f);
}

#[test]
fn serial_external_clock_needs_capable_device() {
    let mut serial = Serial::new();
    serial.write(0xff01, 0x5a);
    serial.write(0xff02, 0x80);
    assert_eq!(serial.read(0xff02) & 0x80, 0);
    serial.write(0xff02, 0x81);
    assert_eq!(serial.read(0xff02) & 0x80, 0x80);
    for _ in 0..8 {
        serial.clock(255);
        serial.clock(255);
        serial.clock(2);
    }
    assert!(serial.int_serial());
    assert_eq!(serial.read(0xff01), 0xff);
    assert_eq!(serial.read(0xff02) & 0x80, 0);
}

#[test]
fn null_device_describes_itself() {
    let device = NullDevice::new();
    assert_eq!(device.description(), "Null");
    assert!(!device.allow_slave());
}

#[test]
fn rle_round_trip() {
    let data = vec![1u8, 1, 1, 2, 3, 3];
    let encoded = encode_rle(&data);
    assert_eq!(encoded, vec![1, 3, 2, 1, 3, 2]);
    assert_eq!(decode_rle(&encoded), data);
    let long = vec![7u8; 300];
    let encoded = encode_rle(&long);
    assert_eq!(encoded, vec![7, 255, 7, 45]);
    assert_eq!(decode_rle(&encoded), long);
    assert!(encode_rle(&[]).is_empty());
    assert_eq!(decode_rle(&[9, 2, 5]), vec![9, 9]);
}

#[test]
fn little_endian_round_trip() {
    let mut buffer = Vec::new();
    write_u8(&mut buffer, 0xab);
    write_u16(&mut buffer, 0x1234);
    write_u32(&mut buffer, 0xdeadbeef);
    assert_eq!(buffer, vec![0xab, 0x34, 0x12, 0xef, 0xbe, 0xad, 0xde]);
    let mut pos = 0usize;
    assert_eq!(read_u8(&buffer, &mut pos), Ok(0xab));
    assert_eq!(read_u16(&buffer, &mut pos), Ok(0x1234));
    assert_eq!(read_u32(&buffer, &mut pos), Ok(0xdeadbeef));
    assert_eq!(read_u8(&buffer, &mut pos), Err(DataError::UnexpectedEof));
    let mut pos = 5usize;
    assert_eq!(read_u32(&buffer, &mut pos), Err(DataError::UnexpectedEof));
    assert_eq!(pos, 5);
    assert_eq!(read_bytes(&buffer, &mut pos, 10), vec![0xad, 0xde]);
    assert_eq!(pos, 7);
}

#[test]
fn serial_receive_shifts_in_on_external_clock() {
    let mut serial = Serial::new();
    serial.write(0xff01, 0x80);
    assert!(serial.send());
    for _ in 0..7 {
        serial.receive(false);
    }
    assert!(!serial.int_serial());
    serial.receive(true);
    assert!(serial.int_serial());
    assert_eq!(serial.read(0xff01), 0x01);
    serial.ack_serial();
    assert!(!serial.int_serial());
}

#[test]
fn apu_registers_read_back() {
    let mut apu = boytacean_core::apu::Apu::new();
    apu.write(0xff24, 0x77);
    assert_eq!(apu.read(0xff24), 0x77);
    assert_eq!(apu.read(0xff40), 0xff);
    apu.reset();
    assert_eq!(apu.read(0xff24), 0);
}
