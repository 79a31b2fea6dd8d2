use std::collections::VecDeque;

use ne_g3::common;
use ne_g3::crc::{evalCrc16, evalCrc32, evalCrc8};
use ne_g3::usi::{InMessage, OutMessage, RxState};

#[test]
fn crc8_check_value() {
    assert_eq!(evalCrc8(&b"123456789".to_vec()), 0xF4);
}

#[test]
fn crc16_check_value() {
    assert_eq!(evalCrc16(&b"123456789".to_vec()), 0x31C3);
}

#[test]
fn crc32_check_value() {
    assert_eq!(evalCrc32(&b"123456789".to_vec()), 0x89A1897F);
}

#[test]
fn crc_of_nothing_is_zero() {
    assert_eq!(evalCrc8(&vec![]), 0);
    assert_eq!(evalCrc16(&vec![]), 0);
    assert_eq!(evalCrc32(&vec![]), 0);
}

#[test]
fn protocol_len_from_header_bytes() {
    // 0x01 << 2 | 0xC0 >> 6 = 4 + 3
    assert_eq!(common::get_protocol_len(0x01, 0xC0), 7);
    assert_eq!(common::get_protocol_len(0x00, 0x25), 0);
    assert_eq!(common::get_protocol_xlen(0x01, 0x40, 0x80), 4 + 1 + 1024);
    assert_eq!(common::get_protocol_xlen(0x01, 0x40, 0x7F), 5);
}

#[test]
fn header_byte_helpers() {
    assert_eq!(common::LEN_HI_PROTOCOL(7), 1);
    assert_eq!(common::LEN_LO_PROTOCOL(7), 0xC0);
    assert_eq!(common::TYPE_PROTOCOL(0xE5), 0x25);
    assert_eq!(common::CMD_PROTOCOL(0xFF), 0x7F);
}

#[test]
fn hex_strings() {
    assert_eq!(common::to_hex_string(&[0x00, 0x7E, 0xAB]), "00 7E AB");
    assert_eq!(common::to_hex_string(&[]), "");
    assert_eq!(common::array_to_hex_string(vec![0x0F]), "0F");
}

fn receive(frame: &[u8]) -> InMessage {
    let mut m = InMessage::new();
    let mut q: VecDeque<u8> = frame.iter().copied().collect();
    m.process(&mut q);
    m
}

#[test]
fn adp_frame_layout() {
    let out = OutMessage::new(common::PROTOCOL_ADP_G3, &vec![0x0A, 0x01]);
    let frame = out.to_usi().unwrap();
    // delimiter, length 2 in the header, protocol, data, CRC-16 of the header and data, delimiter
    assert_eq!(frame[0], 0x7E);
    assert_eq!(frame[1], 0x00);
    assert_eq!(frame[2], 0x80 | 0x25);
    assert_eq!(&frame[3..5], &[0x0A, 0x01]);
    let crc = evalCrc16(&vec![0x00, 0xA5, 0x0A, 0x01]);
    assert_eq!(&frame[5..7], &crc.to_be_bytes());
    assert_eq!(frame[7], 0x7E);
    assert_eq!(frame.len(), 8);
}

#[test]
fn frame_escapes_delimiters() {
    let out = OutMessage::new(common::PROTOCOL_ADP_G3, &vec![0x7E, 0x7D]);
    let frame = out.to_usi().unwrap();
    assert_eq!(&frame[3..7], &[0x7D, 0x5E, 0x7D, 0x5D]);
}

#[test]
fn too_long_data_is_refused() {
    let out = OutMessage::new(common::PROTOCOL_ADP_G3, &vec![0u8; 2049]);
    assert!(out.to_usi().is_none());
}

#[test]
fn frame_roundtrip_through_receiver() {
    let data = vec![0x21, 0x7E, 0x00, 0x7D, 0x44];
    let out = OutMessage::new(common::PROTOCOL_ADP_G3, &data);
    let mut frame = out.to_usi().unwrap();
    frame.extend_from_slice(&[0x7E, 0x01]);
    let mut m = InMessage::new();
    let mut q: VecDeque<u8> = frame.iter().copied().collect();
    m.process(&mut q);
    assert_eq!(*m.get_state(), RxState::RxDone);
    assert_eq!(m.protocol_type, Some(common::PROTOCOL_ADP_G3));
    assert!(m.content_ok());
    m.remove_header_and_crc();
    assert_eq!(m.buf, data);
    // the bytes after the frame are left for the next one
    assert_eq!(q.iter().copied().collect::<Vec<u8>>(), vec![0x7E, 0x01]);
}

#[test]
fn prime_api_frame_roundtrip() {
    let data = vec![0x12, 0x34, 0x56];
    let out = OutMessage::new(common::PROTOCOL_PRIME_API, &data);
    let frame = out.to_usi().unwrap();
    let mut m = receive(&frame);
    assert_eq!(*m.get_state(), RxState::RxDone);
    m.remove_header_and_crc();
    assert_eq!(m.buf, data);
}

#[test]
fn bad_crc_gives_error() {
    let out = OutMessage::new(common::PROTOCOL_ADP_G3, &vec![0x0A, 0x01]);
    let mut frame = out.to_usi().unwrap();
    frame[4] ^= 0x01;
    let m = receive(&frame);
    assert_eq!(*m.get_state(), RxState::RxError);
}

#[test]
fn bytes_before_delimiter_are_skipped() {
    let out = OutMessage::new(common::PROTOCOL_ADP_G3, &vec![0x0A]);
    let mut frame = vec![0x01, 0x02];
    frame.extend(out.to_usi().unwrap());
    let m = receive(&frame);
    assert_eq!(*m.get_state(), RxState::RxDone);
}

#[test]
fn double_escape_is_an_error() {
    let m = receive(&[0x7E, 0x00, 0x7D, 0x7D]);
    assert_eq!(*m.get_state(), RxState::RxError);
}
