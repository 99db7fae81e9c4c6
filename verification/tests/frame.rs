use test_gui::command::{ACK, MAX_PAYLOAD, PING, UPDATE_COLOR};
use test_gui::frame::{crc8, decode, encode, EOT};
use test_gui::{Color, Command, Error};

fn round_trip(opcode: u8, payload: &[u8]) {
    let command = Command::new(opcode, payload).expect("the payload fits");
    let bytes = encode(&command);
    assert_eq!(bytes.len(), payload.len() + 4);
    let reply = decode(&bytes).expect("a frame reads back");
    assert_eq!(reply.opcode(), opcode);
    assert_eq!(reply.payload(), payload);
}

#[test]
fn opcodes_are_distinct() {
    assert_eq!(PING, 0x00);
    assert_eq!(UPDATE_COLOR, 0x20);
    assert_ne!(ACK, PING);
    assert_ne!(ACK, UPDATE_COLOR);
    assert_ne!(ACK, 0x01);
}

#[test]
fn crc8_of_nothing_is_zero() {
    assert_eq!(crc8(&[]), 0x00);
}

#[test]
fn crc8_of_the_digits() {
    assert_eq!(crc8(b"123456789"), 0xF4);
}

#[test]
fn crc8_of_one_byte() {
    assert_eq!(crc8(&[0x01]), 0x07);
    assert_eq!(crc8(&[0x80]), 0x89);
}

#[test]
fn command_keeps_opcode_and_payload() {
    let command = Command::new(0x42, &[1, 2, 3, 4]).unwrap();
    assert_eq!(command.opcode(), 0x42);
    assert_eq!(command.payload(), &[1, 2, 3, 4]);
}

#[test]
fn command_takes_the_longest_payload() {
    let payload = vec![0x5A; MAX_PAYLOAD];
    let command = Command::new(0x42, &payload).unwrap();
    assert_eq!(command.payload().len(), 255);
}

#[test]
fn command_refuses_a_payload_too_long() {
    let payload = vec![0x5A; MAX_PAYLOAD + 1];
    assert_eq!(Command::new(0x42, &payload), None);
}

#[test]
fn ping_command_has_no_payload() {
    let command = Command::ping();
    assert_eq!(command.opcode(), PING);
    assert!(command.payload().is_empty());
}

#[test]
fn color_command_carries_hue_sat_val() {
    let color = Color { hue: 10, sat: 200, val: 50 };
    assert_eq!(color.payload(), vec![10, 200, 50]);
    let command = Command::update_color(&color);
    assert_eq!(command.opcode(), 0x20);
    assert_eq!(command.payload(), &[10, 200, 50]);
}

#[test]
fn color_command_keeps_the_order_of_channels() {
    let command = Command::update_color(&Color { hue: 1, sat: 2, val: 3 });
    assert_eq!(command.payload(), &[1, 2, 3]);
    let command = Command::update_color(&Color { hue: 3, sat: 2, val: 1 });
    assert_eq!(command.payload(), &[3, 2, 1]);
    let command = Command::update_color(&Color { hue: 0, sat: 0, val: 0 });
    assert_eq!(command.payload(), &[0, 0, 0]);
    let command = Command::update_color(&Color { hue: 255, sat: 255, val: 255 });
    assert_eq!(command.payload(), &[255, 255, 255]);
}

#[test]
fn encode_ping() {
    assert_eq!(encode(&Command::ping()), vec![0x00, 0x00, 0x00, 0x04]);
}

#[test]
fn encode_color_update() {
    let command = Command::update_color(&Color { hue: 10, sat: 200, val: 50 });
    assert_eq!(encode(&command), vec![0x20, 0x03, 10, 200, 50, 0x02, 0x04]);
}

#[test]
fn encode_ends_with_the_end_mark() {
    let bytes = encode(&Command::new(0x33, &[9, 8, 7]).unwrap());
    assert_eq!(bytes[bytes.len() - 1], EOT);
    assert_eq!(EOT, 0x04);
}

#[test]
fn decode_acknowledgment() {
    let reply = decode(&[0x06, 0x00, 0x7E, 0x04]).unwrap();
    assert_eq!(reply.opcode(), ACK);
    assert!(reply.payload().is_empty());
}

#[test]
fn decode_reply_with_payload() {
    let reply = decode(&[0x06, 0x03, 1, 2, 3, 0x39, 0x04]).unwrap();
    assert_eq!(reply.opcode(), 0x06);
    assert_eq!(reply.payload(), &[1, 2, 3]);
}

#[test]
fn decode_payload_that_looks_like_a_trailer() {
    let reply = decode(&[0x06, 0x02, 0x04, 0x04, 0xEA, 0x04]).unwrap();
    assert_eq!(reply.payload(), &[0x04, 0x04]);
}

#[test]
fn decode_refuses_nothing() {
    assert_eq!(decode(&[]), Err(Error::MalformedFrame));
}

#[test]
fn decode_refuses_a_short_frame() {
    assert_eq!(decode(&[0x06, 0x00, 0x7E]), Err(Error::MalformedFrame));
}

#[test]
fn decode_refuses_a_wrong_checksum() {
    assert_eq!(decode(&[0x06, 0x00, 0x7F, 0x04]), Err(Error::MalformedFrame));
}

#[test]
fn decode_refuses_a_wrong_end_mark() {
    assert_eq!(decode(&[0x06, 0x00, 0x7E, 0x05]), Err(Error::MalformedFrame));
}

#[test]
fn decode_refuses_a_length_too_small() {
    assert_eq!(decode(&[0x06, 0x00, 0xAA, 0x37, 0x04]), Err(Error::MalformedFrame));
}

#[test]
fn decode_refuses_a_length_too_large() {
    assert_eq!(decode(&[0x06, 0x02, 0xAA, 0x37, 0x04]), Err(Error::MalformedFrame));
}

#[test]
fn decode_refuses_bytes_behind_the_frame() {
    assert_eq!(decode(&[0x06, 0x00, 0x7E, 0x04, 0x00]), Err(Error::MalformedFrame));
}

#[test]
fn round_trip_without_payload() {
    round_trip(0x00, &[]);
    round_trip(0xFF, &[]);
}

#[test]
fn round_trip_with_one_byte() {
    round_trip(0x06, &[0xAA]);
    assert_eq!(encode(&Command::new(0x06, &[0xAA]).unwrap()), vec![0x06, 0x01, 0xAA, 0x37, 0x04]);
}

#[test]
fn round_trip_with_three_bytes() {
    round_trip(0x20, &[10, 200, 50]);
}

#[test]
fn round_trip_with_the_longest_payload() {
    let payload: Vec<u8> = (0..255u32).map(|i| i as u8).collect();
    round_trip(0x20, &payload);
    let bytes = encode(&Command::new(0x20, &payload).unwrap());
    assert_eq!(bytes.len(), 259);
    assert_eq!(bytes[1], 255);
    assert_eq!(bytes[257], 0xB5);
    assert_eq!(bytes[258], 0x04);
}

#[test]
fn round_trip_of_every_opcode() {
    for opcode in 0..=255u8 {
        round_trip(opcode, &[opcode, !opcode]);
    }
}

#[test]
fn one_flipped_bit_is_noticed() {
    let bytes = encode(&Command::update_color(&Color { hue: 10, sat: 200, val: 50 }));
    for at in 0..bytes.len() {
        for bit in 0..8 {
            let mut damaged = bytes.clone();
            damaged[at] ^= 1 << bit;
            assert_eq!(decode(&damaged), Err(Error::MalformedFrame));
        }
    }
}
