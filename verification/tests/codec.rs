use frame_codec::checksum::checksum;
use frame_codec::command::{
    button_presses, prepare, Command, CommandError, LedState, Raw, SetLed,
};
use frame_codec::frame::{decode, MsgBuilder};

#[test]
fn checksum_is_complement_of_mod_256_sum() {
    // 7 + 4 + 100 + 1 = 112; 255 - 112 = 143.
    let bytes = [7u8, 0, 4, 0, 100, 0, 0, 0, 0, 0, 0, 0, 1];
    assert_eq!(checksum(&bytes), 143);
}

#[test]
fn checksum_of_empty_input_is_255() {
    let bytes: [u8; 0] = [];
    assert_eq!(checksum(&bytes), 255);
}

#[test]
fn checksum_wraps_mod_256() {
    // 200 + 200 = 400; 400 mod 256 = 144; 255 - 144 = 111.
    let bytes = [200u8, 200];
    assert_eq!(checksum(&bytes), 111);
}

#[test]
fn checksum_sum_exactly_256_wraps_to_zero() {
    // 255 + 1 = 256; 256 mod 256 = 0; 255 - 0 = 255.
    let bytes = [255u8, 1];
    assert_eq!(checksum(&bytes), 255);
}

#[test]
fn build_lays_out_all_sixteen_bytes() {
    let payload = [10u8, 20, 30, 40, 50, 60, 70, 80];
    let frame = MsgBuilder::new(9, 42, payload).build();
    assert_eq!(frame.len(), 16);
    assert_eq!(frame[0], 0);
    assert_eq!(frame[15], 0);
    assert_eq!(frame[1], 9);
    assert_eq!(frame[2], 0);
    assert_eq!(frame[3], 4);
    assert_eq!(frame[4], 0);
    assert_eq!(frame[5], 42);
    assert_eq!(&frame[6..14], &payload);
    // 9 + 4 + 42 + 10 + 20 + 30 + 40 + 50 + 60 + 70 + 80 = 415; 415 mod 256 = 159.
    assert_eq!(frame[14], 255 - 159);
}

#[test]
fn build_with_checksum_uses_the_given_byte() {
    let frame = MsgBuilder::new(5, 7, [0; 8]).build_with_checksum(0xAB);
    assert_eq!(frame[14], 0xAB);
    assert_eq!(frame[1], 5);
    assert_eq!(frame[5], 7);
}

#[test]
fn decode_recovers_encoded_fields() {
    let payload = [1u8, 2, 3, 4, 5, 6, 7, 8];
    let frame = MsgBuilder::new(11, 99, payload).build();
    let (decoded, ck) = decode(&frame);
    assert_eq!(decoded.to, 11);
    assert_eq!(decoded.from, 0);
    assert_eq!(decoded.version, 4);
    assert_eq!(decoded.hops, 0);
    assert_eq!(decoded.opcode, 99);
    assert_eq!(decoded.l7_sdu, payload);
    assert_eq!(ck, frame[14]);
}

#[test]
fn encoding_twice_is_byte_identical() {
    let payload = [3u8, 1, 4, 1, 5, 9, 2, 6];
    let first = MsgBuilder::new(8, 100, payload).build();
    let second = MsgBuilder::new(8, 100, payload).build();
    assert_eq!(first, second);
}

#[test]
fn set_led_on_payload_sets_last_byte() {
    let sdu = SetLed { on: LedState::On }.as_sdu();
    assert_eq!(sdu, [0, 0, 0, 0, 0, 0, 0, 1]);
}

#[test]
fn set_led_off_payload_is_all_zero() {
    let sdu = SetLed { on: LedState::Off }.as_sdu();
    assert_eq!(sdu, [0; 8]);
}

#[test]
fn set_led_on_frame_to_7() {
    let cmd = Command::SetLed(SetLed { on: LedState::On });
    let t = prepare(7, cmd).unwrap();
    assert_eq!(t.bytes, vec![0, 7, 0, 4, 0, 100, 0, 0, 0, 0, 0, 0, 0, 1, 143, 0]);
    assert!(!t.warn_length);
    assert!(!t.expect_button_count);
}

#[test]
fn set_led_off_frame_to_1() {
    let cmd = Command::SetLed(SetLed { on: LedState::Off });
    let t = prepare(1, cmd).unwrap();
    assert_eq!(t.bytes, vec![0, 1, 0, 4, 0, 100, 0, 0, 0, 0, 0, 0, 0, 0, 150, 0]);
}

#[test]
fn read_button_presses_frame_to_3() {
    let t = prepare(3, Command::ReadButtonPresses).unwrap();
    assert_eq!(t.bytes, vec![0, 3, 0, 4, 0, 101, 0, 0, 0, 0, 0, 0, 0, 0, 147, 0]);
    assert!(!t.warn_length);
    assert!(t.expect_button_count);
}

#[test]
fn raw_with_15_bytes_warns_and_sends_unchanged() {
    let bytes: Vec<u8> = (1..=15).collect();
    let t = prepare(0, Command::Raw(Raw { bytes: bytes.clone() })).unwrap();
    assert!(t.warn_length);
    assert_eq!(t.bytes, bytes);
    assert!(!t.expect_button_count);
}

#[test]
fn raw_with_16_bytes_does_not_warn() {
    let bytes: Vec<u8> = (1..=16).collect();
    let t = prepare(0, Command::Raw(Raw { bytes: bytes.clone() })).unwrap();
    assert!(!t.warn_length);
    assert_eq!(t.bytes, bytes);
}

#[test]
fn read_uid_is_not_implemented() {
    let r = prepare(0, Command::ReadUid);
    assert_eq!(r.unwrap_err(), CommandError::NotImplemented);
}

#[test]
fn button_presses_reads_byte_13() {
    let mut response = [0u8; 16];
    response[13] = 37;
    assert_eq!(button_presses(&response), 37);
}
