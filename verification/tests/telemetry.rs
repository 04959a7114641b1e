use simple_trainer::error::Error;
use simple_trainer::telemetry::{decode, u16_from_le, TrainerUpdate, MIN_PAYLOAD_LEN};

#[test]
fn decodes_speed_and_power_little_endian() {
    let payload = [0u8, 0, 0x10, 0x00, 0x64, 0x00];
    assert_eq!(
        decode(&payload),
        Ok(TrainerUpdate::Power { speed: 16, power: 100 })
    );
}

#[test]
fn high_bytes_count_256_each() {
    let payload = [0u8, 0, 0x34, 0x12, 0xcd, 0xab];
    assert_eq!(
        decode(&payload),
        Ok(TrainerUpdate::Power { speed: 0x1234, power: 0xabcd })
    );
    assert_eq!(u16_from_le(0x34, 0x12), 4660);
    assert_eq!(u16_from_le(0x00, 0x01), 256);
    assert_eq!(u16_from_le(0x01, 0x00), 1);
}

#[test]
fn extreme_values_decode_without_overflow() {
    assert_eq!(
        decode(&[0xff; 6]),
        Ok(TrainerUpdate::Power { speed: u16::MAX, power: u16::MAX })
    );
    assert_eq!(
        decode(&[0x00; 6]),
        Ok(TrainerUpdate::Power { speed: 0, power: 0 })
    );
    assert_eq!(u16_from_le(0xff, 0xff), 65535);
}

#[test]
fn every_short_payload_is_malformed() {
    let full = [9u8, 9, 0x10, 0x00, 0x64, 0x00];
    for len in 0..MIN_PAYLOAD_LEN {
        assert_eq!(decode(&full[..len]), Err(Error::MalformedPayload));
    }
    assert_eq!(MIN_PAYLOAD_LEN, 6);
}

#[test]
fn empty_payload_is_malformed() {
    assert_eq!(decode(&[]), Err(Error::MalformedPayload));
}

#[test]
fn flags_and_trailing_bytes_are_not_read() {
    let plain = [0u8, 0, 0xe8, 0x03, 0xfa, 0x00];
    let flagged = [0x44u8, 0x02, 0xe8, 0x03, 0xfa, 0x00, 0x5a, 0x00, 0x01];
    let expected = Ok(TrainerUpdate::Power { speed: 1000, power: 250 });
    assert_eq!(decode(&plain), expected);
    assert_eq!(decode(&flagged), expected);
}

#[test]
fn decoding_twice_gives_the_same_update() {
    let payload = vec![1u8, 2, 3, 4, 5, 6, 7];
    let first = decode(&payload);
    let second = decode(&payload);
    assert_eq!(first, second);
    assert_eq!(first, Ok(TrainerUpdate::Power { speed: 0x0403, power: 0x0605 }));
    assert_eq!(payload, vec![1u8, 2, 3, 4, 5, 6, 7]);
}
