use gocontroll_platform::frame::{build_frame, checksum, copy_frame_buffer, le_i16, le_i32,
    le_u16, le_u32, i32_byte};
use gocontroll_platform::error::PlatformError;
use gocontroll_platform::mainboard::MainBoard;
use gocontroll_platform::module::{CommunicationDirection, MessageType};

fn frame_of(bytes: &[u8]) -> Vec<u8> {
    bytes.to_vec()
}

#[test]
fn checksum_is_wrapping_sum() {
    // 200 + 100 wraps: (200 + 100 + 7) % 256 == 51
    let data = frame_of(&[200, 100, 7, 0]);
    assert_eq!(checksum(&data, 4), 51);
    // sum below 256 stays exact
    let data2 = frame_of(&[1, 2, 3, 4, 0]);
    assert_eq!(checksum(&data2, 5), 10);
}

#[test]
fn build_then_validate_succeeds() {
    let mut tx = vec![0u8; 20];
    tx[6] = 0xab;
    tx[7] = 0xcd;
    build_frame(
        &mut tx,
        5,
        CommunicationDirection::ToModule,
        11,
        MessageType::Data,
        2,
        20,
    );
    assert_eq!(tx[0], 5);
    assert_eq!(tx[1], 19);
    assert_eq!(tx[2], 1);
    assert_eq!(tx[3], 11);
    assert_eq!(tx[4], 3);
    assert_eq!(tx[5], 2);
    assert_eq!(tx[6], 0xab);
    assert_eq!(tx[7], 0xcd);
    let validated = MainBoard::module_checksum(&tx, 20);
    assert_eq!(validated, Ok(tx[19]));
}

#[test]
fn mutating_any_byte_fails_validation() {
    let mut tx = vec![0u8; 20];
    tx[6] = 0xab;
    tx[10] = 0x31;
    build_frame(
        &mut tx,
        5,
        CommunicationDirection::FromModule,
        12,
        MessageType::Feedback,
        1,
        20,
    );
    assert!(MainBoard::module_checksum(&tx, 20).is_ok());
    for i in 0..19 {
        let mut mutated = copy_frame_buffer(&tx);
        mutated[i] = mutated[i].wrapping_add(1);
        assert_eq!(
            MainBoard::module_checksum(&mutated, 20),
            Err(PlatformError::DataIntegrityError),
            "mutation at byte {} must be detected",
            i
        );
    }
}

#[test]
fn little_endian_helpers_decode_exactly() {
    let data = frame_of(&[0x88, 0x13, 0xfe, 0xff, 0x78, 0x56, 0x34, 0x12, 0xff, 0xff, 0xff, 0xff]);
    assert_eq!(le_u16(&data, 0), 5000);
    assert_eq!(le_i16(&data, 2), -2);
    assert_eq!(le_u32(&data, 4), 0x12345678);
    assert_eq!(le_i32(&data, 8), -1);
}

#[test]
fn i32_byte_splits_little_endian() {
    let value: i32 = -2;
    assert_eq!(i32_byte(value, 0), 0xfe);
    assert_eq!(i32_byte(value, 1), 0xff);
    assert_eq!(i32_byte(value, 2), 0xff);
    assert_eq!(i32_byte(value, 3), 0xff);
    let pos: i32 = 0x01020304;
    assert_eq!(i32_byte(pos, 0), 4);
    assert_eq!(i32_byte(pos, 3), 1);
}
