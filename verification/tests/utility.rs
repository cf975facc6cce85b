use ts_dynalene::utility::{
    calculate_modbus_crc_and_update_frame, get_index_from_array, get_values_from_u8_array,
    verify_modbus_crc,
};

#[test]
fn test_get_values_from_u8_array_u16() {
    let frame: [u8; 4] = [0x12, 0x34, 0xAB, 0xCD];
    assert_eq!(
        get_values_from_u8_array::<u16, 2>(&frame),
        Some([0x1234, 0xABCD])
    );
}

#[test]
fn test_get_values_from_u8_array_i32() {
    let frame: [u8; 8] = [0x00, 0x00, 0x00, 0x01, 0xFF, 0xFF, 0xFF, 0xFF];
    assert_eq!(get_values_from_u8_array::<i32, 2>(&frame), Some([1, -1]));
}

#[test]
fn test_get_values_from_u8_array_f32() {
    // The library reads the IEEE 754 bit patterns; the caller turns them
    // into floats.
    let frame: [u8; 8] = [0x3f, 0x80, 0x00, 0x00, 0x40, 0x00, 0x00, 0x00];
    let values = get_values_from_u8_array::<u32, 2>(&frame).map(|v| v.map(f32::from_bits));
    assert_eq!(values, Some([1.0, 2.0]));
}

#[test]
fn test_get_values_from_u8_array_f64() {
    let frame: [u8; 8] = [0xbf, 0xf0, 0x00, 0x00, 0x00, 0x00, 0x00, 0x00];
    let values = get_values_from_u8_array::<u64, 1>(&frame).map(|v| v.map(f64::from_bits));
    assert_eq!(values, Some([-1.0]));
}

#[test]
fn test_get_values_from_u8_array_wrong_length() {
    let frame: [u8; 5] = [0x12, 0x34, 0xAB, 0xCD, 0xEF];
    assert_eq!(get_values_from_u8_array::<u16, 2>(&frame), None);
    assert_eq!(get_values_from_u8_array::<i16, 3>(&frame), None);
    assert_eq!(get_values_from_u8_array::<u16, 0>(&[]), Some([]));
}

#[test]
fn test_get_values_from_u8_array_signed_and_wide() {
    let frame: [u8; 8] = [0xFF, 0xFE, 0x80, 0x00, 0x7F, 0xFF, 0x00, 0x01];
    assert_eq!(
        get_values_from_u8_array::<i16, 4>(&frame),
        Some([-2, -32768, 32767, 1])
    );
    assert_eq!(
        get_values_from_u8_array::<u64, 1>(&frame),
        Some([0xFFFE_8000_7FFF_0001])
    );
    assert_eq!(
        get_values_from_u8_array::<i64, 1>(&frame),
        Some([0xFFFE_8000_7FFF_0001u64 as i64])
    );
}

#[test]
fn test_calculate_modbus_crc_and_update_frame() {
    let mut frame_1 = [1, 2, 3, 4, 0, 0];
    calculate_modbus_crc_and_update_frame(&mut frame_1);

    assert_eq!(frame_1, [1, 2, 3, 4, 0xA1, 0x2B]);

    let mut frame_2 = [1, 2, 3, 4, 0, 0, 0];
    calculate_modbus_crc_and_update_frame(&mut frame_2);

    assert_eq!(frame_2, [1, 2, 3, 4, 0, 0xEA, 0xB8]);

    let mut frame_3 = [0x01, 0x03, 0x0, 0x04, 0x0, 0x02, 0x0, 0x0];
    calculate_modbus_crc_and_update_frame(&mut frame_3);

    assert_eq!(frame_3, [0x01, 0x03, 0x0, 0x04, 0x0, 0x02, 0x85, 0xCA]);
}

#[test]
fn test_verify_modbus_crc() {
    // Valid frame with correct CRC
    let frame_valid: [u8; 8] = [0x01, 0x03, 0x0, 0x04, 0x0, 0x02, 0x85, 0xCA];

    assert!(verify_modbus_crc(&frame_valid));

    // Invalid frame with corrupted value
    let frame_invalid: [u8; 8] = [0x00, 0x03, 0x0, 0x04, 0x0, 0x02, 0x85, 0xCA];

    assert!(!verify_modbus_crc(&frame_invalid));

    // No enough data
    let frame_short: [u8; 2] = [0x01, 0x03];
    assert!(!verify_modbus_crc(&frame_short));
}

#[test]
fn test_sealed_frame_verifies() {
    let mut frame = [7, 3, 0x02, 0xBB, 0x00, 0x0A, 0xFF, 0xFF];
    calculate_modbus_crc_and_update_frame(&mut frame);
    assert!(verify_modbus_crc(&frame));
    frame[7] ^= 1;
    assert!(!verify_modbus_crc(&frame));
}

#[test]
fn test_get_index_from_array() {
    let array = [10, 20, 30, 40, 50];

    assert_eq!(get_index_from_array(&array, &30), Some(2));
    assert_eq!(get_index_from_array(&array, &60), None);
}

#[test]
fn test_get_index_from_array_first_match() {
    let array = [5u8, 7, 5, 7];
    assert_eq!(get_index_from_array(&array, &7), Some(1));
    assert_eq!(get_index_from_array::<u8>(&[], &7), None);
}
