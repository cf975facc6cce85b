use ts_dynalene::daq::chiller::Chiller;

#[test]
fn chiller_test_from_frame_invalid() {
    // Frame with incorrect length
    let frame_short: [u8; 52] = [0; 52];
    assert!(Chiller::from_frame(&frame_short).is_none());

    // Frame with incorrect data bytes
    let mut frame_wrong_data_bytes: [u8; 53] = [0; 53];
    frame_wrong_data_bytes[2] = 47;
    assert!(Chiller::from_frame(&frame_wrong_data_bytes).is_none());
}

#[test]
fn test_get_evaporator_temperatures() {
    let combined: u16 = 0x1234;
    let (evaporator_in, evaporator_out) = Chiller::get_evaporator_temperatures(combined);

    assert_eq!(evaporator_in, 0x12);
    assert_eq!(evaporator_out, 0x34);
}

#[test]
fn test_chiller_from_frame_values() {
    let mut frame = [0u8; 53];
    frame[0] = 3;
    frame[1] = 3;
    frame[2] = 48;
    for register in 0..24u16 {
        let value = 0x0100 * (register + 1) + register;
        frame[3 + 2 * register as usize] = (value >> 8) as u8;
        frame[4 + 2 * register as usize] = (value & 0xFF) as u8;
    }
    let chiller = Chiller::from_frame(&frame).unwrap();
    assert_eq!(chiller.address, 3);
    assert_eq!(chiller.temperature_setpoint, 0x0100);
    assert_eq!(chiller.temperature_high_alarm, 0x0302);
    assert_eq!(chiller.heartbeat, 0x0F0E);
    assert_eq!(chiller.zone_1_temperature_evaporator_in, 0x11);
    assert_eq!(chiller.zone_1_temperature_evaporator_out, 0x10);
    assert_eq!(chiller.zone_2_temperature_evaporator_in, 0x12);
    assert_eq!(chiller.zone_2_temperature_evaporator_out, 0x11);
    assert_eq!(chiller.zone_2_status, 0x1817);
}

#[test]
fn test_chiller_new() {
    let chiller = Chiller::new(9);
    assert_eq!(chiller.address, 9);
    assert_eq!(chiller.temperature_setpoint, 0);
    assert_eq!(chiller.zone_2_status, 0);
}
