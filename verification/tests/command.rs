use patlite_rs::{
    get_settings, set_blank, set_buzz_command, set_light_command, set_master_controls_command,
    set_volume_command, Data, PatliteError,
};

#[test]
fn master_controls_wire_example() {
    let frame = set_master_controls_command(1, 1, 1, 0, 6).unwrap();
    assert_eq!(frame.to_array(), [0x00, 0x00, 0x01, 0x06, 0x11, 0x00, 0x00, 0x00]);
}

#[test]
fn master_controls_packs_each_argument_in_its_field() {
    let frame = set_master_controls_command(1, 1, 6, 0, 0).unwrap();
    assert_eq!(frame.to_array(), [0x00, 0x00, 0x06, 0x00, 0x11, 0x00, 0x00, 0x00]);
    let frame = set_master_controls_command(2, 3, 4, 5, 6).unwrap();
    assert_eq!(frame.led_control, 0x23);
    assert_eq!(frame.alarm_control, 0x54);
    assert_eq!(frame.volume, 0x06);
    assert_eq!(frame.to_array(), [0x00, 0x00, 0x54, 0x06, 0x23, 0x00, 0x00, 0x00]);
}

#[test]
fn master_controls_passes_keep_values() {
    let frame = set_master_controls_command(15, 8, 9, 15, 11).unwrap();
    assert_eq!(frame.to_array(), [0x00, 0x00, 0xF9, 0x0B, 0xF8, 0x00, 0x00, 0x00]);
}

#[test]
fn master_controls_round_trip() {
    for (c, cp, bp, r, v) in [(1u8, 1u8, 6u8, 0u8, 0u8), (7, 7, 7, 14, 10), (15, 15, 15, 15, 15)] {
        let bytes = set_master_controls_command(c, cp, bp, r, v).unwrap().to_array();
        let again = Data::from_array(bytes).to_array();
        assert_eq!(again, bytes);
        assert_eq!(Data::from_array(again).to_array(), bytes);
    }
}

#[test]
fn master_controls_refuses_each_wide_argument() {
    let bad = Err(PatliteError::InvalidArgument);
    assert_eq!(set_master_controls_command(16, 0, 0, 0, 0), bad);
    assert_eq!(set_master_controls_command(0, 16, 0, 0, 0), bad);
    assert_eq!(set_master_controls_command(0, 0, 16, 0, 0), bad);
    assert_eq!(set_master_controls_command(0, 0, 0, 16, 0), bad);
    assert_eq!(set_master_controls_command(0, 0, 0, 0, 16), bad);
    assert_eq!(set_master_controls_command(255, 255, 255, 255, 255), bad);
    assert!(set_master_controls_command(15, 15, 15, 15, 15).is_ok());
}

#[test]
fn light_purple_on() {
    let frame = set_light_command(5, 1).unwrap();
    let bytes = frame.to_array();
    assert_eq!(bytes[4], 0x51);
    assert_eq!(bytes, [0x00, 0x00, 0xFF, 0x0F, 0x51, 0x00, 0x00, 0x00]);
}

#[test]
fn light_refuses_wide_arguments() {
    assert_eq!(set_light_command(16, 1), Err(PatliteError::InvalidArgument));
    assert_eq!(set_light_command(1, 16), Err(PatliteError::InvalidArgument));
    assert_eq!(set_light_command(0x15, 0x21), Err(PatliteError::InvalidArgument));
    assert_eq!(set_light_command(15, 15).unwrap().led_control, 0xFF);
}

#[test]
fn buzz_sets_alarm_and_volume_only() {
    let frame = set_buzz_command(6, 3, 10).unwrap();
    assert_eq!(frame.to_array(), [0x00, 0x00, 0x36, 0x0A, 0xFF, 0x00, 0x00, 0x00]);
}

#[test]
fn buzz_refuses_wide_arguments() {
    let bad = Err(PatliteError::InvalidArgument);
    assert_eq!(set_buzz_command(16, 0, 0), bad);
    assert_eq!(set_buzz_command(0, 16, 0), bad);
    assert_eq!(set_buzz_command(0, 0, 16), bad);
    assert!(set_buzz_command(15, 15, 15).is_ok());
}

#[test]
fn volume_sets_volume_only() {
    let frame = set_volume_command(7).unwrap();
    assert_eq!(frame.to_array(), [0x00, 0x00, 0xFF, 0x07, 0xFF, 0x00, 0x00, 0x00]);
    assert_eq!(set_volume_command(0).unwrap().volume, 0);
    assert_eq!(set_volume_command(15).unwrap(), Data::default());
}

#[test]
fn volume_refuses_wide_level() {
    assert_eq!(set_volume_command(16), Err(PatliteError::InvalidArgument));
    assert_eq!(set_volume_command(200), Err(PatliteError::InvalidArgument));
}

#[test]
fn blank_command_is_all_zero() {
    assert_eq!(set_blank().to_array(), [0u8; 8]);
}

#[test]
fn settings_command_is_settings_frame() {
    assert_eq!(get_settings(), Data::settings());
    assert_eq!(get_settings().to_array(), [0x00, 0x01, 0x00, 0x00, 0x00, 0x00, 0x00, 0x00]);
}
