use patlite_rs::{get_led_color, LEDColors};

#[test]
fn colors_zero_to_seven_are_named() {
    assert_eq!(get_led_color(0), LEDColors::Off);
    assert_eq!(get_led_color(1), LEDColors::Red);
    assert_eq!(get_led_color(2), LEDColors::Green);
    assert_eq!(get_led_color(3), LEDColors::Yellow);
    assert_eq!(get_led_color(4), LEDColors::Blue);
    assert_eq!(get_led_color(5), LEDColors::Purple);
    assert_eq!(get_led_color(6), LEDColors::LightBlue);
    assert_eq!(get_led_color(7), LEDColors::White);
}

#[test]
fn colors_eight_to_fifteen_keep() {
    for color in 8u8..=15 {
        assert_eq!(get_led_color(color), LEDColors::Keep);
    }
}

#[test]
fn wider_values_read_as_off() {
    assert_eq!(get_led_color(16), LEDColors::Off);
    assert_eq!(get_led_color(0x51), LEDColors::Off);
    assert_eq!(get_led_color(255), LEDColors::Off);
}

#[test]
fn code_reads_back_as_the_color() {
    let all = [
        LEDColors::Off,
        LEDColors::Red,
        LEDColors::Green,
        LEDColors::Yellow,
        LEDColors::Blue,
        LEDColors::Purple,
        LEDColors::LightBlue,
        LEDColors::White,
        LEDColors::Keep,
    ];
    for color in all {
        assert!(color.code() <= 15);
        assert_eq!(get_led_color(color.code()), color);
    }
    assert_eq!(LEDColors::Purple.code(), 5);
    assert_eq!(LEDColors::Keep.code(), 0xF);
}

#[test]
fn colors_have_names() {
    assert_eq!(LEDColors::Off.to_string(), "Off");
    assert_eq!(LEDColors::Red.to_string(), "Red");
    assert_eq!(LEDColors::Green.to_string(), "Green");
    assert_eq!(LEDColors::Yellow.to_string(), "Yellow");
    assert_eq!(LEDColors::Blue.to_string(), "Blue");
    assert_eq!(LEDColors::Purple.to_string(), "Purple");
    assert_eq!(LEDColors::LightBlue.to_string(), "LightBlue");
    assert_eq!(LEDColors::White.to_string(), "White");
    assert_eq!(LEDColors::Keep.to_string(), "Keep");
}
