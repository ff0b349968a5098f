use vstd::prelude::*;
use crate::constants::{
    LED_COLOR_BLUE, LED_COLOR_GREEN, LED_COLOR_KEEP, LED_COLOR_LIGHTBLUE, LED_COLOR_OFF,
    LED_COLOR_PURPLE, LED_COLOR_RED, LED_COLOR_WHITE, LED_COLOR_YELLOW,
};

verus! {

/// What the color field of a frame asks of the light.
#[derive(Clone, Copy, Debug, PartialEq, Eq, Structural)]
pub enum LEDColors {
    Off,
    Red,
    Green,
    Yellow,
    Blue,
    Purple,
    LightBlue,
    White,
    /// The light stays as it is.
    Keep,
}

/// The color that a field value stands for: 0 to 7 name a color, 8 to 15 all
/// keep the light as it is, and a value that is no four-bit field reads as off.
pub open spec fn led_color_of(color: u8) -> LEDColors {
    if color == 0 {
        LEDColors::Off
    } else if color == 1 {
        LEDColors::Red
    } else if color == 2 {
        LEDColors::Green
    } else if color == 3 {
        LEDColors::Yellow
    } else if color == 4 {
        LEDColors::Blue
    } else if color == 5 {
        LEDColors::Purple
    } else if color == 6 {
        LEDColors::LightBlue
    } else if color == 7 {
        LEDColors::White
    } else if color <= 15 {
        LEDColors::Keep
    } else {
        LEDColors::Off
    }
}

impl LEDColors {
    /// The field value that a frame carries for this color; for `Keep`, the
    /// largest of the values that keep the light as it is.
    pub open spec fn spec_code(self) -> u8 {
        match self {
            LEDColors::Off => 0,
            LEDColors::Red => 1,
            LEDColors::Green => 2,
            LEDColors::Yellow => 3,
            LEDColors::Blue => 4,
            LEDColors::Purple => 5,
            LEDColors::LightBlue => 6,
            LEDColors::White => 7,
            LEDColors::Keep => 0xF,
        }
    }

    /// The name of the color as text.
    pub open spec fn spec_name(self) -> Seq<char> {
        match self {
            LEDColors::Off => "Off"@,
            LEDColors::Red => "Red"@,
            LEDColors::Green => "Green"@,
            LEDColors::Yellow => "Yellow"@,
            LEDColors::Blue => "Blue"@,
            LEDColors::Purple => "Purple"@,
            LEDColors::LightBlue => "LightBlue"@,
            LEDColors::White => "White"@,
            LEDColors::Keep => "Keep"@,
        }
    }

    /// The field value that a frame carries for this color.
    pub fn code(&self) -> (code: u8)
        ensures
            code == self.spec_code(),
            code <= 15,
    {
        match self {
            LEDColors::Off => LED_COLOR_OFF,
            LEDColors::Red => LED_COLOR_RED,
            LEDColors::Green => LED_COLOR_GREEN,
            LEDColors::Yellow => LED_COLOR_YELLOW,
            LEDColors::Blue => LED_COLOR_BLUE,
            LEDColors::Purple => LED_COLOR_PURPLE,
            LEDColors::LightBlue => LED_COLOR_LIGHTBLUE,
            LEDColors::White => LED_COLOR_WHITE,
            LEDColors::Keep => LED_COLOR_KEEP,
        }
    }

    /// The name of the color as text.
    pub fn to_string(&self) -> (name: String)
        ensures
            name@ == self.spec_name(),
    {
        let name: &str = match self {
            LEDColors::Off => "Off",
            LEDColors::Red => "Red",
            LEDColors::Green => "Green",
            LEDColors::Yellow => "Yellow",
            LEDColors::Blue => "Blue",
            LEDColors::Purple => "Purple",
            LEDColors::LightBlue => "LightBlue",
            LEDColors::White => "White",
            LEDColors::Keep => "Keep",
        };
        name.to_owned()
    }
}

/// Reads the color field of a frame.
pub fn get_led_color(color: u8) -> (led: LEDColors)
    ensures
        led == led_color_of(color),
{
    match color {
        LED_COLOR_OFF => LEDColors::Off,
        LED_COLOR_RED => LEDColors::Red,
        LED_COLOR_GREEN => LEDColors::Green,
        LED_COLOR_YELLOW => LEDColors::Yellow,
        LED_COLOR_BLUE => LEDColors::Blue,
        LED_COLOR_PURPLE => LEDColors::Purple,
        LED_COLOR_LIGHTBLUE => LEDColors::LightBlue,
        LED_COLOR_WHITE => LEDColors::White,
        0x8..=0xF => LEDColors::Keep,
        _ => LEDColors::Off,
    }
}

/// The field value of a color reads back as that color.
pub proof fn lemma_color_of_code(led: LEDColors)
    ensures
        led_color_of(led.spec_code()) == led,
{
}

/// Every color that can be read from a four-bit field has a field value of
/// the same kind: below 8 it is the value read, from 8 on it is one that
/// keeps the light as it is.
pub proof fn lemma_code_of_color(color: u8)
    requires
        color <= 15,
    ensures
        color <= 7 ==> led_color_of(color).spec_code() == color,
        color >= 8 ==> led_color_of(color) == LEDColors::Keep,
        led_color_of(color).spec_code() >= 8 <==> color >= 8,
{
}

} // verus!
