use vstd::prelude::*;

verus! {

/// USB vendor identifier of the indicator.
pub const VENDOR_ID: u16 = 0x191A;

/// USB product identifier of the indicator.
pub const DEVICE_ID: u16 = 0x6001;

/// Protocol version, the first byte of every frame.
pub const COMMAND_VERSION: u8 = 0x0;

/// Command identifier of a control frame.
pub const COMMAND_ID_CONTROL: u8 = 0x0;

/// Command identifier of a frame that switches the connection display setting.
pub const COMMAND_ID_SETTING: u8 = 0x1;

/// Command identifier of a state request.
pub const COMMAND_ID_GETSTATE: u8 = 0x80;

/// Address of the interrupt endpoint that carries frames from host to device.
pub const ENDPOINT_ADDRESS: u8 = 0x01;

/// Address of the interrupt endpoint that carries the state from device to host.
pub const ENDPOINT_ADDRESS_GET: u8 = 0x81;

/// Time allowed for one transfer, in milliseconds.
pub const SEND_TIMEOUT: u64 = 3000;

/// Number of bytes in a frame.
pub const FRAME_LENGTH: usize = 8;

/// Largest value that fits in a four-bit field.
pub const NIBBLE_MAX: u8 = 0xF;

pub const LED_COLOR_OFF: u8 = 0;

pub const LED_COLOR_RED: u8 = 1;

pub const LED_COLOR_GREEN: u8 = 2;

pub const LED_COLOR_YELLOW: u8 = 3;

pub const LED_COLOR_BLUE: u8 = 4;

pub const LED_COLOR_PURPLE: u8 = 5;

pub const LED_COLOR_LIGHTBLUE: u8 = 6;

pub const LED_COLOR_WHITE: u8 = 7;

/// Leaves the color as it is.
pub const LED_COLOR_KEEP: u8 = 0xF;

pub const LED_OFF: u8 = 0x0;

pub const LED_ON: u8 = 0x1;

pub const LED_PATTERN1: u8 = 0x2;

pub const LED_PATTERN2: u8 = 0x3;

pub const LED_PATTERN3: u8 = 0x4;

pub const LED_PATTERN4: u8 = 0x5;

pub const LED_PATTERN5: u8 = 0x6;

pub const LED_PATTERN6: u8 = 0x7;

/// Leaves the light pattern as it is.
pub const LED_PATTERN_KEEP: u8 = 0xF;

/// The buzzer sounds until it is switched off.
pub const BUZZER_COUNT_CONTINUE: u8 = 0x0;

/// Leaves the repetition count as it is.
pub const BUZZER_COUNT_KEEP: u8 = 0xF;

pub const BUZZER_OFF: u8 = 0x0;

pub const BUZZER_ON: u8 = 0x1;

pub const BUZZER_SWEEP: u8 = 0x2;

pub const BUZZER_INTERMITTENT: u8 = 0x3;

pub const BUZZER_WEEK_ATTENTION: u8 = 0x4;

pub const BUZZER_STRONG_ATTENTION: u8 = 0x5;

pub const BUZZER_SHINING_STAR: u8 = 0x6;

pub const BUZZER_LONDON_BRIDGE: u8 = 0x7;

/// Leaves the buzzer pattern as it is.
pub const BUZZER_KEEP: u8 = 0xF;

pub const BUZZER_VOLUME_OFF: u8 = 0x0;

pub const BUZZER_VOLUME_MAX: u8 = 0xA;

/// Leaves the volume as it is.
pub const BUZZER_VOLUME_KEEP: u8 = 0xF;

pub const SETTING_OFF: u8 = 0x0;

pub const SETTING_ON: u8 = 0x1;

/// Value of every unused byte and field.
pub const BLANK: u8 = 0x0;

} // verus!
