use vstd::prelude::*;
use crate::constants::{
    BLANK, BUZZER_COUNT_KEEP, BUZZER_KEEP, BUZZER_VOLUME_KEEP, COMMAND_ID_CONTROL,
    COMMAND_ID_SETTING, COMMAND_VERSION, LED_COLOR_KEEP, LED_PATTERN_KEEP, NIBBLE_MAX,
};
use crate::error::PatliteError;

verus! {

/// Whether `value` fits in four bits.
pub open spec fn is_nibble(value: u8) -> bool {
    value <= 15
}

/// The byte whose upper half is `high` and whose lower half is `low`.
pub open spec fn pack_nibbles(high: u8, low: u8) -> u8 {
    (high << 4) | low
}

/// The upper and the lower half of `byte`, in that order.
pub open spec fn unpack_nibbles(byte: u8) -> (u8, u8) {
    (byte >> 4, byte & 0x0F)
}

/// Packs a color and a light pattern into the light byte of a frame. A value
/// that does not fit in four bits is refused: nothing is masked away, so the
/// values 8 to 15, which tell the device to keep what it has, pass unchanged.
pub fn encode_led(color: u8, pattern: u8) -> (packed: Result<u8, PatliteError>)
    ensures
        is_nibble(color) && is_nibble(pattern) ==> packed == Ok::<u8, PatliteError>(
            pack_nibbles(color, pattern),
        ),
        !(is_nibble(color) && is_nibble(pattern)) ==> packed == Err::<u8, PatliteError>(
            PatliteError::InvalidArgument,
        ),
{
    if color > NIBBLE_MAX || pattern > NIBBLE_MAX {
        Err(PatliteError::InvalidArgument)
    } else {
        Ok((color << 4) | pattern)
    }
}

/// Splits the light byte of a frame into color and light pattern.
pub fn decode_led(byte: u8) -> (fields: (u8, u8))
    ensures
        fields == unpack_nibbles(byte),
        is_nibble(fields.0),
        is_nibble(fields.1),
{
    let color: u8 = byte >> 4;
    let pattern: u8 = byte & 0x0F;
    assert(byte >> 4 <= 15) by (bit_vector);
    assert(byte & 0x0F <= 15) by (bit_vector);
    (color, pattern)
}

/// Packs a repetition count and a buzzer pattern into the alarm byte of a
/// frame, the count in the upper half. A value that does not fit in four bits
/// is refused.
pub fn encode_alarm(repetition: u8, pattern: u8) -> (packed: Result<u8, PatliteError>)
    ensures
        is_nibble(repetition) && is_nibble(pattern) ==> packed == Ok::<u8, PatliteError>(
            pack_nibbles(repetition, pattern),
        ),
        !(is_nibble(repetition) && is_nibble(pattern)) ==> packed == Err::<u8, PatliteError>(
            PatliteError::InvalidArgument,
        ),
{
    if repetition > NIBBLE_MAX || pattern > NIBBLE_MAX {
        Err(PatliteError::InvalidArgument)
    } else {
        Ok((repetition << 4) | pattern)
    }
}

/// Splits the alarm byte of a frame into repetition count and buzzer pattern.
pub fn decode_alarm(byte: u8) -> (fields: (u8, u8))
    ensures
        fields == unpack_nibbles(byte),
        is_nibble(fields.0),
        is_nibble(fields.1),
{
    let repetition: u8 = byte >> 4;
    let pattern: u8 = byte & 0x0F;
    assert(byte >> 4 <= 15) by (bit_vector);
    assert(byte & 0x0F <= 15) by (bit_vector);
    (repetition, pattern)
}

/// Two four-bit fields packed into a byte are sixteen times the upper one plus
/// the lower one.
pub proof fn lemma_pack_is_sum(high: u8, low: u8)
    requires
        is_nibble(high),
        is_nibble(low),
    ensures
        pack_nibbles(high, low) == 16 * high + low,
{
    assert(high <= 15 && low <= 15 ==> ((high << 4) | low) == 16 * high + low) by (bit_vector);
}

/// Packing two four-bit fields and splitting the byte again gives the fields
/// back.
pub proof fn lemma_unpack_pack(high: u8, low: u8)
    requires
        is_nibble(high),
        is_nibble(low),
    ensures
        unpack_nibbles(pack_nibbles(high, low)) == (high, low),
{
    assert(high <= 15 && low <= 15 ==> (((high << 4) | low) >> 4) == high) by (bit_vector);
    assert(high <= 15 && low <= 15 ==> (((high << 4) | low) & 0x0F) == low) by (bit_vector);
}

/// Splitting any byte and packing the two halves again gives the byte back,
/// and both halves fit in four bits.
pub proof fn lemma_pack_unpack(byte: u8)
    ensures
        is_nibble(unpack_nibbles(byte).0),
        is_nibble(unpack_nibbles(byte).1),
        pack_nibbles(unpack_nibbles(byte).0, unpack_nibbles(byte).1) == byte,
{
    assert(byte >> 4 <= 15) by (bit_vector);
    assert(byte & 0x0F <= 15) by (bit_vector);
    assert((((byte >> 4) << 4) | (byte & 0x0F)) == byte) by (bit_vector);
}

/// One command frame: eight bytes in the order of the fields.
#[derive(Clone, Copy, Debug, PartialEq, Eq, Structural)]
pub struct Data {
    pub command_version: u8,
    pub command_id: u8,
    pub alarm_control: u8,
    pub volume: u8,
    pub led_control: u8,
    pub reserved_first: u8,
    pub reserved_second: u8,
    pub reserved_third: u8,
}

impl View for Data {
    type V = Seq<u8>;

    /// The frame as it goes over the wire.
    open spec fn view(&self) -> Seq<u8> {
        seq![
            self.command_version,
            self.command_id,
            self.alarm_control,
            self.volume,
            self.led_control,
            self.reserved_first,
            self.reserved_second,
            self.reserved_third,
        ]
    }
}

impl Data {
    /// The frame whose wire form is `bytes`.
    pub open spec fn from_seq(bytes: Seq<u8>) -> Data {
        Data {
            command_version: bytes[0],
            command_id: bytes[1],
            alarm_control: bytes[2],
            volume: bytes[3],
            led_control: bytes[4],
            reserved_first: bytes[5],
            reserved_second: bytes[6],
            reserved_third: bytes[7],
        }
    }

    /// Whether the frame is a control frame in the form that the device
    /// expects: version and command zero, the upper half of the volume byte
    /// zero, and the three last bytes zero.
    pub open spec fn is_control(self) -> bool {
        &&& self.command_version == 0x00
        &&& self.command_id == 0x00
        &&& self.volume <= 15
        &&& self.reserved_first == 0x00
        &&& self.reserved_second == 0x00
        &&& self.reserved_third == 0x00
    }

    /// The control frame that changes nothing: every field holds the value
    /// that tells the device to keep what it has.
    pub open spec fn spec_default() -> Data {
        Data {
            command_version: 0x00,
            command_id: 0x00,
            alarm_control: 0xFF,
            volume: 0x0F,
            led_control: 0xFF,
            reserved_first: 0x00,
            reserved_second: 0x00,
            reserved_third: 0x00,
        }
    }

    /// The control frame that switches light and buzzer off: every byte zero.
    pub open spec fn spec_blank() -> Data {
        Data {
            command_version: 0x00,
            command_id: 0x00,
            alarm_control: 0x00,
            volume: 0x00,
            led_control: 0x00,
            reserved_first: 0x00,
            reserved_second: 0x00,
            reserved_third: 0x00,
        }
    }

    /// The settings frame with every data field zero.
    pub open spec fn spec_settings() -> Data {
        Data {
            command_version: 0x00,
            command_id: 0x01,
            alarm_control: 0x00,
            volume: 0x00,
            led_control: 0x00,
            reserved_first: 0x00,
            reserved_second: 0x00,
            reserved_third: 0x00,
        }
    }

    /// A control frame that leaves light, buzzer and volume as they are.
    pub fn default() -> (frame: Self)
        ensures
            frame == Data::spec_default(),
    {
        assert((0xFu8 << 4) | 0xFu8 == 0xFFu8) by (bit_vector);
        Data {
            command_version: COMMAND_VERSION,
            command_id: COMMAND_ID_CONTROL,
            alarm_control: BUZZER_COUNT_KEEP << 4 | BUZZER_KEEP,
            volume: BUZZER_VOLUME_KEEP,
            led_control: LED_COLOR_KEEP << 4 | LED_PATTERN_KEEP,
            reserved_first: BLANK,
            reserved_second: BLANK,
            reserved_third: BLANK,
        }
    }

    /// A control frame that switches the light off and silences the buzzer.
    pub fn blank() -> (frame: Self)
        ensures
            frame == Data::spec_blank(),
    {
        Data {
            command_version: COMMAND_VERSION,
            command_id: COMMAND_ID_CONTROL,
            alarm_control: BLANK,
            volume: BLANK,
            led_control: BLANK,
            reserved_first: BLANK,
            reserved_second: BLANK,
            reserved_third: BLANK,
        }
    }

    /// A settings frame, with every data field zero.
    pub fn settings() -> (frame: Self)
        ensures
            frame == Data::spec_settings(),
    {
        Data {
            command_version: COMMAND_VERSION,
            command_id: COMMAND_ID_SETTING,
            alarm_control: BLANK,
            volume: BLANK,
            led_control: BLANK,
            reserved_first: BLANK,
            reserved_second: BLANK,
            reserved_third: BLANK,
        }
    }

    /// The same frame as `default`.
    pub fn new() -> (frame: Self)
        ensures
            frame == Data::spec_default(),
    {
        Data::default()
    }

    /// Reads a frame from its wire form, byte for byte and without judging
    /// any of them.
    pub fn from_array(data: [u8; 8]) -> (frame: Self)
        ensures
            frame == Data::from_seq(data@),
            frame@ == data@,
    {
        let frame = Data {
            command_version: data[0],
            command_id: data[1],
            alarm_control: data[2],
            volume: data[3],
            led_control: data[4],
            reserved_first: data[5],
            reserved_second: data[6],
            reserved_third: data[7],
        };
        assert(frame@ =~= data@);
        frame
    }

    /// The same frame as `settings`.
    pub fn from_settings() -> (frame: Self)
        ensures
            frame == Data::spec_settings(),
    {
        Data::settings()
    }

    /// The same frame as `blank`.
    pub fn from_blank() -> (frame: Self)
        ensures
            frame == Data::spec_blank(),
    {
        Data::blank()
    }

    /// The same frame as `default`.
    pub fn from_default() -> (frame: Self)
        ensures
            frame == Data::spec_default(),
    {
        Data::default()
    }

    /// Overwrites the light byte and nothing else.
    pub fn set_led_control(&mut self, led_control: u8)
        ensures
            *final(self) == (Data { led_control: led_control, ..*old(self) }),
    {
        self.led_control = led_control;
    }

    /// Overwrites the alarm byte and nothing else.
    pub fn set_alarm_control(&mut self, alarm_control: u8)
        ensures
            *final(self) == (Data { alarm_control: alarm_control, ..*old(self) }),
    {
        self.alarm_control = alarm_control;
    }

    /// Overwrites the volume byte and nothing else.
    pub fn set_volume(&mut self, volume: u8)
        ensures
            *final(self) == (Data { volume: volume, ..*old(self) }),
    {
        self.volume = volume;
    }

    /// The wire form of the frame: its eight bytes in the order of the fields.
    pub fn to_array(&self) -> (bytes: [u8; 8])
        ensures
            bytes@ == self@,
    {
        let bytes: [u8; 8] = [
            self.command_version,
            self.command_id,
            self.alarm_control,
            self.volume,
            self.led_control,
            self.reserved_first,
            self.reserved_second,
            self.reserved_third,
        ];
        assert(bytes@ =~= self@);
        bytes
    }
}

/// A frame read back from its own wire form is the same frame.
pub proof fn lemma_from_seq_view(frame: Data)
    ensures
        frame@.len() == 8,
        Data::from_seq(frame@) == frame,
{
}

/// Any eight bytes read as a frame and written out again are the same eight
/// bytes.
pub proof fn lemma_view_from_seq(bytes: Seq<u8>)
    requires
        bytes.len() == 8,
    ensures
        Data::from_seq(bytes)@ == bytes,
{
    assert(Data::from_seq(bytes)@ =~= bytes);
}

} // verus!
