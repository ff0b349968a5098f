use vstd::prelude::*;
use crate::constants::NIBBLE_MAX;
use crate::error::PatliteError;
use crate::frame::{encode_alarm, encode_led, is_nibble, pack_nibbles, Data};

verus! {

/// The frame that sets light, buzzer and volume together.
pub open spec fn master_controls_frame(
    color: u8,
    color_pattern: u8,
    buzzer_pattern: u8,
    repetition: u8,
    volume: u8,
) -> Data {
    Data {
        alarm_control: pack_nibbles(repetition, buzzer_pattern),
        volume: volume,
        led_control: pack_nibbles(color, color_pattern),
        ..Data::spec_default()
    }
}

/// The frame that sets the light and leaves buzzer and volume as they are.
pub open spec fn light_frame(color: u8, pattern: u8) -> Data {
    Data { led_control: pack_nibbles(color, pattern), ..Data::spec_default() }
}

/// The frame that sets buzzer and volume and leaves the light as it is.
pub open spec fn buzz_frame(pattern: u8, repetition: u8, volume: u8) -> Data {
    Data {
        alarm_control: pack_nibbles(repetition, pattern),
        volume: volume,
        ..Data::spec_default()
    }
}

/// The frame that sets the volume and leaves light and buzzer as they are.
pub open spec fn volume_frame(volume: u8) -> Data {
    Data { volume: volume, ..Data::spec_default() }
}

/// Builds the frame that sets light, buzzer and volume together. Every
/// argument is a four-bit field; the frame is refused when one of them is not.
pub fn set_master_controls_command(
    color: u8,
    color_pattern: u8,
    buzzer_pattern: u8,
    repetition: u8,
    volume: u8,
) -> (command: Result<Data, PatliteError>)
    ensures
        is_nibble(color) && is_nibble(color_pattern) && is_nibble(buzzer_pattern) && is_nibble(
            repetition,
        ) && is_nibble(volume) ==> command == Ok::<Data, PatliteError>(
            master_controls_frame(color, color_pattern, buzzer_pattern, repetition, volume),
        ),
        !(is_nibble(color) && is_nibble(color_pattern) && is_nibble(buzzer_pattern) && is_nibble(
            repetition,
        ) && is_nibble(volume)) ==> command == Err::<Data, PatliteError>(
            PatliteError::InvalidArgument,
        ),
{
    let buzzer_control: u8 = match encode_alarm(repetition, buzzer_pattern) {
        Ok(byte) => byte,
        Err(e) => { return Err(e); },
    };
    let led_control: u8 = match encode_led(color, color_pattern) {
        Ok(byte) => byte,
        Err(e) => { return Err(e); },
    };
    if volume > NIBBLE_MAX {
        return Err(PatliteError::InvalidArgument);
    }
    let mut master_controls: Data = Data::default();
    master_controls.set_alarm_control(buzzer_control);
    master_controls.set_led_control(led_control);
    master_controls.set_volume(volume);
    Ok(master_controls)
}

/// Builds the frame that sets the light and leaves buzzer and volume as they
/// are. The frame is refused when an argument is no four-bit field.
pub fn set_light_command(color: u8, pattern: u8) -> (command: Result<Data, PatliteError>)
    ensures
        is_nibble(color) && is_nibble(pattern) ==> command == Ok::<Data, PatliteError>(
            light_frame(color, pattern),
        ),
        !(is_nibble(color) && is_nibble(pattern)) ==> command == Err::<Data, PatliteError>(
            PatliteError::InvalidArgument,
        ),
{
    let led_control: u8 = match encode_led(color, pattern) {
        Ok(byte) => byte,
        Err(e) => { return Err(e); },
    };
    let mut light_data: Data = Data::default();
    light_data.set_led_control(led_control);
    Ok(light_data)
}

/// Builds the frame that sets buzzer pattern, repetition count and volume and
/// leaves the light as it is. The frame is refused when an argument is no
/// four-bit field.
pub fn set_buzz_command(pattern: u8, repetition: u8, volume: u8) -> (command: Result<
    Data,
    PatliteError,
>)
    ensures
        is_nibble(pattern) && is_nibble(repetition) && is_nibble(volume) ==> command == Ok::<
            Data,
            PatliteError,
        >(buzz_frame(pattern, repetition, volume)),
        !(is_nibble(pattern) && is_nibble(repetition) && is_nibble(volume)) ==> command == Err::<
            Data,
            PatliteError,
        >(PatliteError::InvalidArgument),
{
    let buzz_control: u8 = match encode_alarm(repetition, pattern) {
        Ok(byte) => byte,
        Err(e) => { return Err(e); },
    };
    if volume > NIBBLE_MAX {
        return Err(PatliteError::InvalidArgument);
    }
    let mut buzz_data: Data = Data::default();
    buzz_data.set_alarm_control(buzz_control);
    buzz_data.set_volume(volume);
    Ok(buzz_data)
}

/// Builds the frame that sets the volume and leaves light and buzzer as they
/// are. The frame is refused when the level is no four-bit field.
pub fn set_volume_command(volume: u8) -> (command: Result<Data, PatliteError>)
    ensures
        is_nibble(volume) ==> command == Ok::<Data, PatliteError>(volume_frame(volume)),
        !is_nibble(volume) ==> command == Err::<Data, PatliteError>(
            PatliteError::InvalidArgument,
        ),
{
    if volume > NIBBLE_MAX {
        return Err(PatliteError::InvalidArgument);
    }
    let mut set_volume: Data = Data::default();
    set_volume.set_volume(volume);
    Ok(set_volume)
}

/// The frame that switches the light off and silences the buzzer.
pub fn set_blank() -> (command: Data)
    ensures
        command == Data::spec_blank(),
{
    Data::blank()
}

/// The frame that asks the device for its settings.
pub fn get_settings() -> (command: Data)
    ensures
        command == Data::spec_settings(),
{
    Data::settings()
}

/// The light byte of a light frame holds the color in its upper half and the
/// pattern in its lower half, and every other byte is that of the frame that
/// changes nothing.
pub proof fn lemma_light_frame_bytes(color: u8, pattern: u8)
    requires
        is_nibble(color),
        is_nibble(pattern),
    ensures
        light_frame(color, pattern)@ == seq![
            0x00u8,
            0x00u8,
            0xFFu8,
            0x0Fu8,
            (16 * color + pattern) as u8,
            0x00u8,
            0x00u8,
            0x00u8,
        ],
{
    crate::frame::lemma_pack_is_sum(color, pattern);
}

/// The wire form of a frame that sets everything: alarm byte, volume and
/// light byte hold the arguments, and the rest is zero.
pub proof fn lemma_master_controls_frame_bytes(
    color: u8,
    color_pattern: u8,
    buzzer_pattern: u8,
    repetition: u8,
    volume: u8,
)
    requires
        is_nibble(color),
        is_nibble(color_pattern),
        is_nibble(buzzer_pattern),
        is_nibble(repetition),
        is_nibble(volume),
    ensures
        master_controls_frame(color, color_pattern, buzzer_pattern, repetition, volume)@ == seq![
            0x00u8,
            0x00u8,
            (16 * repetition + buzzer_pattern) as u8,
            volume,
            (16 * color + color_pattern) as u8,
            0x00u8,
            0x00u8,
            0x00u8,
        ],
{
    crate::frame::lemma_pack_is_sum(color, color_pattern);
    crate::frame::lemma_pack_is_sum(repetition, buzzer_pattern);
}

/// Every frame that a command is built as is a control frame in the form
/// that the device expects, whatever the light and alarm fields hold.
pub proof fn lemma_commands_are_control_frames(
    color: u8,
    color_pattern: u8,
    buzzer_pattern: u8,
    repetition: u8,
    volume: u8,
)
    requires
        is_nibble(volume),
    ensures
        master_controls_frame(color, color_pattern, buzzer_pattern, repetition, volume).is_control(),
        light_frame(color, color_pattern).is_control(),
        buzz_frame(buzzer_pattern, repetition, volume).is_control(),
        volume_frame(volume).is_control(),
        Data::spec_blank().is_control(),
        Data::spec_default().is_control(),
{
}

/// A frame that sets everything, written to the wire and read back, is the
/// same frame, and writes the same bytes again.
pub proof fn lemma_master_controls_round_trip(
    color: u8,
    color_pattern: u8,
    buzzer_pattern: u8,
    repetition: u8,
    volume: u8,
)
    ensures
        ({
            let frame = master_controls_frame(
                color,
                color_pattern,
                buzzer_pattern,
                repetition,
                volume,
            );
            &&& Data::from_seq(frame@) == frame
            &&& Data::from_seq(frame@)@ == frame@
        }),
{
}

} // verus!
