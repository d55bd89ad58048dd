//! Commands for the module's ring light.
use crate::buffer::{frame_contents, new_frame};
use crate::encode::{encode, payload_of};
use crate::frame::{frame_spec, CodecError, Identifier, Instruction};
use vstd::prelude::*;

verus! {

/// How the ring light behaves.
#[derive(Clone, Copy, Debug, PartialEq, Eq, Structural)]
pub enum LightPattern {
    Breathing,
    Flashing,
    AlwaysOn,
    AlwaysOff,
    GraduallyOn,
    GraduallyOff,
}

impl LightPattern {
    pub open spec fn spec_code(self) -> u8 {
        match self {
            LightPattern::Breathing => 0x01,
            LightPattern::Flashing => 0x02,
            LightPattern::AlwaysOn => 0x03,
            LightPattern::AlwaysOff => 0x04,
            LightPattern::GraduallyOn => 0x05,
            LightPattern::GraduallyOff => 0x06,
        }
    }

    /// The control code of this pattern.
    pub fn code(&self) -> (r: u8)
        ensures
            r == self.spec_code(),
    {
        match self {
            LightPattern::Breathing => 0x01,
            LightPattern::Flashing => 0x02,
            LightPattern::AlwaysOn => 0x03,
            LightPattern::AlwaysOff => 0x04,
            LightPattern::GraduallyOn => 0x05,
            LightPattern::GraduallyOff => 0x06,
        }
    }
}

/// The colour of the ring light.
#[derive(Clone, Copy, Debug, PartialEq, Eq, Structural)]
pub enum Color {
    Red,
    Blue,
    Purple,
    Green,
    Yellow,
    Cyan,
    White,
}

impl Color {
    pub open spec fn spec_code(self) -> u8 {
        match self {
            Color::Red => 0x01,
            Color::Blue => 0x02,
            Color::Purple => 0x03,
            Color::Green => 0x04,
            Color::Yellow => 0x05,
            Color::Cyan => 0x06,
            Color::White => 0x07,
        }
    }

    /// The colour index sent to the module.
    pub fn code(&self) -> (r: u8)
        ensures
            r == self.spec_code(),
    {
        match self {
            Color::Red => 0x01,
            Color::Blue => 0x02,
            Color::Purple => 0x03,
            Color::Green => 0x04,
            Color::Yellow => 0x05,
            Color::Cyan => 0x06,
            Color::White => 0x07,
        }
    }
}

/// The colour the ring light shows on a touch edge: blue when a finger
/// lands on the sensor, cyan when it lifts.
pub fn touch_color(finger_down: bool) -> (r: Color)
    ensures
        r == (if finger_down {
            Color::Blue
        } else {
            Color::Cyan
        }),
{
    if finger_down {
        Color::Blue
    } else {
        Color::Cyan
    }
}

/// The data bytes of a ring-light command: pattern, speed (0 fastest,
/// 255 slowest), colour, and number of repetitions (0 for endless).
pub open spec fn led_data(pattern: LightPattern, speed: u8, color: Color, times: u8) -> Seq<u8> {
    seq![pattern.spec_code(), speed, color.spec_code(), times]
}

/// Builds the command frame that sets the ring light.
pub fn aura_led_command(pattern: LightPattern, speed: u8, color: Color, times: u8) -> (r:
    heapless::Vec<u8, 256>)
    ensures
        frame_contents(r) == frame_spec(
            Identifier::Command.spec_byte(),
            Instruction::AuraLedConfig.spec_code(),
            led_data(pattern, speed, color, times),
        ),
{
    let mut data: Vec<u8> = Vec::new();
    data.push(pattern.code());
    data.push(speed);
    data.push(color.code());
    data.push(times);
    assert(data@ =~= led_data(pattern, speed, color, times));
    let payload = data.as_slice();
    assert(payload_of(Some(payload)) == data@);
    match encode(Identifier::Command, Instruction::AuraLedConfig, Some(payload)) {
        Ok(f) => f,
        Err(_) => {
            assert(false);
            new_frame()
        },
    }
}

} // verus!
