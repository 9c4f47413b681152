//! The register layout of the Emakefun GPIO expander.

use vstd::prelude::*;

verus! {

/// What a pin of the expander is used for.
#[derive(Debug, Clone, Copy, PartialEq, Eq, Structural)]
pub enum GpioMode {
    /// Not in use.
    Unset,
    InputPullUp,
    InputPullDown,
    InputFloating,
    Output,
    Adc,
    Pwm,
}

/// A pin of the expander.
#[derive(Debug, Clone, Copy, PartialEq, Eq, Structural)]
pub enum GpioPin {
    E0,
    E1,
    E2,
    E3,
    E4,
    E5,
    E6,
    E7,
}

/// First register of the pins' modes.
pub const ADDRESS_IO_MODE: u8 = 0x01;

/// First register of the pins' digital levels.
pub const ADDRESS_DIGITAL_VALUES: u8 = 0x40;

impl GpioMode {
    /// The value of the mode register: one bit for each mode, none for
    /// `Unset`.
    pub open spec fn spec_bits(self) -> u8 {
        match self {
            GpioMode::Unset => 0,
            GpioMode::InputPullUp => 1,
            GpioMode::InputPullDown => 2,
            GpioMode::InputFloating => 4,
            GpioMode::Output => 8,
            GpioMode::Adc => 16,
            GpioMode::Pwm => 32,
        }
    }

    #[verifier::when_used_as_spec(spec_bits)]
    pub fn bits(self) -> (bits: u8)
        ensures
            bits == self.spec_bits(),
    {
        match self {
            GpioMode::Unset => 0,
            GpioMode::InputPullUp => 1,
            GpioMode::InputPullDown => 2,
            GpioMode::InputFloating => 4,
            GpioMode::Output => 8,
            GpioMode::Adc => 16,
            GpioMode::Pwm => 32,
        }
    }
}

impl GpioPin {
    /// The number of the pin, from 0.
    pub open spec fn spec_index(self) -> u8 {
        match self {
            GpioPin::E0 => 0,
            GpioPin::E1 => 1,
            GpioPin::E2 => 2,
            GpioPin::E3 => 3,
            GpioPin::E4 => 4,
            GpioPin::E5 => 5,
            GpioPin::E6 => 6,
            GpioPin::E7 => 7,
        }
    }

    #[verifier::when_used_as_spec(spec_index)]
    pub fn index(self) -> (index: u8)
        ensures
            index == self.spec_index(),
    {
        match self {
            GpioPin::E0 => 0,
            GpioPin::E1 => 1,
            GpioPin::E2 => 2,
            GpioPin::E3 => 3,
            GpioPin::E4 => 4,
            GpioPin::E5 => 5,
            GpioPin::E6 => 6,
            GpioPin::E7 => 7,
        }
    }
}

/// The two bytes to write to set a pin's mode: the pin's mode register and
/// the mode's bits.
pub fn mode_write(pin: GpioPin, mode: GpioMode) -> (bytes: [u8; 2])
    ensures
        bytes@ == seq![(ADDRESS_IO_MODE + pin.spec_index()) as u8, mode.spec_bits()],
{
    let bytes = [ADDRESS_IO_MODE + pin.index(), mode.bits()];
    assert(bytes@ =~= seq![(ADDRESS_IO_MODE + pin.spec_index()) as u8, mode.spec_bits()]);
    bytes
}

/// The two bytes to write to set a pin's level: the pin's level register
/// and the level.
pub fn level_write(pin: GpioPin, level: u8) -> (bytes: [u8; 2])
    ensures
        bytes@ == seq![(ADDRESS_DIGITAL_VALUES + pin.spec_index()) as u8, level],
{
    let bytes = [ADDRESS_DIGITAL_VALUES + pin.index(), level];
    assert(bytes@ =~= seq![(ADDRESS_DIGITAL_VALUES + pin.spec_index()) as u8, level]);
    bytes
}

/// The register to read a pin's level from.
pub fn level_register(pin: GpioPin) -> (register: u8)
    ensures
        register == ADDRESS_DIGITAL_VALUES + pin.spec_index(),
{
    ADDRESS_DIGITAL_VALUES + pin.index()
}

} // verus!
