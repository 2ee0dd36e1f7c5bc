//! The controller's opcodes.

use vstd::prelude::*;

verus! {

/// SSD1680 commands.
#[derive(Clone, Copy, Debug, PartialEq, Eq, Structural)]
pub enum Command {
    /// Software reset.
    Reset,
    /// Data entry mode.
    DataMode,
    /// Border waveform.
    Border,
    /// Gate driving voltage.
    GateVoltage,
    /// Source driving voltage.
    SourceVoltage,
    /// RAM X address counter.
    RamXCount,
    /// RAM Y address counter.
    RamYCount,
    /// RAM X start and end position.
    RamXPos,
    /// RAM Y start and end position.
    RamYPos,
    /// Driver output control.
    Control,
    /// VCOM register.
    Vcom,
    /// Display update control 1.
    DispCtrl1,
    /// Display update control 2.
    DispCtrl2,
    /// Start the display update sequence.
    MasterActivate,
    /// Write to the black/white RAM.
    WriteRAM1,
    /// Write to the chromatic RAM.
    WriteRAM2,
    /// Deep sleep mode.
    Sleep,
}

impl Command {
    /// The opcode byte that stands for this command on the bus.
    pub open spec fn spec_code(self) -> u8 {
        match self {
            Command::Reset => 0x12,
            Command::DataMode => 0x11,
            Command::Border => 0x3C,
            Command::GateVoltage => 0x03,
            Command::SourceVoltage => 0x04,
            Command::RamXCount => 0x4E,
            Command::RamYCount => 0x4F,
            Command::RamXPos => 0x44,
            Command::RamYPos => 0x45,
            Command::Control => 0x01,
            Command::Vcom => 0x2C,
            Command::DispCtrl1 => 0x21,
            Command::DispCtrl2 => 0x22,
            Command::MasterActivate => 0x20,
            Command::WriteRAM1 => 0x24,
            Command::WriteRAM2 => 0x26,
            Command::Sleep => 0x10,
        }
    }

    /// The opcode byte that stands for this command on the bus.
    #[verifier::when_used_as_spec(spec_code)]
    pub fn code(self) -> (byte: u8)
        ensures
            byte == self.spec_code(),
    {
        match self {
            Command::Reset => 0x12,
            Command::DataMode => 0x11,
            Command::Border => 0x3C,
            Command::GateVoltage => 0x03,
            Command::SourceVoltage => 0x04,
            Command::RamXCount => 0x4E,
            Command::RamYCount => 0x4F,
            Command::RamXPos => 0x44,
            Command::RamYPos => 0x45,
            Command::Control => 0x01,
            Command::Vcom => 0x2C,
            Command::DispCtrl1 => 0x21,
            Command::DispCtrl2 => 0x22,
            Command::MasterActivate => 0x20,
            Command::WriteRAM1 => 0x24,
            Command::WriteRAM2 => 0x26,
            Command::Sleep => 0x10,
        }
    }

    /// No two commands share an opcode.
    pub proof fn code_is_injective(a: Command, b: Command)
        requires
            a.spec_code() == b.spec_code(),
        ensures
            a == b,
    {
    }
}

} // verus!
