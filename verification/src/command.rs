//! The panel's command table: symbolic operations mapped to the single-byte
//! register addresses the panel firmware expects. The table is fixed by the
//! panel's datasheet and carries no runtime state.

use vstd::prelude::*;

verus! {

/// A panel command opcode.
#[derive(Clone, Copy, Debug, PartialEq, Eq, Structural)]
pub enum Command {
    PanelSetting,
    PowerSetting,
    PowerOff,
    PowerOn,
    DeepSleep,
    DataStartTransmission1,
    DisplayRefresh,
    DataStartTransmission2,
    DualSpi,
    VcomAndDataIntervalSetting,
    TconSetting,
    TconResolution,
    SpiFlashControl,
}

impl Command {
    /// The register address of this command on the panel bus.
    pub open spec fn address_spec(self) -> u8 {
        match self {
            Command::PanelSetting => 0x00,
            Command::PowerSetting => 0x01,
            Command::PowerOff => 0x02,
            Command::PowerOn => 0x04,
            Command::DeepSleep => 0x07,
            Command::DataStartTransmission1 => 0x10,
            Command::DisplayRefresh => 0x12,
            Command::DataStartTransmission2 => 0x13,
            Command::DualSpi => 0x15,
            Command::VcomAndDataIntervalSetting => 0x50,
            Command::TconSetting => 0x60,
            Command::TconResolution => 0x61,
            Command::SpiFlashControl => 0x65,
        }
    }

    /// The single byte sent in command mode to select this register.
    pub fn address(self) -> (r: u8)
        ensures
            r == self.address_spec(),
    {
        match self {
            Command::PanelSetting => 0x00,
            Command::PowerSetting => 0x01,
            Command::PowerOff => 0x02,
            Command::PowerOn => 0x04,
            Command::DeepSleep => 0x07,
            Command::DataStartTransmission1 => 0x10,
            Command::DisplayRefresh => 0x12,
            Command::DataStartTransmission2 => 0x13,
            Command::DualSpi => 0x15,
            Command::VcomAndDataIntervalSetting => 0x50,
            Command::TconSetting => 0x60,
            Command::TconResolution => 0x61,
            Command::SpiFlashControl => 0x65,
        }
    }
}

} // verus!
