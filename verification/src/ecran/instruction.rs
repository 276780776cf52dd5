//! Instructions du contrôleur de l'écran : un opcode d'un octet chacune,
//! suivi le cas échéant d'octets de paramètres ou de données.

use vstd::prelude::*;

verus! {

/// Commandes du contrôleur de l'écran.
#[derive(Copy, Clone, PartialEq, Eq, Structural, Debug)]
pub enum Instruction {
    PowerSetting,
    PowerOn,
    BusyStatus,
    PanelSetting,
    Tres,
    Unknown1,
    VcomAndDataIntervalSetting,
    TconSetting,
    Unknown2,
    PowerOff,
    DeepSleep,
    DataStartTransmission1,
    DataStartTransmission2,
    DisplayRefresh,
}

impl Instruction {
    /// Opcode de la commande sur le bus série.
    pub open spec fn spec_code(self) -> u8 {
        match self {
            Instruction::PowerSetting => 0x01,
            Instruction::PowerOn => 0x04,
            Instruction::BusyStatus => 0x71,
            Instruction::PanelSetting => 0x00,
            Instruction::Tres => 0x61,
            Instruction::Unknown1 => 0x15,
            Instruction::VcomAndDataIntervalSetting => 0x50,
            Instruction::TconSetting => 0x60,
            Instruction::Unknown2 => 0x65,
            Instruction::PowerOff => 0x02,
            Instruction::DeepSleep => 0x07,
            Instruction::DataStartTransmission1 => 0x10,
            Instruction::DataStartTransmission2 => 0x13,
            Instruction::DisplayRefresh => 0x12,
        }
    }

    /// Opcode de la commande sur le bus série.
    pub fn code(self) -> (r: u8)
        ensures
            r == self.spec_code(),
    {
        match self {
            Instruction::PowerSetting => 0x01,
            Instruction::PowerOn => 0x04,
            Instruction::BusyStatus => 0x71,
            Instruction::PanelSetting => 0x00,
            Instruction::Tres => 0x61,
            Instruction::Unknown1 => 0x15,
            Instruction::VcomAndDataIntervalSetting => 0x50,
            Instruction::TconSetting => 0x60,
            Instruction::Unknown2 => 0x65,
            Instruction::PowerOff => 0x02,
            Instruction::DeepSleep => 0x07,
            Instruction::DataStartTransmission1 => 0x10,
            Instruction::DataStartTransmission2 => 0x13,
            Instruction::DisplayRefresh => 0x12,
        }
    }
}

} // verus!
