use vstd::prelude::*;

verus! {

/// SX1280 command opcodes (datasheet, table "Transceiver commands").
#[derive(Clone, Copy, Debug, PartialEq, Eq, Structural)]
pub enum OpCode {
    // Status
    GetStatus,
    // Register / buffer access
    WriteRegister,
    ReadRegister,
    WriteBuffer,
    ReadBuffer,
    // Mode setting
    SetSleep,
    SetStandby,
    SetFs,
    SetTx,
    SetRx,
    SetRxDutyCycle,
    SetCad,
    SetTxContinuousWave,
    SetTxContinuousPreamble,
    // Packet / radio config
    SetPacketType,
    GetPacketType,
    SetRfFrequency,
    SetTxParams,
    SetCadParams,
    SetBufferBaseAddress,
    SetModulationParams,
    SetPacketParams,
    // Status / results
    GetRxBufferStatus,
    GetPacketStatus,
    GetRssiInst,
    // IRQ
    SetDioIrqParams,
    GetIrqStatus,
    ClrIrqStatus,
    // Misc
    SetRegulatorMode,
    SetSaveContext,
    SetAutoFS,
    SetAutoTx,
    SetLongPreamble,
    SetUartSpeed,
    SetRangingRole,
    SetAdvancedRanging,
}

impl OpCode {
    /// The byte that selects this command on the SPI bus.
    pub open spec fn code(self) -> u8 {
        match self {
            OpCode::GetStatus => 0xC0,
            OpCode::WriteRegister => 0x18,
            OpCode::ReadRegister => 0x19,
            OpCode::WriteBuffer => 0x1A,
            OpCode::ReadBuffer => 0x1B,
            OpCode::SetSleep => 0x84,
            OpCode::SetStandby => 0x80,
            OpCode::SetFs => 0xC1,
            OpCode::SetTx => 0x83,
            OpCode::SetRx => 0x82,
            OpCode::SetRxDutyCycle => 0x94,
            OpCode::SetCad => 0xC5,
            OpCode::SetTxContinuousWave => 0xD1,
            OpCode::SetTxContinuousPreamble => 0xD2,
            OpCode::SetPacketType => 0x8A,
            OpCode::GetPacketType => 0x03,
            OpCode::SetRfFrequency => 0x86,
            OpCode::SetTxParams => 0x8E,
            OpCode::SetCadParams => 0x88,
            OpCode::SetBufferBaseAddress => 0x8F,
            OpCode::SetModulationParams => 0x8B,
            OpCode::SetPacketParams => 0x8C,
            OpCode::GetRxBufferStatus => 0x17,
            OpCode::GetPacketStatus => 0x1D,
            OpCode::GetRssiInst => 0x1F,
            OpCode::SetDioIrqParams => 0x8D,
            OpCode::GetIrqStatus => 0x15,
            OpCode::ClrIrqStatus => 0x97,
            OpCode::SetRegulatorMode => 0x96,
            OpCode::SetSaveContext => 0xD5,
            OpCode::SetAutoFS => 0x9E,
            OpCode::SetAutoTx => 0x98,
            OpCode::SetLongPreamble => 0x9B,
            OpCode::SetUartSpeed => 0x9D,
            OpCode::SetRangingRole => 0xA3,
            OpCode::SetAdvancedRanging => 0x9A,
        }
    }

    /// The opcode byte, as sent first in every command frame.
    pub fn value(self) -> (b: u8)
        ensures
            b == self.code(),
    {
        match self {
            OpCode::GetStatus => 0xC0,
            OpCode::WriteRegister => 0x18,
            OpCode::ReadRegister => 0x19,
            OpCode::WriteBuffer => 0x1A,
            OpCode::ReadBuffer => 0x1B,
            OpCode::SetSleep => 0x84,
            OpCode::SetStandby => 0x80,
            OpCode::SetFs => 0xC1,
            OpCode::SetTx => 0x83,
            OpCode::SetRx => 0x82,
            OpCode::SetRxDutyCycle => 0x94,
            OpCode::SetCad => 0xC5,
            OpCode::SetTxContinuousWave => 0xD1,
            OpCode::SetTxContinuousPreamble => 0xD2,
            OpCode::SetPacketType => 0x8A,
            OpCode::GetPacketType => 0x03,
            OpCode::SetRfFrequency => 0x86,
            OpCode::SetTxParams => 0x8E,
            OpCode::SetCadParams => 0x88,
            OpCode::SetBufferBaseAddress => 0x8F,
            OpCode::SetModulationParams => 0x8B,
            OpCode::SetPacketParams => 0x8C,
            OpCode::GetRxBufferStatus => 0x17,
            OpCode::GetPacketStatus => 0x1D,
            OpCode::GetRssiInst => 0x1F,
            OpCode::SetDioIrqParams => 0x8D,
            OpCode::GetIrqStatus => 0x15,
            OpCode::ClrIrqStatus => 0x97,
            OpCode::SetRegulatorMode => 0x96,
            OpCode::SetSaveContext => 0xD5,
            OpCode::SetAutoFS => 0x9E,
            OpCode::SetAutoTx => 0x98,
            OpCode::SetLongPreamble => 0x9B,
            OpCode::SetUartSpeed => 0x9D,
            OpCode::SetRangingRole => 0xA3,
            OpCode::SetAdvancedRanging => 0x9A,
        }
    }
}

} // verus!
