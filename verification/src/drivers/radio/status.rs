use vstd::prelude::*;

use crate::drivers::radio::radio_config::ModemConfig;

verus! {

/// Circuit mode reported in bits 7:5 of the status byte.
#[derive(Debug, Clone, Copy, PartialEq, Eq, Structural)]
pub enum RadioMode {
    Reserved,
    StdbyRc,
    StdbyXosc,
    FS,
    Rx,
    Tx,
    Error,
}

/// Command status reported in bits 4:2 of the status byte.
#[derive(Debug, Clone, Copy, PartialEq, Eq, Structural)]
pub enum RadioCommandStatus {
    Reserved,
    CommandSuccess,
    DataAvailable,
    CommandTimeout,
    CommandError,
    FailedToExecuteCommand,
    CommandTxDone,
    Error,
}

/// The circuit mode named by the three-bit field `code`.
pub open spec fn mode_for(code: int) -> RadioMode {
    if code == 0 || code == 1 {
        RadioMode::Reserved
    } else if code == 2 {
        RadioMode::StdbyRc
    } else if code == 3 {
        RadioMode::StdbyXosc
    } else if code == 4 {
        RadioMode::FS
    } else if code == 5 {
        RadioMode::Rx
    } else if code == 6 {
        RadioMode::Tx
    } else {
        RadioMode::Error
    }
}

/// The command status named by the three-bit field `code`.
pub open spec fn command_status_for(code: int) -> RadioCommandStatus {
    if code == 0 {
        RadioCommandStatus::Reserved
    } else if code == 1 {
        RadioCommandStatus::CommandSuccess
    } else if code == 2 {
        RadioCommandStatus::DataAvailable
    } else if code == 3 {
        RadioCommandStatus::CommandTimeout
    } else if code == 4 {
        RadioCommandStatus::CommandError
    } else if code == 5 {
        RadioCommandStatus::FailedToExecuteCommand
    } else if code == 6 {
        RadioCommandStatus::CommandTxDone
    } else {
        RadioCommandStatus::Error
    }
}

/// The decoded status byte that the SX1280 returns first in every SPI
/// transfer.
#[derive(Debug, Clone, Copy, PartialEq, Eq, Structural)]
pub struct RadioStatus {
    mode: RadioMode,
    command_status: RadioCommandStatus,
}

impl RadioStatus {
    /// The circuit mode this status reports.
    pub closed spec fn circuit_mode(self) -> RadioMode {
        self.mode
    }

    /// The command status this status reports.
    pub closed spec fn command_outcome(self) -> RadioCommandStatus {
        self.command_status
    }

    /// The status that a status byte decodes to.
    pub closed spec fn decoded(status: u8) -> RadioStatus {
        RadioStatus {
            mode: mode_for(status as int / 32),
            command_status: command_status_for((status as int / 4) % 8),
        }
    }

    /// The status before any byte has been read from the radio.
    pub fn new() -> (r: Self)
        ensures
            r.circuit_mode() == RadioMode::Error,
            r.command_outcome() == RadioCommandStatus::Error,
    {
        Self { mode: RadioMode::Error, command_status: RadioCommandStatus::Error }
    }

    /// Decodes a status byte: circuit mode from bits 7:5, command status
    /// from bits 4:2.
    pub fn interpret_status(status: &u8) -> (r: Self)
        ensures
            r.circuit_mode() == mode_for(*status as int / 32),
            r.command_outcome() == command_status_for((*status as int / 4) % 8),
            r == RadioStatus::decoded(*status),
    {
        let s: u8 = *status;
        assert((s >> 5u32) == s / 32 && (s >> 2u32) == s / 4) by (bit_vector);
        let mode_raw: u8 = s.unbounded_shr(5);
        let command_status_raw: u8 = s.unbounded_shr(2) % 8;
        let mode = match mode_raw {
            0 => RadioMode::Reserved,
            1 => RadioMode::Reserved,
            2 => RadioMode::StdbyRc,
            3 => RadioMode::StdbyXosc,
            4 => RadioMode::FS,
            5 => RadioMode::Rx,
            6 => RadioMode::Tx,
            _ => RadioMode::Error,
        };

        let command_status = match command_status_raw {
            0 => RadioCommandStatus::Reserved,
            1 => RadioCommandStatus::CommandSuccess,
            2 => RadioCommandStatus::DataAvailable,
            3 => RadioCommandStatus::CommandTimeout,
            4 => RadioCommandStatus::CommandError,
            5 => RadioCommandStatus::FailedToExecuteCommand,
            6 => RadioCommandStatus::CommandTxDone,
            _ => RadioCommandStatus::Error,
        };

        Self { mode, command_status }
    }

    /// The circuit mode this status reports.
    pub fn mode(&self) -> (r: RadioMode)
        ensures
            r == self.circuit_mode(),
    {
        self.mode
    }

    /// The command status this status reports.
    pub fn command_status(&self) -> (r: RadioCommandStatus)
        ensures
            r == self.command_outcome(),
    {
        self.command_status
    }
}

/// Link quality of the last received packet, as raw register values.
#[derive(Debug, Clone, Copy, PartialEq, Eq, Structural)]
pub enum PacketStatus {
    Lora { rssi_sync_raw: u8, snr_pkt_raw: u8 },
}

impl PacketStatus {
    /// Reads the GetPacketStatus reply: for LoRa, RSSI of the sync word in
    /// byte 2 and SNR of the packet in byte 3.
    pub fn interpret_status(raw_status: [u8; 7], modem: ModemConfig) -> (r: PacketStatus)
        ensures
            r == (PacketStatus::Lora { rssi_sync_raw: raw_status@[2], snr_pkt_raw: raw_status@[3] }),
    {
        match modem {
            ModemConfig::LoRa { .. } => PacketStatus::Lora {
                rssi_sync_raw: raw_status[2],
                snr_pkt_raw: raw_status[3],
            },
        }
    }
}

/// The two low bits of a status byte are reserved: bytes that differ only
/// there decode to the same status.
pub proof fn lemma_reserved_bits_ignored(a: u8, b: u8)
    requires
        a / 4 == b / 4,
    ensures
        RadioStatus::decoded(a) == RadioStatus::decoded(b),
{
    assert(a as int / 32 == (a as int / 4) / 8);
    assert(b as int / 32 == (b as int / 4) / 8);
}

} // verus!
