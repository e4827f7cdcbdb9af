use fire_ant_control::drivers::radio::radio_config::RadioConfig;
use fire_ant_control::drivers::radio::status::{
    PacketStatus, RadioCommandStatus, RadioMode, RadioStatus,
};

#[test]
fn new_status_is_error() {
    let s = RadioStatus::new();
    assert_eq!(s.mode(), RadioMode::Error);
    assert_eq!(s.command_status(), RadioCommandStatus::Error);
}

#[test]
fn interpret_status_fields() {
    // 0b010_001_00: standby RC, command success.
    let s = RadioStatus::interpret_status(&0x44);
    assert_eq!(s.mode(), RadioMode::StdbyRc);
    assert_eq!(s.command_status(), RadioCommandStatus::CommandSuccess);
    // 0b101_010_00: RX, data available.
    let s = RadioStatus::interpret_status(&0xA8);
    assert_eq!(s.mode(), RadioMode::Rx);
    assert_eq!(s.command_status(), RadioCommandStatus::DataAvailable);
    // 0b110_110_00: TX, TX done.
    let s = RadioStatus::interpret_status(&0xD8);
    assert_eq!(s.mode(), RadioMode::Tx);
    assert_eq!(s.command_status(), RadioCommandStatus::CommandTxDone);
}

#[test]
fn interpret_status_every_mode() {
    let modes = [
        RadioMode::Reserved,
        RadioMode::Reserved,
        RadioMode::StdbyRc,
        RadioMode::StdbyXosc,
        RadioMode::FS,
        RadioMode::Rx,
        RadioMode::Tx,
        RadioMode::Error,
    ];
    let statuses = [
        RadioCommandStatus::Reserved,
        RadioCommandStatus::CommandSuccess,
        RadioCommandStatus::DataAvailable,
        RadioCommandStatus::CommandTimeout,
        RadioCommandStatus::CommandError,
        RadioCommandStatus::FailedToExecuteCommand,
        RadioCommandStatus::CommandTxDone,
        RadioCommandStatus::Error,
    ];
    for byte in 0..=255u8 {
        let s = RadioStatus::interpret_status(&byte);
        assert_eq!(s.mode(), modes[(byte >> 5) as usize]);
        assert_eq!(s.command_status(), statuses[((byte >> 2) & 7) as usize]);
    }
}

#[test]
fn reserved_bits_ignored() {
    for low in 0..4u8 {
        assert_eq!(RadioStatus::interpret_status(&(0x5C | low)), RadioStatus::interpret_status(&0x5C));
    }
}

#[test]
fn packet_status_reads_bytes_two_and_three() {
    let p = PacketStatus::interpret_status([0x40, 0x00, 0x9A, 0x0C, 0, 0, 0], RadioConfig::new_lora().modem);
    assert_eq!(p, PacketStatus::Lora { rssi_sync_raw: 0x9A, snr_pkt_raw: 0x0C });
}
