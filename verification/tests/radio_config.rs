use fire_ant_control::drivers::radio::opcode::OpCode;
use fire_ant_control::drivers::radio::radio_config::{
    LoraBw, LoraCr, LoraCrc, LoraHeaderType, LoraIq, LoraSf, ModemConfig, PacketType, RadioConfig,
    RampTime, StandbyConfig,
};

#[test]
fn new_lora_defaults() {
    let c = RadioConfig::new_lora();
    assert_eq!(c.standby, StandbyConfig::StdbyRc);
    assert_eq!(c.tx_buffer_base_address, 0x00);
    assert_eq!(c.rx_buffer_base_address, 0x80);
    assert_eq!(c.packet_type, PacketType::LORA);
    match c.modem {
        ModemConfig::LoRa { modulation, .. } => {
            assert_eq!(modulation.spread_factor, LoraSf::LoraSf10);
            assert_eq!(modulation.bandwidth, LoraBw::LoraBw800);
            assert_eq!(modulation.coding_rate, LoraCr::LoraCrLi4_6);
        }
    }
}

#[test]
fn tx_params_command() {
    assert_eq!(RadioConfig::new_lora().set_tx_params_command(), [0x8E, 0x1F, 0xE0]);
}

#[test]
fn standby_command() {
    assert_eq!(RadioConfig::new_lora().set_standby_command(), [0x80, 0x00]);
}

#[test]
fn tx_and_rx_commands() {
    let c = RadioConfig::new_lora();
    assert_eq!(c.set_tx_command(), [0x83, 0, 0, 0]);
    assert_eq!(c.set_rx_command(), [0x82, 0, 0, 0]);
}

#[test]
fn packet_type_command() {
    assert_eq!(RadioConfig::new_lora().set_packet_type_command(), [0x8A, 0x01]);
}

#[test]
fn buffer_base_address_command() {
    let mut c = RadioConfig::new_lora();
    assert_eq!(c.set_buffer_base_address_command(), [0x8F, 0x00, 0x80]);
    c.tx_buffer_base_address = 0x10;
    c.rx_buffer_base_address = 0x20;
    assert_eq!(c.set_buffer_base_address_command(), [0x8F, 0x10, 0x20]);
}

#[test]
fn modulation_params_command() {
    let mut c = RadioConfig::new_lora();
    assert_eq!(c.set_modulation_params_command(), [0x8B, 0xA0, 0x18, 0x06]);
    if let ModemConfig::LoRa { mut modulation, packet } = c.modem {
        modulation.spread_factor = LoraSf::LoraSf5;
        modulation.bandwidth = LoraBw::LoraBw1600;
        modulation.coding_rate = LoraCr::LoraCr4_8;
        c.modem = ModemConfig::LoRa { modulation, packet };
    }
    assert_eq!(c.set_modulation_params_command(), [0x8B, 0x50, 0x0A, 0x04]);
}

#[test]
fn packet_params_command() {
    // Preamble 3 x 2^2 = 12 symbols: exponent 2 in the high nibble, mantissa 3 in the low one.
    assert_eq!(
        RadioConfig::new_lora().set_packet_params_command(),
        [0x8C, 0x23, 0x00, 0x01, 0x20, 0x40, 0x00, 0x00]
    );
}

#[test]
fn preamble_byte_decodes() {
    let preamble = RadioConfig::new_lora().set_packet_params_command()[1];
    let mant = preamble % 16;
    let exp = preamble / 16;
    assert_eq!((mant, exp), (3, 2));
    assert_eq!((mant as u32) << exp, 12);
}

#[test]
fn rf_frequency_command() {
    assert_eq!(RadioConfig::new_lora().set_rf_frequency_command(), [0x86, 0xB8, 0x9D, 0x89]);
}

#[test]
fn setting_bytes() {
    assert_eq!(OpCode::GetStatus.value(), 0xC0);
    assert_eq!(OpCode::SetAdvancedRanging.value(), 0x9A);
    assert_eq!(OpCode::GetPacketType.value(), 0x03);
    assert_eq!(PacketType::BLE.value(), 4);
    assert_eq!(StandbyConfig::StdbyXosc.value(), 1);
    assert_eq!(LoraSf::LoraSf12.value(), 0xC0);
    assert_eq!(LoraBw::LoraBw200.value(), 0x34);
    assert_eq!(LoraCr::LoraCrLi4_8.value(), 0x07);
    assert_eq!(LoraHeaderType::ImplicitHeader.value(), 0x80);
    assert_eq!(LoraCrc::Disable.value(), 0x00);
    assert_eq!(LoraIq::Inverted.value(), 0x00);
    assert_eq!(RampTime::Ramp02Us.value(), 0x00);
    assert_eq!(RampTime::Ramp12Us.value(), 0xA0);
}

#[test]
fn rf_frequency_is_2_4_ghz() {
    // Frequency = steps x 52 MHz / 2^18, one step being about 198 Hz.
    let cmd = RadioConfig::new_lora().set_rf_frequency_command();
    let steps = ((cmd[1] as u32) << 16) | ((cmd[2] as u32) << 8) | cmd[3] as u32;
    let hz = steps as f64 * 52.0e6 / (1u64 << 18) as f64;
    assert!((hz - 2.4e9).abs() < 52.0e6 / (1u64 << 18) as f64);
}
