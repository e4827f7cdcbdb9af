use vstd::prelude::*;

use crate::drivers::radio::opcode::OpCode;

verus! {

/// The no-operation byte used to pad command frames.
pub const NOP: u8 = 0x00;

/// Everything the driver sends to configure the SX1280.
pub struct RadioConfig {
    pub modem: ModemConfig,
    pub standby: StandbyConfig,
    pub tx_buffer_base_address: u8,
    pub rx_buffer_base_address: u8,
    pub tx_params: TxParams,
    pub packet_type: PacketType,
}

/// The preamble-length byte of SetPacketParams: exponent in the high nibble,
/// mantissa in the low nibble (preamble length = mantissa × 2^exponent).
pub open spec fn preamble_byte(mant: u8, exp: u8) -> int {
    exp * 16 + mant
}

/// The board's LoRa configuration (see `RadioConfig::new_lora`).
pub open spec fn is_lora_default(r: RadioConfig) -> bool {
    &&& r.modem matches ModemConfig::LoRa { modulation, packet } && {
        &&& modulation == (LoRaModulationParams {
            spread_factor: LoraSf::LoraSf10,
            bandwidth: LoraBw::LoraBw800,
            coding_rate: LoraCr::LoraCrLi4_6,
        })
        &&& packet.preamble_mant() == 3
        &&& packet.preamble_exp() == 2
        &&& packet.header() == LoraHeaderType::ExplicitHeader
        &&& packet.payload_len() == 1
        &&& packet.crc_mode() == LoraCrc::Enable
        &&& packet.iq_mode() == LoraIq::Std
    }
    &&& r.standby == StandbyConfig::StdbyRc
    &&& r.tx_buffer_base_address == 0x00
    &&& r.rx_buffer_base_address == 0x80
    &&& r.tx_params.power_level() == 0x1F
    &&& r.tx_params.ramp() == RampTime::Ramp20Us
    &&& r.packet_type == PacketType::LORA
}

impl RadioConfig {
    /// SetStandby frame.
    pub open spec fn standby_frame(self) -> Seq<u8> {
        seq![OpCode::SetStandby.code(), self.standby.code()]
    }

    /// SetPacketType frame.
    pub open spec fn packet_type_frame(self) -> Seq<u8> {
        seq![OpCode::SetPacketType.code(), self.packet_type.code()]
    }

    /// SetRfFrequency frame for 2.4 GHz.
    pub open spec fn rf_frequency_frame(self) -> Seq<u8> {
        seq![OpCode::SetRfFrequency.code(), 0xb8u8, 0x9du8, 0x89u8]
    }

    /// SetBufferBaseAddress frame.
    pub open spec fn buffer_base_address_frame(self) -> Seq<u8> {
        seq![
            OpCode::SetBufferBaseAddress.code(),
            self.tx_buffer_base_address,
            self.rx_buffer_base_address,
        ]
    }

    /// SetModulationParams frame.
    pub open spec fn modulation_params_frame(self) -> Seq<u8> {
        match self.modem {
            ModemConfig::LoRa { modulation, .. } => seq![
                OpCode::SetModulationParams.code(),
                modulation.spread_factor.code(),
                modulation.bandwidth.code(),
                modulation.coding_rate.code(),
            ],
        }
    }

    /// SetPacketParams frame.
    pub open spec fn packet_params_frame(self) -> Seq<u8> {
        match self.modem {
            ModemConfig::LoRa { packet, .. } => seq![
                OpCode::SetPacketParams.code(),
                preamble_byte(packet.preamble_mant(), packet.preamble_exp()) as u8,
                packet.header().code(),
                packet.payload_len(),
                packet.crc_mode().code(),
                packet.iq_mode().code(),
                NOP,
                NOP,
            ],
        }
    }

    /// SetTxParams frame.
    pub open spec fn tx_params_frame(self) -> Seq<u8> {
        seq![OpCode::SetTxParams.code(), self.tx_params.power_level(), self.tx_params.ramp().code()]
    }

    /// SetTx frame (no timeout).
    pub open spec fn tx_frame(self) -> Seq<u8> {
        seq![OpCode::SetTx.code(), 0u8, 0u8, 0u8]
    }

    /// SetRx frame (no timeout).
    pub open spec fn rx_frame(self) -> Seq<u8> {
        seq![OpCode::SetRx.code(), 0u8, 0u8, 0u8]
    }
}

impl RadioConfig {
    /// The LoRa configuration the board runs with: SF10, 800 kHz, CR 4/6
    /// long-interleaved, a 12-symbol preamble, explicit header, one-byte
    /// payload, CRC on, standard IQ, full power with a 20 µs ramp, standby on
    /// the RC oscillator, TX buffer at 0x00 and RX buffer at 0x80.
    pub fn new_lora() -> (r: Self)
        ensures
            is_lora_default(r),
    {
        let modulation = LoRaModulationParams {
            spread_factor: LoraSf::LoraSf10,
            bandwidth: LoraBw::LoraBw800,
            coding_rate: LoraCr::LoraCrLi4_6,
        };
        let packet = LoRaPacketParams {
            preamble_length_mant: 3,
            preamble_length_exp: 2,
            header_type: LoraHeaderType::ExplicitHeader,
            payload_length: 1,
            crc: LoraCrc::Enable,
            iq: LoraIq::Std,
        };
        let modem = ModemConfig::LoRa { modulation, packet };

        let tx_params = TxParams {
            power: 0x1F,  // Output Power (dB) = -18 + power, from 0 to 31
            ramp_time: RampTime::Ramp20Us,
        };

        RadioConfig {
            modem,
            standby: StandbyConfig::StdbyRc,
            tx_buffer_base_address: 0x00,
            rx_buffer_base_address: 0x80,
            tx_params,
            packet_type: PacketType::LORA,
        }
    }

    /// SetTxParams: output power and ramp time.
    pub fn set_tx_params_command(&self) -> (r: [u8; 3])
        ensures
            r@ == self.tx_params_frame(),
    {
        [OpCode::SetTxParams.value(), self.tx_params.power, self.tx_params.ramp_time.value()]
    }

    /// SetStandby with the configured oscillator.
    pub fn set_standby_command(&self) -> (r: [u8; 2])
        ensures
            r@ == self.standby_frame(),
    {
        [OpCode::SetStandby.value(), self.standby.value()]
    }

    /// SetTx with no timeout.
    pub fn set_tx_command(&self) -> (r: [u8; 4])
        ensures
            r@ == self.tx_frame(),
    {
        // No timeout, can be added, refer to datasheet
        [OpCode::SetTx.value(), 0, 0, 0]
    }

    /// SetRx with no timeout.
    pub fn set_rx_command(&self) -> (r: [u8; 4])
        ensures
            r@ == self.rx_frame(),
    {
        // No timeout, can be added, refer to datasheet
        [OpCode::SetRx.value(), 0, 0, 0]
    }

    /// SetPacketType with the configured packet engine.
    pub fn set_packet_type_command(&self) -> (r: [u8; 2])
        ensures
            r@ == self.packet_type_frame(),
    {
        [OpCode::SetPacketType.value(), self.packet_type.value()]
    }

    /// SetBufferBaseAddress: TX base address, then RX base address.
    pub fn set_buffer_base_address_command(&self) -> (r: [u8; 3])
        ensures
            r@ == self.buffer_base_address_frame(),
    {
        [
            OpCode::SetBufferBaseAddress.value(),
            self.tx_buffer_base_address,
            self.rx_buffer_base_address,
        ]
    }

    /// SetModulationParams: spreading factor, bandwidth, coding rate.
    pub fn set_modulation_params_command(&self) -> (r: [u8; 4])
        ensures
            r@ == self.modulation_params_frame(),
    {
        match &self.modem {
            ModemConfig::LoRa { modulation, .. } => [
                OpCode::SetModulationParams.value(),
                modulation.spread_factor.value(),
                modulation.bandwidth.value(),
                modulation.coding_rate.value(),
            ],
        }
    }

    /// SetPacketParams: preamble length byte, header type, payload length,
    /// CRC, IQ, and two padding bytes.
    pub fn set_packet_params_command(&self) -> (r: [u8; 8])
        ensures
            r@ == self.packet_params_frame(),
    {
        match self.modem {
            ModemConfig::LoRa { packet, .. } => {
                proof {
                    use_type_invariant(&packet);
                }
                // Default preamble reccommended is 12
                // Preamble length = preamble_len_mant x 2 ^ preamble_len_exp
                // e.g. 3 x 2 ^ 2 = 12
                let exp: u8 = packet.preamble_length_exp;
                let mant: u8 = packet.preamble_length_mant;
                let shifted: u8 = exp.unbounded_shl(4);
                assert(exp < 16 ==> (exp << 4u32) == exp * 16) by (bit_vector);
                // The assembled byte of preamble length
                let preamble_len: u8 = shifted + mant;
                [
                    OpCode::SetPacketParams.value(),
                    preamble_len,
                    packet.header_type.value(),
                    packet.payload_length,
                    packet.crc.value(),
                    packet.iq.value(),
                    NOP,
                    NOP,
                ]
            },
        }
    }

    /// SetRfFrequency: 2.4 GHz exactly (0xB89D89 PLL steps).
    pub fn set_rf_frequency_command(&self) -> (r: [u8; 4])
        ensures
            r@ == self.rf_frequency_frame(),
    {
        [OpCode::SetRfFrequency.value(), 0xb8, 0x9d, 0x89]
    }
}

/// The modem the radio is configured for, with its parameters.
#[derive(Debug, Clone, Copy, PartialEq, Eq, Structural)]
pub enum ModemConfig {
    LoRa { modulation: LoRaModulationParams, packet: LoRaPacketParams },
}

/// LoRa modulation parameters.
#[derive(Debug, Clone, Copy, PartialEq, Eq, Structural)]
pub struct LoRaModulationParams {
    pub spread_factor: LoraSf,
    pub bandwidth: LoraBw,
    pub coding_rate: LoraCr,
}

/// LoRa packet parameters; the preamble mantissa and exponent are four-bit
/// fields of one byte.
#[derive(Debug, Clone, Copy, PartialEq, Eq, Structural)]
pub struct LoRaPacketParams {
    preamble_length_mant: u8,
    preamble_length_exp: u8,
    header_type: LoraHeaderType,
    payload_length: u8,
    crc: LoraCrc,
    iq: LoraIq,
}

impl LoRaPacketParams {
    /// Both preamble nibbles fit in four bits.
    #[verifier::type_invariant]
    spec fn nibbles_fit(self) -> bool {
        self.preamble_length_mant < 0x10 && self.preamble_length_exp < 0x10
    }

    /// Preamble length mantissa (four bits).
    pub closed spec fn preamble_mant(self) -> u8 {
        self.preamble_length_mant
    }

    /// Preamble length exponent (four bits).
    pub closed spec fn preamble_exp(self) -> u8 {
        self.preamble_length_exp
    }

    /// Explicit or implicit header.
    pub closed spec fn header(self) -> LoraHeaderType {
        self.header_type
    }

    /// Payload length in bytes.
    pub closed spec fn payload_len(self) -> u8 {
        self.payload_length
    }

    /// Whether the payload carries a CRC.
    pub closed spec fn crc_mode(self) -> LoraCrc {
        self.crc
    }

    /// IQ polarity.
    pub closed spec fn iq_mode(self) -> LoraIq {
        self.iq
    }
}

/// Transmit power and power-amplifier ramp time.
pub struct TxParams {
    power: u8,
    ramp_time: RampTime,
}

impl TxParams {
    /// Output power step: output power (dB) = -18 + power.
    pub closed spec fn power_level(self) -> u8 {
        self.power
    }

    /// Power amplifier ramp time.
    pub closed spec fn ramp(self) -> RampTime {
        self.ramp_time
    }
}

/// Decoding the preamble byte gives back the mantissa and the exponent.
pub proof fn lemma_preamble_byte_decodes(mant: u8, exp: u8)
    requires
        mant < 16,
        exp < 16,
    ensures
        0 <= preamble_byte(mant, exp) < 256,
        preamble_byte(mant, exp) / 16 == exp,
        preamble_byte(mant, exp) % 16 == mant,
{
}

/// Packet engine selected by SetPacketType.
#[derive(Debug, Clone, Copy, PartialEq, Eq, Structural)]
pub enum PacketType {
    GFSK,
    LORA,
    Ranging,
    FLRC,
    BLE,
}

impl PacketType {
    /// The byte the SX1280 expects for this setting.
    pub open spec fn code(self) -> u8 {
        match self {
            PacketType::GFSK => 0x00,
            PacketType::LORA => 0x01,
            PacketType::Ranging => 0x02,
            PacketType::FLRC => 0x03,
            PacketType::BLE => 0x04,
        }
    }

    /// The byte the SX1280 expects for this setting.
    pub fn value(self) -> (b: u8)
        ensures
            b == self.code(),
    {
        match self {
            PacketType::GFSK => 0x00,
            PacketType::LORA => 0x01,
            PacketType::Ranging => 0x02,
            PacketType::FLRC => 0x03,
            PacketType::BLE => 0x04,
        }
    }
}

/// Oscillator kept running in standby.
#[derive(Debug, Clone, Copy, PartialEq, Eq, Structural)]
pub enum StandbyConfig {
    StdbyRc,
    StdbyXosc,
}

impl StandbyConfig {
    /// The byte the SX1280 expects for this setting.
    pub open spec fn code(self) -> u8 {
        match self {
            StandbyConfig::StdbyRc => 0x00,
            StandbyConfig::StdbyXosc => 0x01,
        }
    }

    /// The byte the SX1280 expects for this setting.
    pub fn value(self) -> (b: u8)
        ensures
            b == self.code(),
    {
        match self {
            StandbyConfig::StdbyRc => 0x00,
            StandbyConfig::StdbyXosc => 0x01,
        }
    }
}

/// LoRa spreading factor.
#[derive(Debug, Clone, Copy, PartialEq, Eq, Structural)]
pub enum LoraSf {
    LoraSf5,
    LoraSf6,
    LoraSf7,
    LoraSf8,
    LoraSf9,
    LoraSf10,
    LoraSf11,
    LoraSf12,
}

impl LoraSf {
    /// The byte the SX1280 expects for this setting.
    pub open spec fn code(self) -> u8 {
        match self {
            LoraSf::LoraSf5 => 0x50,
            LoraSf::LoraSf6 => 0x60,
            LoraSf::LoraSf7 => 0x70,
            LoraSf::LoraSf8 => 0x80,
            LoraSf::LoraSf9 => 0x90,
            LoraSf::LoraSf10 => 0xA0,
            LoraSf::LoraSf11 => 0xB0,
            LoraSf::LoraSf12 => 0xC0,
        }
    }

    /// The byte the SX1280 expects for this setting.
    pub fn value(self) -> (b: u8)
        ensures
            b == self.code(),
    {
        match self {
            LoraSf::LoraSf5 => 0x50,
            LoraSf::LoraSf6 => 0x60,
            LoraSf::LoraSf7 => 0x70,
            LoraSf::LoraSf8 => 0x80,
            LoraSf::LoraSf9 => 0x90,
            LoraSf::LoraSf10 => 0xA0,
            LoraSf::LoraSf11 => 0xB0,
            LoraSf::LoraSf12 => 0xC0,
        }
    }
}

/// LoRa bandwidth.
#[derive(Debug, Clone, Copy, PartialEq, Eq, Structural)]
pub enum LoraBw {
    LoraBw1600,
    LoraBw800,
    LoraBw400,
    LoraBw200,
}

impl LoraBw {
    /// The byte the SX1280 expects for this setting.
    pub open spec fn code(self) -> u8 {
        match self {
            LoraBw::LoraBw1600 => 0x0A,
            LoraBw::LoraBw800 => 0x18,
            LoraBw::LoraBw400 => 0x26,
            LoraBw::LoraBw200 => 0x34,
        }
    }

    /// The byte the SX1280 expects for this setting.
    pub fn value(self) -> (b: u8)
        ensures
            b == self.code(),
    {
        match self {
            LoraBw::LoraBw1600 => 0x0A,
            LoraBw::LoraBw800 => 0x18,
            LoraBw::LoraBw400 => 0x26,
            LoraBw::LoraBw200 => 0x34,
        }
    }
}

/// LoRa coding rate.
#[derive(Debug, Clone, Copy, PartialEq, Eq, Structural)]
pub enum LoraCr {
    LoraCr4_5,
    LoraCr4_6,
    LoraCr4_7,
    LoraCr4_8,
    LoraCrLi4_5,
    LoraCrLi4_6,
    LoraCrLi4_8,
}

impl LoraCr {
    /// The byte the SX1280 expects for this setting.
    pub open spec fn code(self) -> u8 {
        match self {
            LoraCr::LoraCr4_5 => 0x01,
            LoraCr::LoraCr4_6 => 0x02,
            LoraCr::LoraCr4_7 => 0x03,
            LoraCr::LoraCr4_8 => 0x04,
            LoraCr::LoraCrLi4_5 => 0x05,
            LoraCr::LoraCrLi4_6 => 0x06,
            LoraCr::LoraCrLi4_8 => 0x07,
        }
    }

    /// The byte the SX1280 expects for this setting.
    pub fn value(self) -> (b: u8)
        ensures
            b == self.code(),
    {
        match self {
            LoraCr::LoraCr4_5 => 0x01,
            LoraCr::LoraCr4_6 => 0x02,
            LoraCr::LoraCr4_7 => 0x03,
            LoraCr::LoraCr4_8 => 0x04,
            LoraCr::LoraCrLi4_5 => 0x05,
            LoraCr::LoraCrLi4_6 => 0x06,
            LoraCr::LoraCrLi4_8 => 0x07,
        }
    }
}

/// LoRa header mode.
#[derive(Debug, Clone, Copy, PartialEq, Eq, Structural)]
pub enum LoraHeaderType {
    ExplicitHeader,
    ImplicitHeader,
}

impl LoraHeaderType {
    /// The byte the SX1280 expects for this setting.
    pub open spec fn code(self) -> u8 {
        match self {
            LoraHeaderType::ExplicitHeader => 0x00,
            LoraHeaderType::ImplicitHeader => 0x80,
        }
    }

    /// The byte the SX1280 expects for this setting.
    pub fn value(self) -> (b: u8)
        ensures
            b == self.code(),
    {
        match self {
            LoraHeaderType::ExplicitHeader => 0x00,
            LoraHeaderType::ImplicitHeader => 0x80,
        }
    }
}

/// LoRa payload CRC.
#[derive(Debug, Clone, Copy, PartialEq, Eq, Structural)]
pub enum LoraCrc {
    Enable,
    Disable,
}

impl LoraCrc {
    /// The byte the SX1280 expects for this setting.
    pub open spec fn code(self) -> u8 {
        match self {
            LoraCrc::Enable => 0x20,
            LoraCrc::Disable => 0x00,
        }
    }

    /// The byte the SX1280 expects for this setting.
    pub fn value(self) -> (b: u8)
        ensures
            b == self.code(),
    {
        match self {
            LoraCrc::Enable => 0x20,
            LoraCrc::Disable => 0x00,
        }
    }
}

/// LoRa IQ polarity.
#[derive(Debug, Clone, Copy, PartialEq, Eq, Structural)]
pub enum LoraIq {
    Inverted,
    Std,
}

impl LoraIq {
    /// The byte the SX1280 expects for this setting.
    pub open spec fn code(self) -> u8 {
        match self {
            LoraIq::Inverted => 0x00,
            LoraIq::Std => 0x40,
        }
    }

    /// The byte the SX1280 expects for this setting.
    pub fn value(self) -> (b: u8)
        ensures
            b == self.code(),
    {
        match self {
            LoraIq::Inverted => 0x00,
            LoraIq::Std => 0x40,
        }
    }
}

/// Power amplifier ramp time.
#[derive(Debug, Clone, Copy, PartialEq, Eq, Structural)]
pub enum RampTime {
    Ramp02Us,
    Ramp04Us,
    Ramp06Us,
    Ramp08Us,
    Ramp10Us,
    Ramp12Us,
    Ramp16Us,
    Ramp20Us,
}

impl RampTime {
    /// The byte the SX1280 expects for this setting.
    pub open spec fn code(self) -> u8 {
        match self {
            RampTime::Ramp02Us => 0x00,
            RampTime::Ramp04Us => 0x20,
            RampTime::Ramp06Us => 0x40,
            RampTime::Ramp08Us => 0x60,
            RampTime::Ramp10Us => 0x80,
            RampTime::Ramp12Us => 0xA0,
            RampTime::Ramp16Us => 0xC0,
            RampTime::Ramp20Us => 0xE0,
        }
    }

    /// The byte the SX1280 expects for this setting.
    pub fn value(self) -> (b: u8)
        ensures
            b == self.code(),
    {
        match self {
            RampTime::Ramp02Us => 0x00,
            RampTime::Ramp04Us => 0x20,
            RampTime::Ramp06Us => 0x40,
            RampTime::Ramp08Us => 0x60,
            RampTime::Ramp10Us => 0x80,
            RampTime::Ramp12Us => 0xA0,
            RampTime::Ramp16Us => 0xC0,
            RampTime::Ramp20Us => 0xE0,
        }
    }
}

impl LoraSf {
    /// The spreading factor: chips per symbol are 2 to this power.
    pub open spec fn factor(self) -> int {
        match self {
            LoraSf::LoraSf5 => 5,
            LoraSf::LoraSf6 => 6,
            LoraSf::LoraSf7 => 7,
            LoraSf::LoraSf8 => 8,
            LoraSf::LoraSf9 => 9,
            LoraSf::LoraSf10 => 10,
            LoraSf::LoraSf11 => 11,
            LoraSf::LoraSf12 => 12,
        }
    }
}

impl LoraBw {
    /// The bandwidth in kHz.
    pub open spec fn khz(self) -> int {
        match self {
            LoraBw::LoraBw1600 => 1600,
            LoraBw::LoraBw800 => 800,
            LoraBw::LoraBw400 => 400,
            LoraBw::LoraBw200 => 200,
        }
    }
}

impl LoraCr {
    /// The number of coded bits sent per four data bits (5 to 8).
    pub open spec fn coded_bits(self) -> int {
        match self {
            LoraCr::LoraCr4_5 | LoraCr::LoraCrLi4_5 => 5,
            LoraCr::LoraCr4_6 | LoraCr::LoraCrLi4_6 => 6,
            LoraCr::LoraCr4_7 => 7,
            LoraCr::LoraCr4_8 | LoraCr::LoraCrLi4_8 => 8,
        }
    }

    /// Whether the code is the long-interleaved one.
    pub open spec fn long_interleaved(self) -> bool {
        match self {
            LoraCr::LoraCrLi4_5 | LoraCr::LoraCrLi4_6 | LoraCr::LoraCrLi4_8 => true,
            _ => false,
        }
    }
}

impl RampTime {
    /// The ramp time in microseconds.
    pub open spec fn micros(self) -> int {
        match self {
            RampTime::Ramp02Us => 2,
            RampTime::Ramp04Us => 4,
            RampTime::Ramp06Us => 6,
            RampTime::Ramp08Us => 8,
            RampTime::Ramp10Us => 10,
            RampTime::Ramp12Us => 12,
            RampTime::Ramp16Us => 16,
            RampTime::Ramp20Us => 20,
        }
    }
}

/// The SetModulationParams bytes follow the datasheet's encoding: the
/// spreading-factor byte is the factor times 16 (SF5..SF12 give 0x50..0xC0),
/// bandwidths 1600, 800, 400, 200 kHz give 0x0A, 0x18, 0x26, 0x34 (steps of
/// 14 as the bandwidth halves), the coding-rate byte is the number of coded
/// bits minus 4 for the plain codes (4/5..4/8 give 1..4) and 5, 6, 7 for the
/// long-interleaved 4/5, 4/6, 4/8. Distinct settings give distinct bytes.
pub proof fn lemma_modulation_bytes(sf: LoraSf, sf2: LoraSf, bw: LoraBw, bw2: LoraBw, cr: LoraCr, cr2: LoraCr)
    ensures
        sf.code() == 16 * sf.factor(),
        bw.khz() == 1600 ==> bw.code() == 0x0A,
        bw.khz() == 800 ==> bw.code() == 0x0A + 14,
        bw.khz() == 400 ==> bw.code() == 0x0A + 28,
        bw.khz() == 200 ==> bw.code() == 0x0A + 42,
        !cr.long_interleaved() ==> cr.code() == cr.coded_bits() - 4,
        cr.long_interleaved() ==> cr.code() == (if cr.coded_bits() == 8 {
            7
        } else {
            cr.coded_bits()
        }),
        sf != sf2 ==> sf.code() != sf2.code(),
        bw != bw2 ==> bw.code() != bw2.code(),
        cr != cr2 ==> cr.code() != cr2.code(),
{
}

/// The SetTxParams ramp byte is 0x00 for 2 µs and rises by 0x20 per step of
/// the ramp times 2, 4, 6, 8, 10, 12, 16, 20 µs; distinct ramps give distinct
/// bytes. The packet type and standby bytes number their settings in
/// datasheet order, and the LoRa header, CRC and IQ bytes are either zero or a
/// single flag bit (implicit header 0x80, CRC on 0x20, standard IQ 0x40).
pub proof fn lemma_setting_bytes(r: RampTime, r2: RampTime, p: PacketType, p2: PacketType)
    ensures
        r.micros() <= 12 ==> r.code() == 0x20 * (r.micros() / 2 - 1),
        r.micros() == 16 ==> r.code() == 0xC0,
        r.micros() == 20 ==> r.code() == 0xE0,
        r != r2 ==> r.code() != r2.code(),
        r.micros() < r2.micros() ==> r.code() < r2.code(),
        p != p2 ==> p.code() != p2.code(),
        PacketType::GFSK.code() == 0,
        PacketType::LORA.code() == 1,
        PacketType::Ranging.code() == 2,
        PacketType::FLRC.code() == 3,
        PacketType::BLE.code() == 4,
        StandbyConfig::StdbyRc.code() == 0,
        StandbyConfig::StdbyXosc.code() == 1,
        LoraHeaderType::ExplicitHeader.code() == 0,
        LoraHeaderType::ImplicitHeader.code() == 0x80,
        LoraCrc::Disable.code() == 0,
        LoraCrc::Enable.code() == 0x20,
        LoraIq::Inverted.code() == 0,
        LoraIq::Std.code() == 0x40,
{
}

/// Every configuration frame starts with its SX1280 opcode and carries the
/// configured settings in place: the standby oscillator (0 for RC, 1 for the
/// crystal), the packet type, both buffer base addresses, the modulation
/// settings, the preamble as exponent and mantissa nibbles, the header, payload
/// length, CRC and IQ settings, the transmit power and its ramp; SetTx and
/// SetRx carry no timeout, and the frequency word is 0xB89D89 (2.4 GHz).
pub proof fn lemma_config_frames(c: RadioConfig)
    requires
        c.modem matches ModemConfig::LoRa { packet, .. } && packet.preamble_mant() < 16
            && packet.preamble_exp() < 16,
    ensures
        c.standby_frame() == seq![
            0x80u8,
            if c.standby == StandbyConfig::StdbyRc { 0x00u8 } else { 0x01u8 },
        ],
        c.packet_type_frame() == seq![0x8Au8, c.packet_type.code()],
        c.rf_frequency_frame() == seq![0x86u8, 0xB8u8, 0x9Du8, 0x89u8],
        c.buffer_base_address_frame() == seq![
            0x8Fu8,
            c.tx_buffer_base_address,
            c.rx_buffer_base_address,
        ],
        c.modem matches ModemConfig::LoRa { modulation, packet } && {
            &&& c.modulation_params_frame().len() == 4
            &&& c.modulation_params_frame()[0] == 0x8B
            &&& c.modulation_params_frame()[1] == 16 * modulation.spread_factor.factor()
            &&& c.modulation_params_frame()[2] == modulation.bandwidth.code()
            &&& c.modulation_params_frame()[3] == modulation.coding_rate.code()
            &&& c.packet_params_frame().len() == 8
            &&& c.packet_params_frame()[0] == 0x8C
            &&& c.packet_params_frame()[1] == packet.preamble_exp() * 16 + packet.preamble_mant()
            &&& c.packet_params_frame()[2] == (if packet.header()
                == LoraHeaderType::ImplicitHeader { 0x80u8 } else { 0x00u8 })
            &&& c.packet_params_frame()[3] == packet.payload_len()
            &&& c.packet_params_frame()[4] == (if packet.crc_mode() == LoraCrc::Enable {
                0x20u8
            } else {
                0x00u8
            })
            &&& c.packet_params_frame()[5] == (if packet.iq_mode() == LoraIq::Std {
                0x40u8
            } else {
                0x00u8
            })
            &&& c.packet_params_frame()[6] == 0
            &&& c.packet_params_frame()[7] == 0
        },
        c.tx_params_frame() == seq![0x8Eu8, c.tx_params.power_level(), c.tx_params.ramp().code()],
        c.tx_frame() == seq![0x83u8, 0u8, 0u8, 0u8],
        c.rx_frame() == seq![0x82u8, 0u8, 0u8, 0u8],
{
    match c.modem {
        ModemConfig::LoRa { modulation, packet } => {
            lemma_modulation_bytes(
                modulation.spread_factor,
                modulation.spread_factor,
                modulation.bandwidth,
                modulation.bandwidth,
                modulation.coding_rate,
                modulation.coding_rate,
            );
        },
    }
}

} // verus!
