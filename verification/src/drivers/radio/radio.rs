use vstd::prelude::*;

use crate::drivers::radio::irq::{flags_contain, IrqMask};
use crate::drivers::radio::opcode::OpCode;
use crate::drivers::radio::radio_config::{is_lora_default, LoraSf, ModemConfig, RadioConfig, NOP};
use crate::drivers::radio::status::{PacketStatus, RadioCommandStatus, RadioMode, RadioStatus};
use crate::std_calls::u16_to_be_bytes;

verus! {

/// Where the last received payload sits in the radio's data buffer.
#[derive(Debug, Clone, Copy, PartialEq, Eq, Structural)]
pub struct RxBufferStatus {
    pub rx_payload_length: u8,
    pub rx_start_buffer_pointer: u8,
}

/// WriteRegister frame: opcode, register address big-endian, value.
pub open spec fn write_register_frame(register: u16, value: u8) -> Seq<u8> {
    seq![OpCode::WriteRegister.code(), (register / 256) as u8, (register % 256) as u8, value]
}

/// ReadRegister frame: opcode, register address big-endian, then two bytes
/// clocked out while the status and the value come back.
pub open spec fn read_register_frame(register: u16) -> Seq<u8> {
    seq![OpCode::ReadRegister.code(), (register / 256) as u8, (register % 256) as u8, NOP, NOP]
}

/// WriteBuffer frame for one byte.
pub open spec fn write_buffer_frame(address: u8, data: u8) -> Seq<u8> {
    seq![OpCode::WriteBuffer.code(), address, data]
}

/// ReadBuffer frame for one byte.
pub open spec fn read_buffer_frame(address: u8) -> Seq<u8> {
    seq![OpCode::ReadBuffer.code(), address, NOP, NOP]
}

/// ClrIrqStatus frame: the flags to clear, high byte first.
pub open spec fn clear_irq_frame(mask: u16) -> Seq<u8> {
    seq![OpCode::ClrIrqStatus.code(), (mask / 256) as u8, (mask % 256) as u8]
}

/// GetIrqStatus frame.
pub open spec fn irq_status_frame() -> Seq<u8> {
    seq![OpCode::GetIrqStatus.code(), NOP, NOP, NOP]
}

/// GetPacketStatus frame.
pub open spec fn packet_status_frame() -> Seq<u8> {
    seq![OpCode::GetPacketStatus.code(), NOP, NOP, NOP, NOP, NOP, NOP]
}

/// GetRxBufferStatus frame.
pub open spec fn rx_buffer_status_frame() -> Seq<u8> {
    seq![OpCode::GetRxBufferStatus.code(), NOP, NOP, NOP]
}

/// The interrupts enabled by SetDioIrqParams: TX done (bit 0) routed to
/// DIO1, RX done (bit 1) to DIO2, RX/TX timeout (bit 14) to DIO3, with header
/// error (bit 5) and CRC error (bit 6) enabled as well.
pub open spec fn dio_irq_mask() -> u16 {
    0x4063
}

/// SetDioIrqParams frame: the enabled mask, then the DIO1, DIO2 and DIO3
/// masks, each high byte first.
pub open spec fn dio_irq_params_frame() -> Seq<u8> {
    seq![
        OpCode::SetDioIrqParams.code(),
        (dio_irq_mask() / 256) as u8,
        (dio_irq_mask() % 256) as u8,
        0x00u8,
        0x01u8,
        0x00u8,
        0x02u8,
        0x40u8,
        0x00u8,
    ]
}

/// The value written to register 0x925 for a spreading factor.
pub open spec fn sf_correction(sf: LoraSf) -> u8 {
    match sf {
        LoraSf::LoraSf5 | LoraSf::LoraSf6 => 0x1E,
        LoraSf::LoraSf7 | LoraSf::LoraSf8 => 0x37,
        _ => 0x32,
    }
}

/// SetModulationParams followed by the LoRa corrections: the
/// spreading-factor register and frequency error compensation.
pub open spec fn lora_modulation_frames(c: RadioConfig) -> Seq<Seq<u8>> {
    match c.modem {
        ModemConfig::LoRa { modulation, .. } => seq![
            c.modulation_params_frame(),
            write_register_frame(0x925, sf_correction(modulation.spread_factor)),
            write_register_frame(0x93c, 0x01),
        ],
    }
}

/// The bring-up sequence of a LoRa radio, in order.
pub open spec fn start_lora_frames(c: RadioConfig) -> Seq<Seq<u8>> {
    seq![c.standby_frame(), c.packet_type_frame(), c.rf_frequency_frame(), c.buffer_base_address_frame()]
        + lora_modulation_frames(c) + seq![c.packet_params_frame(), dio_irq_params_frame(), c.tx_params_frame()]
}

/// Transmitting one byte: clear every interrupt, put the byte at the TX base
/// address, start transmission.
pub open spec fn transmit_frames(c: RadioConfig, data: u8) -> Seq<Seq<u8>> {
    seq![clear_irq_frame(0xFFFF), write_buffer_frame(c.tx_buffer_base_address, data), c.tx_frame()]
}

/// The contents of a list of frames.
pub open spec fn frames_view(v: Seq<Vec<u8>>) -> Seq<Seq<u8>> {
    v.map_values(|f: Vec<u8>| f@)
}

/// Where a reception stands; each stage names the reply it consumes.
#[derive(Debug, Clone, Copy, PartialEq, Eq, Structural)]
pub enum ReceiveStage {
    /// Nothing sent yet.
    Start,
    /// SetRx was sent; its reply is due.
    Armed,
    /// The RX-done line went high.
    RxDone,
    /// GetPacketStatus was sent; its reply is due.
    GotPacketStatus,
    /// GetIrqStatus was sent; its reply is due.
    GotIrqStatus,
    /// ClrIrqStatus was sent; its reply is due.
    Cleared,
    /// GetRxBufferStatus was sent; its reply is due.
    GotBufferStatus,
    /// ReadBuffer was sent; its reply holds the payload.
    GotPayload,
}

/// What the caller must do next for a reception.
#[derive(Debug)]
pub enum ReceiveAction {
    /// Clock this frame through the SPI bus and hand back the reply.
    Transfer(Vec<u8>),
    /// Wait until the RX-done line (DIO2) is high.
    WaitForRxDone,
    /// The reception is over: this byte was received.
    Received(u8),
}

/// A reception action, with its frame taken by content.
pub enum ReceivePlan {
    Transfer(Seq<u8>),
    WaitForRxDone,
    Received(u8),
}

impl ReceiveAction {
    /// The action, with its frame taken by content.
    pub open spec fn plan(&self) -> ReceivePlan {
        match self {
            ReceiveAction::Transfer(f) => ReceivePlan::Transfer(f@),
            ReceiveAction::WaitForRxDone => ReceivePlan::WaitForRxDone,
            ReceiveAction::Received(b) => ReceivePlan::Received(*b),
        }
    }
}

/// Length of the reply a stage consumes (0: none).
pub open spec fn reply_len(stage: ReceiveStage) -> nat {
    match stage {
        ReceiveStage::Start => 0,
        ReceiveStage::Armed => 4,
        ReceiveStage::RxDone => 0,
        ReceiveStage::GotPacketStatus => 7,
        ReceiveStage::GotIrqStatus => 4,
        ReceiveStage::Cleared => 3,
        ReceiveStage::GotBufferStatus => 4,
        ReceiveStage::GotPayload => 4,
    }
}

impl ReceiveStage {
    /// The length of the reply this stage consumes (0: none).
    pub fn expected_reply_len(self) -> (r: usize)
        ensures
            r == reply_len(self),
    {
        match self {
            ReceiveStage::Start => 0,
            ReceiveStage::Armed => 4,
            ReceiveStage::RxDone => 0,
            ReceiveStage::GotPacketStatus => 7,
            ReceiveStage::GotIrqStatus => 4,
            ReceiveStage::Cleared => 3,
            ReceiveStage::GotBufferStatus => 4,
            ReceiveStage::GotPayload => 4,
        }
    }
}

/// The stage that follows a stage.
pub open spec fn next_stage(stage: ReceiveStage) -> ReceiveStage {
    match stage {
        ReceiveStage::Start => ReceiveStage::Armed,
        ReceiveStage::Armed => ReceiveStage::RxDone,
        ReceiveStage::RxDone => ReceiveStage::GotPacketStatus,
        ReceiveStage::GotPacketStatus => ReceiveStage::GotIrqStatus,
        ReceiveStage::GotIrqStatus => ReceiveStage::Cleared,
        ReceiveStage::Cleared => ReceiveStage::GotBufferStatus,
        ReceiveStage::GotBufferStatus => ReceiveStage::GotPayload,
        ReceiveStage::GotPayload => ReceiveStage::Start,
    }
}

/// What a stage asks for, given the reply it consumes.
pub open spec fn receive_plan(stage: ReceiveStage, reply: Seq<u8>, c: RadioConfig) -> ReceivePlan {
    match stage {
        ReceiveStage::Start => ReceivePlan::Transfer(c.rx_frame()),
        ReceiveStage::Armed => ReceivePlan::WaitForRxDone,
        ReceiveStage::RxDone => ReceivePlan::Transfer(packet_status_frame()),
        ReceiveStage::GotPacketStatus => ReceivePlan::Transfer(irq_status_frame()),
        ReceiveStage::GotIrqStatus => ReceivePlan::Transfer(clear_irq_frame(0xFFFF)),
        ReceiveStage::Cleared => ReceivePlan::Transfer(rx_buffer_status_frame()),
        ReceiveStage::GotBufferStatus => ReceivePlan::Transfer(read_buffer_frame(reply[3])),
        ReceiveStage::GotPayload => ReceivePlan::Received(reply[3]),
    }
}

fn frame(cmd: &[u8]) -> (v: Vec<u8>)
    ensures
        v@ == cmd@,
{
    vstd::slice::slice_to_vec(cmd)
}

/// The SX1280 driver's protocol state: the last status byte the radio
/// reported and the configuration it was brought up with. The SPI bus and
/// the GPIO lines belong to the caller, which clocks the frames this driver
/// builds and hands the replies back.
pub struct Radio {
    status: RadioStatus,
    config: RadioConfig,
}

impl Radio {
    /// The last status reported by the radio.
    pub closed spec fn last_status(self) -> RadioStatus {
        self.status
    }

    /// The configuration the radio runs with.
    pub closed spec fn configuration(self) -> RadioConfig {
        self.config
    }

    /// A driver in the LoRa configuration of `RadioConfig::new_lora`, with no
    /// status read yet. Send `start_lora` to bring the radio up.
    pub fn new() -> (r: Radio)
        ensures
            r.last_status().circuit_mode() == RadioMode::Error,
            r.last_status().command_outcome() == RadioCommandStatus::Error,
            is_lora_default(r.configuration()),
    {
        Radio { status: RadioStatus::new(), config: RadioConfig::new_lora() }
    }

    /// The configuration the radio runs with.
    pub fn config(&self) -> (r: &RadioConfig)
        ensures
            *r == self.configuration(),
    {
        &self.config
    }

    /// The last status reported by the radio.
    pub fn status(&self) -> (r: RadioStatus)
        ensures
            r == self.last_status(),
    {
        self.status
    }

    /// Takes in the reply to a command frame: its first byte is the radio's
    /// status.
    pub fn record_status(&mut self, reply: &[u8])
        requires
            reply@.len() >= 1,
        ensures
            final(self).last_status() == RadioStatus::decoded(reply@[0]),
            final(self).configuration() == old(self).configuration(),
    {
        self.status = RadioStatus::interpret_status(&reply[0]);
    }

    /// The frames that bring the radio up in LoRa mode, in order: standby,
    /// packet type, frequency, buffer base addresses, modulation parameters
    /// with the LoRa register corrections, packet parameters, interrupt
    /// routing, transmit parameters.
    pub fn start_lora(&self) -> (r: Vec<Vec<u8>>)
        ensures
            frames_view(r@) == start_lora_frames(self.configuration()),
    {
        let mut r: Vec<Vec<u8>> = Vec::new();
        r.push(frame(&self.config.set_standby_command()));
        r.push(frame(&self.config.set_packet_type_command()));
        r.push(frame(&self.config.set_rf_frequency_command()));
        r.push(frame(&self.config.set_buffer_base_address_command()));
        let mut modulation = self.set_lora_modulation_params();
        r.append(&mut modulation);
        r.push(frame(&self.config.set_packet_params_command()));
        r.push(frame(&Self::set_dio_irq_params()));
        r.push(frame(&self.config.set_tx_params_command()));
        assert(frames_view(r@) =~= start_lora_frames(self.configuration()));
        r
    }

    /// SetModulationParams, then the LoRa corrections: register 0x925 by
    /// spreading factor and frequency error compensation in register 0x93c.
    pub fn set_lora_modulation_params(&self) -> (r: Vec<Vec<u8>>)
        ensures
            frames_view(r@) == lora_modulation_frames(self.configuration()),
    {
        let mut r: Vec<Vec<u8>> = Vec::new();
        r.push(frame(&self.config.set_modulation_params_command()));
        match self.config.modem {
            ModemConfig::LoRa { modulation, .. } => {
                let correction: u8 = match modulation.spread_factor {
                    LoraSf::LoraSf5 | LoraSf::LoraSf6 => 0x1E,
                    LoraSf::LoraSf7 | LoraSf::LoraSf8 => 0x37,
                    LoraSf::LoraSf9 | LoraSf::LoraSf10 | LoraSf::LoraSf11 | LoraSf::LoraSf12 => 0x32,
                };
                r.push(frame(&Self::write_single_register(0x925, correction)));
                // Frequency Error Compensation Register
                r.push(frame(&Self::write_single_register(0x93c, 0x1)));
            },
        }
        assert(frames_view(r@) =~= lora_modulation_frames(self.configuration()));
        r
    }

    /// SetDioIrqParams: TX done on DIO1, RX done on DIO2, RX/TX timeout on
    /// DIO3, header and CRC errors enabled as well.
    pub fn set_dio_irq_params() -> (r: [u8; 9])
        ensures
            r@ == dio_irq_params_frame(),
    {
        let dio_1_mask = IrqMask::TX_DONE();
        let dio_2_mask = IrqMask::RX_DONE();
        let dio_3_mask = IrqMask::RX_TX_TIMEOUT();

        let irq_mask = dio_1_mask.set(dio_2_mask).set(dio_3_mask).set(IrqMask::HEADER_ERROR()).set(
            IrqMask::CRC_ERROR(),
        );
        assert(0x0001u16 | 0x0002u16 | 0x4000u16 | 0x0020u16 | 0x0040u16 == 0x4063u16) by (bit_vector);
        [
            OpCode::SetDioIrqParams.value(),
            irq_mask.top(),
            irq_mask.bottom(),
            dio_1_mask.top(),
            dio_1_mask.bottom(),
            dio_2_mask.top(),
            dio_2_mask.bottom(),
            dio_3_mask.top(),
            dio_3_mask.bottom(),
        ]
    }

    /// The frames that transmit one byte.
    pub fn transmit(&self, data: u8) -> (r: Vec<Vec<u8>>)
        ensures
            frames_view(r@) == transmit_frames(self.configuration(), data),
    {
        let mut r: Vec<Vec<u8>> = Vec::new();
        r.push(frame(&Self::clear_all_irq_status()));
        r.push(frame(&Self::write_buffer_single(self.config.tx_buffer_base_address, data)));
        r.push(frame(&self.config.set_tx_command()));
        assert(frames_view(r@) =~= transmit_frames(self.configuration(), data));
        r
    }

    /// SetRx: start listening, with no timeout.
    pub fn set_rx(&self) -> (r: [u8; 4])
        ensures
            r@ == self.configuration().rx_frame(),
    {
        self.config.set_rx_command()
    }

    /// One step of a reception. `reply` is the reply to the frame the
    /// previous step asked for (empty at `Start` and at `RxDone`). Every
    /// reply updates the status; the step returns the next stage and what to
    /// do.
    pub fn recieve(&mut self, stage: ReceiveStage, reply: &[u8]) -> (r: (ReceiveStage, ReceiveAction))
        requires
            reply@.len() == reply_len(stage),
        ensures
            r.0 == next_stage(stage),
            r.1.plan() == receive_plan(stage, reply@, old(self).configuration()),
            final(self).configuration() == old(self).configuration(),
            reply_len(stage) > 0 ==> final(self).last_status() == RadioStatus::decoded(reply@[0]),
            reply_len(stage) == 0 ==> final(self).last_status() == old(self).last_status(),
    {
        if reply.len() > 0 {
            self.record_status(reply);
        }
        match stage {
            ReceiveStage::Start => {
                (ReceiveStage::Armed, ReceiveAction::Transfer(frame(&self.set_rx())))
            },
            ReceiveStage::Armed => (ReceiveStage::RxDone, ReceiveAction::WaitForRxDone),
            ReceiveStage::RxDone => {
                (ReceiveStage::GotPacketStatus, ReceiveAction::Transfer(frame(&Self::get_packet_status())))
            },
            ReceiveStage::GotPacketStatus => {
                (ReceiveStage::GotIrqStatus, ReceiveAction::Transfer(frame(&Self::get_irq_status())))
            },
            ReceiveStage::GotIrqStatus => {
                (ReceiveStage::Cleared, ReceiveAction::Transfer(frame(&Self::clear_all_irq_status())))
            },
            ReceiveStage::Cleared => {
                (ReceiveStage::GotBufferStatus, ReceiveAction::Transfer(frame(&Self::get_rx_buffer_status())))
            },
            ReceiveStage::GotBufferStatus => {
                let pointer: u8 = reply[3];
                (ReceiveStage::GotPayload, ReceiveAction::Transfer(frame(&Self::read_buffer_single(pointer))))
            },
            ReceiveStage::GotPayload => (ReceiveStage::Start, ReceiveAction::Received(reply[3])),
        }
    }

    /// GetPacketStatus: the opcode and six bytes clocked out for the reply.
    pub fn get_packet_status() -> (r: [u8; 7])
        ensures
            r@ == packet_status_frame(),
    {
        [OpCode::GetPacketStatus.value(), NOP, NOP, NOP, NOP, NOP, NOP]
    }

    /// Reads the reply to GetPacketStatus for the configured modem.
    pub fn packet_status(&self, reply: [u8; 7]) -> (r: PacketStatus)
        ensures
            r == (PacketStatus::Lora { rssi_sync_raw: reply@[2], snr_pkt_raw: reply@[3] }),
    {
        PacketStatus::interpret_status(reply, self.config.modem)
    }

    /// GetRxBufferStatus.
    pub fn get_rx_buffer_status() -> (r: [u8; 4])
        ensures
            r@ == rx_buffer_status_frame(),
    {
        [OpCode::GetRxBufferStatus.value(), NOP, NOP, NOP]
    }

    /// Reads the reply to GetRxBufferStatus: payload length in byte 2, start
    /// pointer in byte 3.
    pub fn rx_buffer_status(reply: [u8; 4]) -> (r: RxBufferStatus)
        ensures
            r == (RxBufferStatus { rx_payload_length: reply@[2], rx_start_buffer_pointer: reply@[3] }),
    {
        RxBufferStatus { rx_payload_length: reply[2], rx_start_buffer_pointer: reply[3] }
    }

    /// GetIrqStatus.
    pub fn get_irq_status() -> (r: [u8; 4])
        ensures
            r@ == irq_status_frame(),
    {
        [OpCode::GetIrqStatus.value(), NOP, NOP, NOP]
    }

    /// Reads the reply to GetIrqStatus: flags high byte in byte 2, low byte in
    /// byte 3, combined by `IrqMask::new`.
    pub fn irq_status(reply: [u8; 4]) -> (r: IrqMask)
        ensures
            r@ == reply@[2] as u16 * 256 + reply@[3] as u16,
    {
        IrqMask::new(reply[2], reply[3])
    }

    /// ClrIrqStatus for the given flags.
    pub fn clear_irq_status(to_clear: IrqMask) -> (r: [u8; 3])
        ensures
            r@ == clear_irq_frame(to_clear@),
    {
        [OpCode::ClrIrqStatus.value(), to_clear.top(), to_clear.bottom()]
    }

    /// ClrIrqStatus for every flag.
    pub fn clear_all_irq_status() -> (r: [u8; 3])
        ensures
            r@ == clear_irq_frame(0xFFFF),
    {
        Self::clear_irq_status(IrqMask::ALL())
    }

    /// WriteRegister for one register.
    pub fn write_single_register(register: u16, value: u8) -> (r: [u8; 4])
        ensures
            r@ == write_register_frame(register, value),
    {
        let bytes = u16_to_be_bytes(register);
        [OpCode::WriteRegister.value(), bytes[0], bytes[1], value]
    }

    /// ReadRegister for one register.
    pub fn read_single_register(register: u16) -> (r: [u8; 5])
        ensures
            r@ == read_register_frame(register),
    {
        let bytes = u16_to_be_bytes(register);
        [OpCode::ReadRegister.value(), bytes[0], bytes[1], NOP, NOP]
    }

    /// The register value in the reply to ReadRegister: its last byte.
    pub fn register_value(reply: [u8; 5]) -> (r: u8)
        ensures
            r == reply@[4],
    {
        reply[4]
    }

    /// WriteBuffer of one byte at `address`.
    pub fn write_buffer_single(address: u8, data: u8) -> (r: [u8; 3])
        ensures
            r@ == write_buffer_frame(address, data),
    {
        [OpCode::WriteBuffer.value(), address, data]
    }

    /// ReadBuffer of one byte at `address`.
    pub fn read_buffer_single(address: u8) -> (r: [u8; 4])
        ensures
            r@ == read_buffer_frame(address),
    {
        [OpCode::ReadBuffer.value(), address, NOP, NOP]
    }

    /// The byte in the reply to ReadBuffer: its last byte.
    pub fn buffer_value(reply: [u8; 4]) -> (r: u8)
        ensures
            r == reply@[3],
    {
        reply[3]
    }
}

/// The interrupt mask SetDioIrqParams routes to DIO line `line` (1 to 3),
/// read back from the frame.
pub open spec fn routed_mask(line: int) -> u16 {
    (dio_irq_params_frame()[2 * line + 1] * 256 + dio_irq_params_frame()[2 * line + 2]) as u16
}

/// SetDioIrqParams routes TX done to DIO1, RX done to DIO2 and RX/TX timeout
/// to DIO3, and every routed interrupt is also enabled in the global mask.
pub proof fn lemma_dio_lines_enabled()
    ensures
        (dio_irq_params_frame()[1] * 256 + dio_irq_params_frame()[2]) as u16 == dio_irq_mask(),
        routed_mask(1) == 0x0001,
        routed_mask(2) == 0x0002,
        routed_mask(3) == 0x4000,
        flags_contain(dio_irq_mask(), routed_mask(1)),
        flags_contain(dio_irq_mask(), routed_mask(2)),
        flags_contain(dio_irq_mask(), routed_mask(3)),
{
    assert(0x4063u16 & 0x0001u16 == 0x0001u16) by (bit_vector);
    assert(0x4063u16 & 0x0002u16 == 0x0002u16) by (bit_vector);
    assert(0x4063u16 & 0x4000u16 == 0x4000u16) by (bit_vector);
}

/// The register, buffer, interrupt and status frames start with their
/// SX1280 opcodes and carry their arguments in place: register addresses
/// big-endian, the buffer address then the data byte, the flags to clear high
/// byte first; the queries are padded with NOP bytes to the reply length.
pub proof fn lemma_command_frames(register: u16, value: u8, address: u8, data: u8, mask: u16)
    ensures
        write_register_frame(register, value) == seq![0x18u8, (register / 256) as u8, (register % 256) as u8, value],
        read_register_frame(register) == seq![0x19u8, (register / 256) as u8, (register % 256) as u8, 0u8, 0u8],
        write_buffer_frame(address, data) == seq![0x1Au8, address, data],
        read_buffer_frame(address) == seq![0x1Bu8, address, 0u8, 0u8],
        clear_irq_frame(mask) == seq![0x97u8, (mask / 256) as u8, (mask % 256) as u8],
        irq_status_frame() == seq![0x15u8, 0u8, 0u8, 0u8],
        packet_status_frame() == seq![0x1Du8, 0u8, 0u8, 0u8, 0u8, 0u8, 0u8],
        rx_buffer_status_frame() == seq![0x17u8, 0u8, 0u8, 0u8],
        dio_irq_params_frame()[0] == 0x8D,
{
}

/// The LoRa correction written to register 0x925 is 0x1E for spreading
/// factors 5 and 6, 0x37 for 7 and 8, and 0x32 from 9 up; the modulation
/// frames are SetModulationParams, then that register write, then 1 written to
/// the frequency error compensation register 0x93C.
pub proof fn lemma_lora_corrections(c: RadioConfig)
    ensures
        c.modem matches ModemConfig::LoRa { modulation, .. } && {
            let sf = modulation.spread_factor;
            &&& sf.factor() <= 6 ==> sf_correction(sf) == 0x1E
            &&& 7 <= sf.factor() <= 8 ==> sf_correction(sf) == 0x37
            &&& sf.factor() >= 9 ==> sf_correction(sf) == 0x32
            &&& lora_modulation_frames(c) == seq![
                c.modulation_params_frame(),
                seq![0x18u8, 0x09u8, 0x25u8, sf_correction(sf)],
                seq![0x18u8, 0x09u8, 0x3Cu8, 0x01u8],
            ]
        },
{
}

/// LoRa bring-up sends ten frames in this order: SetStandby, SetPacketType,
/// SetRfFrequency, SetBufferBaseAddress, SetModulationParams, two
/// WriteRegister corrections, SetPacketParams, SetDioIrqParams, SetTxParams.
pub proof fn lemma_start_lora_order(c: RadioConfig)
    ensures
        start_lora_frames(c).len() == 10,
        start_lora_frames(c)[0][0] == 0x80,
        start_lora_frames(c)[1][0] == 0x8A,
        start_lora_frames(c)[2][0] == 0x86,
        start_lora_frames(c)[3][0] == 0x8F,
        start_lora_frames(c)[4][0] == 0x8B,
        start_lora_frames(c)[5][0] == 0x18,
        start_lora_frames(c)[6][0] == 0x18,
        start_lora_frames(c)[7][0] == 0x8C,
        start_lora_frames(c)[8][0] == 0x8D,
        start_lora_frames(c)[9][0] == 0x8E,
{
    let s = start_lora_frames(c);
    assert(s[4] == lora_modulation_frames(c)[0]);
    assert(s[5] == lora_modulation_frames(c)[1]);
    assert(s[6] == lora_modulation_frames(c)[2]);
    assert(s[7] == c.packet_params_frame());
}

/// Transmitting puts the data byte itself, unchanged, at the TX base address:
/// the frames are ClrIrqStatus for every flag, WriteBuffer of that byte and
/// SetTx, and different bytes give different frames.
pub proof fn lemma_transmit_carries_byte(c: RadioConfig, d: u8, e: u8)
    ensures
        transmit_frames(c, d).len() == 3,
        transmit_frames(c, d)[0] == seq![0x97u8, 0xFFu8, 0xFFu8],
        transmit_frames(c, d)[1] == seq![0x1Au8, c.tx_buffer_base_address, d],
        transmit_frames(c, d)[2] == seq![0x83u8, 0u8, 0u8, 0u8],
        d != e ==> transmit_frames(c, d) != transmit_frames(c, e),
{
    if d != e {
        assert(transmit_frames(c, d)[1][2] != transmit_frames(c, e)[1][2]);
    }
}

/// Every reply a reception step consumes is as long as the frame the step
/// before it asked to transfer (the transfer is in place), and the steps that
/// follow a wait or start the exchange consume no reply.
pub proof fn lemma_reply_matches_transfer(s: ReceiveStage, reply: Seq<u8>, c: RadioConfig)
    requires
        reply.len() == reply_len(s),
    ensures
        receive_plan(s, reply, c) matches ReceivePlan::Transfer(f) ==> reply_len(next_stage(s))
            == f.len(),
        receive_plan(s, reply, c) matches ReceivePlan::WaitForRxDone ==> reply_len(next_stage(s))
            == 0,
        receive_plan(s, reply, c) matches ReceivePlan::Received(_) ==> reply_len(next_stage(s))
            == 0,
{
}

/// A reception, step by step: SetRx, a wait for the RX-done line, then
/// GetPacketStatus, GetIrqStatus, ClrIrqStatus for every flag,
/// GetRxBufferStatus, a one-byte ReadBuffer at the start pointer the radio
/// reported, and delivery of the byte read; the exchange then starts over.
pub proof fn lemma_receive_exchange(
    c: RadioConfig,
    arm: Seq<u8>,
    packet: Seq<u8>,
    irq: Seq<u8>,
    cleared: Seq<u8>,
    buffer: Seq<u8>,
    payload: Seq<u8>,
)
    requires
        arm.len() == reply_len(ReceiveStage::Armed),
        packet.len() == reply_len(ReceiveStage::GotPacketStatus),
        irq.len() == reply_len(ReceiveStage::GotIrqStatus),
        cleared.len() == reply_len(ReceiveStage::Cleared),
        buffer.len() == reply_len(ReceiveStage::GotBufferStatus),
        payload.len() == reply_len(ReceiveStage::GotPayload),
    ensures
        receive_plan(ReceiveStage::Start, Seq::empty(), c) == ReceivePlan::Transfer(c.rx_frame()),
        receive_plan(next_stage(ReceiveStage::Start), arm, c) == ReceivePlan::WaitForRxDone,
        receive_plan(next_stage(next_stage(ReceiveStage::Start)), Seq::empty(), c)
            == ReceivePlan::Transfer(packet_status_frame()),
        receive_plan(ReceiveStage::GotPacketStatus, packet, c) == ReceivePlan::Transfer(
            irq_status_frame(),
        ),
        next_stage(ReceiveStage::RxDone) == ReceiveStage::GotPacketStatus,
        receive_plan(next_stage(ReceiveStage::GotPacketStatus), irq, c) == ReceivePlan::Transfer(
            clear_irq_frame(0xFFFF),
        ),
        receive_plan(next_stage(ReceiveStage::GotIrqStatus), cleared, c) == ReceivePlan::Transfer(
            rx_buffer_status_frame(),
        ),
        receive_plan(next_stage(ReceiveStage::Cleared), buffer, c) == ReceivePlan::Transfer(
            read_buffer_frame(buffer[3]),
        ),
        receive_plan(next_stage(ReceiveStage::GotBufferStatus), payload, c) == ReceivePlan::Received(
            payload[3],
        ),
        next_stage(ReceiveStage::GotPayload) == ReceiveStage::Start,
{
}

} // verus!
