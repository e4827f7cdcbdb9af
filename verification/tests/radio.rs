use fire_ant_control::drivers::radio::irq::IrqMask;
use fire_ant_control::drivers::radio::radio::{Radio, ReceiveAction, ReceiveStage, RxBufferStatus};
use fire_ant_control::drivers::radio::status::{PacketStatus, RadioCommandStatus, RadioMode};

#[test]
fn new_radio_has_no_status_yet() {
    let r = Radio::new();
    assert_eq!(r.status().mode(), RadioMode::Error);
    assert_eq!(r.status().command_status(), RadioCommandStatus::Error);
    assert_eq!(r.config().rx_buffer_base_address, 0x80);
}

#[test]
fn start_lora_sequence() {
    let r = Radio::new();
    let frames = r.start_lora();
    let expected: Vec<Vec<u8>> = vec![
        vec![0x80, 0x00],
        vec![0x8A, 0x01],
        vec![0x86, 0xB8, 0x9D, 0x89],
        vec![0x8F, 0x00, 0x80],
        vec![0x8B, 0xA0, 0x18, 0x06],
        vec![0x18, 0x09, 0x25, 0x32],
        vec![0x18, 0x09, 0x3C, 0x01],
        vec![0x8C, 0x23, 0x00, 0x01, 0x20, 0x40, 0x00, 0x00],
        vec![0x8D, 0x40, 0x63, 0x00, 0x01, 0x00, 0x02, 0x40, 0x00],
        vec![0x8E, 0x1F, 0xE0],
    ];
    assert_eq!(frames, expected);
}

#[test]
fn lora_modulation_corrections() {
    let r = Radio::new();
    let frames = r.set_lora_modulation_params();
    assert_eq!(frames.len(), 3);
    assert_eq!(frames[1], vec![0x18, 0x09, 0x25, 0x32]);
    assert_eq!(frames[2], vec![0x18, 0x09, 0x3C, 0x01]);
}

#[test]
fn dio_irq_params() {
    assert_eq!(Radio::set_dio_irq_params(), [0x8D, 0x40, 0x63, 0x00, 0x01, 0x00, 0x02, 0x40, 0x00]);
}

#[test]
fn transmit_sequence() {
    let r = Radio::new();
    let frames = r.transmit(0x5A);
    assert_eq!(frames, vec![vec![0x97, 0xFF, 0xFF], vec![0x1A, 0x00, 0x5A], vec![0x83, 0, 0, 0]]);
}

#[test]
fn set_rx_frame() {
    assert_eq!(Radio::new().set_rx(), [0x82, 0, 0, 0]);
}

#[test]
fn record_status_decodes_first_byte() {
    let mut r = Radio::new();
    r.record_status(&[0x64, 0x00, 0x00]);
    assert_eq!(r.status().mode(), RadioMode::StdbyXosc);
    assert_eq!(r.status().command_status(), RadioCommandStatus::CommandSuccess);
}

#[test]
fn register_frames() {
    assert_eq!(Radio::write_single_register(0x925, 0x1E), [0x18, 0x09, 0x25, 0x1E]);
    assert_eq!(Radio::write_single_register(0xABCD, 0x01), [0x18, 0xAB, 0xCD, 0x01]);
    assert_eq!(Radio::read_single_register(0x93C), [0x19, 0x09, 0x3C, 0x00, 0x00]);
    assert_eq!(Radio::register_value([0x40, 0, 0, 0x40, 0x77]), 0x77);
}

#[test]
fn buffer_frames() {
    assert_eq!(Radio::write_buffer_single(0x80, 0x42), [0x1A, 0x80, 0x42]);
    assert_eq!(Radio::read_buffer_single(0x80), [0x1B, 0x80, 0x00, 0x00]);
    assert_eq!(Radio::buffer_value([0x40, 0x40, 0x40, 0x99]), 0x99);
}

#[test]
fn irq_frames() {
    assert_eq!(Radio::get_irq_status(), [0x15, 0, 0, 0]);
    assert_eq!(Radio::irq_status([0x40, 0x40, 0x00, 0x02]), IrqMask::RX_DONE());
    assert_eq!(
        Radio::irq_status([0x40, 0x40, 0x40, 0x02]),
        IrqMask::RX_TX_TIMEOUT().set(IrqMask::RX_DONE())
    );
    assert_eq!(Radio::clear_irq_status(IrqMask::RX_TX_TIMEOUT()), [0x97, 0x40, 0x00]);
    assert_eq!(Radio::clear_all_irq_status(), [0x97, 0xFF, 0xFF]);
}

#[test]
fn status_queries() {
    assert_eq!(Radio::get_packet_status(), [0x1D, 0, 0, 0, 0, 0, 0]);
    assert_eq!(Radio::get_rx_buffer_status(), [0x17, 0, 0, 0]);
    assert_eq!(
        Radio::rx_buffer_status([0x40, 0x40, 0x01, 0x80]),
        RxBufferStatus { rx_payload_length: 0x01, rx_start_buffer_pointer: 0x80 }
    );
    assert_eq!(
        Radio::new().packet_status([0x40, 0x40, 0xA0, 0x10, 0, 0, 0]),
        PacketStatus::Lora { rssi_sync_raw: 0xA0, snr_pkt_raw: 0x10 }
    );
}

fn expect_transfer(action: ReceiveAction) -> Vec<u8> {
    match action {
        ReceiveAction::Transfer(f) => f,
        other => panic!("expected a transfer, got {:?}", other),
    }
}

#[test]
fn receive_exchange() {
    let mut r = Radio::new();

    let (stage, action) = r.recieve(ReceiveStage::Start, &[]);
    assert_eq!(stage, ReceiveStage::Armed);
    assert_eq!(expect_transfer(action), vec![0x82, 0, 0, 0]);

    let (stage, action) = r.recieve(stage, &[0xA4, 0xA4, 0xA4, 0xA4]);
    assert_eq!(stage, ReceiveStage::RxDone);
    assert!(matches!(action, ReceiveAction::WaitForRxDone));
    assert_eq!(r.status().mode(), RadioMode::Rx);

    let (stage, action) = r.recieve(stage, &[]);
    assert_eq!(stage, ReceiveStage::GotPacketStatus);
    assert_eq!(expect_transfer(action), vec![0x1D, 0, 0, 0, 0, 0, 0]);

    let (stage, action) = r.recieve(stage, &[0x48, 0x48, 0x9A, 0x0C, 0, 0, 0]);
    assert_eq!(stage, ReceiveStage::GotIrqStatus);
    assert_eq!(expect_transfer(action), vec![0x15, 0, 0, 0]);
    assert_eq!(r.status().command_status(), RadioCommandStatus::DataAvailable);

    let (stage, action) = r.recieve(stage, &[0x44, 0x44, 0x00, 0x02]);
    assert_eq!(stage, ReceiveStage::Cleared);
    assert_eq!(expect_transfer(action), vec![0x97, 0xFF, 0xFF]);

    let (stage, action) = r.recieve(stage, &[0x44, 0x44, 0x44]);
    assert_eq!(stage, ReceiveStage::GotBufferStatus);
    assert_eq!(expect_transfer(action), vec![0x17, 0, 0, 0]);

    let (stage, action) = r.recieve(stage, &[0x44, 0x44, 0x01, 0x80]);
    assert_eq!(stage, ReceiveStage::GotPayload);
    assert_eq!(expect_transfer(action), vec![0x1B, 0x80, 0, 0]);

    let (stage, action) = r.recieve(stage, &[0x44, 0x44, 0x44, 0x2A]);
    assert_eq!(stage, ReceiveStage::Start);
    assert!(matches!(action, ReceiveAction::Received(0x2A)));
    assert_eq!(r.status().mode(), RadioMode::StdbyRc);
}

#[test]
fn reply_lengths() {
    assert_eq!(ReceiveStage::Start.expected_reply_len(), 0);
    assert_eq!(ReceiveStage::Armed.expected_reply_len(), 4);
    assert_eq!(ReceiveStage::RxDone.expected_reply_len(), 0);
    assert_eq!(ReceiveStage::GotPacketStatus.expected_reply_len(), 7);
    assert_eq!(ReceiveStage::Cleared.expected_reply_len(), 3);
    assert_eq!(ReceiveStage::GotPayload.expected_reply_len(), 4);
}
