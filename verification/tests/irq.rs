use fire_ant_control::drivers::radio::irq::IrqMask;

#[test]
fn set_combines_flags() {
    let m = IrqMask::TX_DONE().set(IrqMask::RX_DONE());
    assert_eq!(m.top(), 0x00);
    assert_eq!(m.bottom(), 0x03);
    assert!(m.contains(IrqMask::TX_DONE()));
    assert!(m.contains(IrqMask::RX_DONE()));
    assert!(!m.contains(IrqMask::CRC_ERROR()));
}

#[test]
fn reset_clears_flags() {
    let m = IrqMask::ALL().reset(IrqMask::PREAMBLE_DETECTED());
    assert_eq!(m.top(), 0x7F);
    assert_eq!(m.bottom(), 0xFF);
    assert!(!m.contains(IrqMask::PREAMBLE_DETECTED()));
    assert!(m.contains(IrqMask::RX_TX_TIMEOUT()));
}

#[test]
fn set_then_reset_restores_disjoint_mask() {
    let a = IrqMask::HEADER_ERROR().set(IrqMask::CAD_DONE());
    let b = IrqMask::SYNC_WORD_VALID();
    assert_eq!(a.set(b).reset(b), a);
}

#[test]
fn top_and_bottom_split_the_mask() {
    let m = IrqMask::RANGING_MASTER_TIMEOUT().set(IrqMask::RANGING_SLAVE_RESPONSE_DONE());
    assert_eq!(m.top(), 0x04);
    assert_eq!(m.bottom(), 0x80);
    assert_eq!(IrqMask::ALL().top(), 0xFF);
    assert_eq!(IrqMask::NONE().bottom(), 0x00);
}

#[test]
fn new_places_top_in_high_byte() {
    assert_eq!(IrqMask::new(0x40, 0x02), IrqMask::RX_TX_TIMEOUT().set(IrqMask::RX_DONE()));
    assert!(IrqMask::new(0x40, 0x02).contains(IrqMask::RX_TX_TIMEOUT()));
    assert_ne!(IrqMask::new(0x40, 0x02), IrqMask::RX_DONE());
    assert_eq!(IrqMask::new(0xFF, 0xFF), IrqMask::ALL());
    assert_eq!(IrqMask::new(0x00, 0x02), IrqMask::RX_DONE());
}

#[test]
fn new_round_trips_bytes_and_masks() {
    for top in [0x00u8, 0x01, 0x40, 0x80, 0xFF] {
        for bottom in [0x00u8, 0x02, 0x63, 0xFF] {
            let m = IrqMask::new(top, bottom);
            assert_eq!((m.top(), m.bottom()), (top, bottom));
        }
    }
    let m = IrqMask::RX_TX_TIMEOUT().set(IrqMask::CRC_ERROR());
    assert_eq!(IrqMask::new(m.top(), m.bottom()), m);
}

#[test]
fn contains_is_reflexive_and_transitive() {
    let a = IrqMask::ALL();
    let b = IrqMask::TX_DONE().set(IrqMask::RX_DONE());
    let c = IrqMask::RX_DONE();
    assert!(a.contains(a));
    assert!(a.contains(b) && b.contains(c) && a.contains(c));
    assert!(a.contains(IrqMask::NONE()));
}
