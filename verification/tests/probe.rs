use fire_ant_control::drivers::radio::Radio;

#[test]
fn probe_writes_counting_marker() {
    let mut r = Radio::new();
    assert_eq!(r.set_buffer(), [0x1A, 0, 0, 1, 2, 3]);
    assert_eq!(r.set_buffer(), [0x1A, 0, 1, 1, 2, 3]);
    assert_eq!(r.get_buffer(), [0x1B, 0, 0, 0, 0, 0]);
}

#[test]
fn probe_marker_wraps() {
    let mut r = Radio::new();
    for _ in 0..255 {
        r.set_buffer();
    }
    assert_eq!(r.set_buffer()[2], 255);
    assert_eq!(r.set_buffer()[2], 0);
}
