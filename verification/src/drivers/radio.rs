pub mod irq;
pub mod opcode;
pub mod radio;
pub mod radio_config;
pub mod status;

use vstd::prelude::*;

verus! {

/// The first bring-up probe of the SX1280 data buffer: it writes a marker
/// byte followed by 1, 2, 3 at buffer address 0, the marker counting up by
/// one per write, and reads the same bytes back. The SPI bus and the GPIO
/// lines belong to the caller, which clocks the frames built here.
pub struct Radio {
    x: u8,
}

impl Radio {
    /// The marker byte the next write will carry.
    pub closed spec fn marker(self) -> u8 {
        self.x
    }

    /// A probe whose first marker is 0.
    pub fn new() -> (r: Radio)
        ensures
            r.marker() == 0,
    {
        Radio { x: 0 }
    }

    /// The WriteBuffer frame at address 0 with the current marker then 1, 2,
    /// 3; the marker then advances by one, wrapping at 256.
    pub fn set_buffer(&mut self) -> (r: [u8; 6])
        ensures
            r@ == seq![0x1au8, 0u8, old(self).marker(), 1u8, 2u8, 3u8],
            final(self).marker() == (old(self).marker() + 1) % 256,
    {
        let send_buffer: [u8; 6] = [0x1a, 0, self.x, 1, 2, 3];
        self.x = self.x.wrapping_add(1);
        send_buffer
    }

    /// The ReadBuffer frame at address 0, clocking out four more bytes.
    pub fn get_buffer(&self) -> (r: [u8; 6])
        ensures
            r@ == seq![0x1bu8, 0u8, 0u8, 0u8, 0u8, 0u8],
    {
        [0x1b, 0, 0, 0, 0, 0]
    }
}

} // verus!
