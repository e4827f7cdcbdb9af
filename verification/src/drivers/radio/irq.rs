use vstd::prelude::*;

verus! {

/// The SX1280 16-bit interrupt mask / interrupt status word.
#[derive(Debug, Clone, Copy, PartialEq, Eq, Structural)]
pub struct IrqMask {
    mask: u16,
}

impl View for IrqMask {
    type V = u16;

    /// The sixteen interrupt flags, bit `i` standing for IRQ source `i`.
    closed spec fn view(&self) -> u16 {
        self.mask
    }
}

/// Every flag set in `b` is also set in `a`.
pub open spec fn flags_contain(a: u16, b: u16) -> bool {
    a & b == b
}

impl IrqMask {
    #[allow(non_snake_case)]
    pub fn NONE() -> (r: IrqMask)
        ensures
            r@ == 0x0000,
    {
        IrqMask { mask: 0x0000 }
    }

    #[allow(non_snake_case)]
    pub fn ALL() -> (r: IrqMask)
        ensures
            r@ == 0xFFFF,
    {
        IrqMask { mask: 0xFFFF }
    }

    #[allow(non_snake_case)]
    pub fn TX_DONE() -> (r: IrqMask)
        ensures
            r@ == 0x0001,
    {
        IrqMask { mask: 0x0001 }
    }

    #[allow(non_snake_case)]
    pub fn RX_DONE() -> (r: IrqMask)
        ensures
            r@ == 0x0002,
    {
        IrqMask { mask: 0x0002 }
    }

    #[allow(non_snake_case)]
    pub fn SYNC_WORD_VALID() -> (r: IrqMask)
        ensures
            r@ == 0x0004,
    {
        IrqMask { mask: 0x0004 }
    }

    #[allow(non_snake_case)]
    pub fn SYNC_WORD_ERROR() -> (r: IrqMask)
        ensures
            r@ == 0x0008,
    {
        IrqMask { mask: 0x0008 }
    }

    #[allow(non_snake_case)]
    pub fn HEADER_VALID() -> (r: IrqMask)
        ensures
            r@ == 0x0010,
    {
        IrqMask { mask: 0x0010 }
    }

    #[allow(non_snake_case)]
    pub fn HEADER_ERROR() -> (r: IrqMask)
        ensures
            r@ == 0x0020,
    {
        IrqMask { mask: 0x0020 }
    }

    #[allow(non_snake_case)]
    pub fn CRC_ERROR() -> (r: IrqMask)
        ensures
            r@ == 0x0040,
    {
        IrqMask { mask: 0x0040 }
    }

    #[allow(non_snake_case)]
    pub fn RANGING_SLAVE_RESPONSE_DONE() -> (r: IrqMask)
        ensures
            r@ == 0x0080,
    {
        IrqMask { mask: 0x0080 }
    }

    #[allow(non_snake_case)]
    pub fn RANGING_SLAVE_REQUEST_DISCARD() -> (r: IrqMask)
        ensures
            r@ == 0x0100,
    {
        IrqMask { mask: 0x0100 }
    }

    #[allow(non_snake_case)]
    pub fn RANGING_MASTER_RESULT_VALID() -> (r: IrqMask)
        ensures
            r@ == 0x0200,
    {
        IrqMask { mask: 0x0200 }
    }

    #[allow(non_snake_case)]
    pub fn RANGING_MASTER_TIMEOUT() -> (r: IrqMask)
        ensures
            r@ == 0x0400,
    {
        IrqMask { mask: 0x0400 }
    }

    #[allow(non_snake_case)]
    pub fn RANGING_SLAVE_REQUEST_VALID() -> (r: IrqMask)
        ensures
            r@ == 0x0800,
    {
        IrqMask { mask: 0x0800 }
    }

    #[allow(non_snake_case)]
    pub fn CAD_DONE() -> (r: IrqMask)
        ensures
            r@ == 0x1000,
    {
        IrqMask { mask: 0x1000 }
    }

    #[allow(non_snake_case)]
    pub fn CAD_DETECTED() -> (r: IrqMask)
        ensures
            r@ == 0x2000,
    {
        IrqMask { mask: 0x2000 }
    }

    #[allow(non_snake_case)]
    pub fn RX_TX_TIMEOUT() -> (r: IrqMask)
        ensures
            r@ == 0x4000,
    {
        IrqMask { mask: 0x4000 }
    }

    #[allow(non_snake_case)]
    pub fn PREAMBLE_DETECTED() -> (r: IrqMask)
        ensures
            r@ == 0x8000,
    {
        IrqMask { mask: 0x8000 }
    }

    /// Builds a mask from the two status bytes read back from the radio:
    /// `top` is irqMask[15:8], `bottom` is irqMask[7:0].
    pub fn new(top: u8, bottom: u8) -> (r: IrqMask)
        ensures
            r@ == top as u16 * 256 + bottom as u16,
    {
        let mask: u16 = (top as u16) * 256 + bottom as u16;
        IrqMask { mask }
    }

    /// Combine (OR) another mask's bits into this one.
    pub fn set(&self, other: IrqMask) -> (r: Self)
        ensures
            r@ == self@ | other@,
    {
        IrqMask { mask: self.mask | other.mask }
    }

    /// Clear (AND NOT) another mask's bits from this one.
    pub fn reset(&self, other: IrqMask) -> (r: Self)
        ensures
            r@ == self@ & !other@,
    {
        IrqMask { mask: self.mask & !other.mask }
    }

    /// irqMask[15:8] — high byte, for SPI transfer.
    pub fn top(&self) -> (r: u8)
        ensures
            r == self@ / 256,
    {
        let m: u16 = self.mask;
        assert((m >> 8u16) == m / 256) by (bit_vector);
        (self.mask >> 8u16) as u8
    }

    /// irqMask[7:0] — low byte, for SPI transfer.
    pub fn bottom(&self) -> (r: u8)
        ensures
            r == self@ % 256,
    {
        let m: u16 = self.mask;
        assert((m & 0xFFu16) == m % 256) by (bit_vector);
        (self.mask & 0xFF) as u8
    }

    /// True if every flag set in `other` is also set in `self`.
    pub fn contains(&self, other: IrqMask) -> (r: bool)
        ensures
            r == flags_contain(self@, other@),
    {
        self.mask & other.mask == other.mask
    }
}

/// A mask that has had `b` OR-ed in contains `b`.
pub proof fn lemma_set_then_contains(a: IrqMask, b: IrqMask)
    ensures
        flags_contain(a@ | b@, b@),
{
    let x: u16 = a@;
    let y: u16 = b@;
    assert((x | y) & y == y) by (bit_vector);
}

/// After `reset(b)` none of `b`'s flags remain, so the result contains `b`
/// only when `b` is empty.
pub proof fn lemma_reset_clears(a: IrqMask, b: IrqMask)
    ensures
        (a@ & !b@) & b@ == 0,
        flags_contain(a@ & !b@, b@) <==> b@ == 0,
{
    let x: u16 = a@;
    let y: u16 = b@;
    assert((x & !y) & y == 0) by (bit_vector);
}

/// Resetting the flags just set gives back the original mask when the two
/// masks share no flag.
pub proof fn lemma_set_reset_roundtrip(a: IrqMask, b: IrqMask)
    requires
        a@ & b@ == 0,
    ensures
        (a@ | b@) & !b@ == a@,
{
    let x: u16 = a@;
    let y: u16 = b@;
    assert(x & y == 0 ==> (x | y) & !y == x) by (bit_vector);
}

/// `contains` is reflexive and transitive.
pub proof fn lemma_contains_preorder(a: IrqMask, b: IrqMask, c: IrqMask)
    ensures
        flags_contain(a@, a@),
        flags_contain(a@, b@) && flags_contain(b@, c@) ==> flags_contain(a@, c@),
{
    let x: u16 = a@;
    let y: u16 = b@;
    let z: u16 = c@;
    assert(x & x == x) by (bit_vector);
    assert((x & y == y && y & z == z) ==> x & z == z) by (bit_vector);
}

/// The two bytes sent over SPI, high byte first, hold the whole mask.
pub proof fn lemma_top_bottom_split(m: IrqMask)
    ensures
        (m@ / 256) * 256 + m@ % 256 == m@,
        m@ / 256 < 256,
{
}

/// `new` and `top`/`bottom` are inverse: the bytes a mask is built from are
/// the bytes it splits into, and every mask is rebuilt from its two bytes.
pub proof fn lemma_new_from_bytes(top: u8, bottom: u8, m: IrqMask)
    ensures
        (top as u16 * 256 + bottom as u16) / 256 == top,
        (top as u16 * 256 + bottom as u16) % 256 == bottom,
        (m@ / 256) as u16 * 256 + (m@ % 256) as u16 == m@,
{
}

} // verus!
