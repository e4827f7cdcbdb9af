use vstd::prelude::*;

verus! {

/// The duty a channel of the common-anode LED gets: 0 lights it fully, the
/// channel's maximum duty turns it off.
pub open spec fn channel_duty(lit: bool, max: u16) -> u16 {
    if lit {
        0
    } else {
        max
    }
}

/// RGB LED controller for PWM-driven RGB LEDs: the duty cycle of each
/// channel, out of that channel's maximum duty. The PWM channels belong to
/// the caller, which writes `duties` to them after every change.
pub struct RGBLed {
    red_max: u16,
    green_max: u16,
    blue_max: u16,
    red: u16,
    green: u16,
    blue: u16,
}

impl RGBLed {
    /// The maximum duty of the red, green and blue channels.
    pub closed spec fn max_duties(self) -> (u16, u16, u16) {
        (self.red_max, self.green_max, self.blue_max)
    }

    /// The duty set on the red, green and blue channels.
    pub closed spec fn duty(self) -> (u16, u16, u16) {
        (self.red, self.green, self.blue)
    }

    /// The LED shows exactly the channels marked lit.
    pub open spec fn shows(self, r: bool, g: bool, b: bool) -> bool {
        &&& self.duty().0 == channel_duty(r, self.max_duties().0)
        &&& self.duty().1 == channel_duty(g, self.max_duties().1)
        &&& self.duty().2 == channel_duty(b, self.max_duties().2)
    }

    /// Create a new RGB LED driver (initialized to off state)
    pub fn new(red_max: u16, green_max: u16, blue_max: u16) -> (r: Self)
        ensures
            r.max_duties() == (red_max, green_max, blue_max),
            r.shows(false, false, false),
    {
        let mut rgb_led = RGBLed { red_max, green_max, blue_max, red: 0, green: 0, blue: 0 };
        rgb_led.off();
        rgb_led
    }

    /// The duty cycles to write to the red, green and blue channels.
    pub fn duties(&self) -> (r: (u16, u16, u16))
        ensures
            r == self.duty(),
    {
        (self.red, self.green, self.blue)
    }

    /// Records duty cycles computed elsewhere (from normalised brightness).
    pub fn set_duties(&mut self, red: u16, green: u16, blue: u16)
        requires
            red <= old(self).max_duties().0,
            green <= old(self).max_duties().1,
            blue <= old(self).max_duties().2,
        ensures
            final(self).max_duties() == old(self).max_duties(),
            final(self).duty() == (red, green, blue),
    {
        self.red = red;
        self.green = green;
        self.blue = blue;
    }

    /// Lights the channels marked `true` fully and turns the others off.
    /// Values are inverted because the LED is active-low (common anode).
    fn show(&mut self, r: bool, g: bool, b: bool)
        ensures
            final(self).max_duties() == old(self).max_duties(),
            final(self).shows(r, g, b),
    {
        // Invert because common-anode LED: full duty = off, zero duty = full brightness
        self.red = if r { 0 } else { self.red_max };
        self.green = if g { 0 } else { self.green_max };
        self.blue = if b { 0 } else { self.blue_max };
    }

    /// Turn the LED off (all channels to full duty)
    pub fn off(&mut self)
        ensures
            final(self).max_duties() == old(self).max_duties(),
            final(self).shows(false, false, false),
    {
        self.red = self.red_max;
        self.green = self.green_max;
        self.blue = self.blue_max;
    }

    /// Set the LED to red
    pub fn red(&mut self)
        ensures
            final(self).max_duties() == old(self).max_duties(),
            final(self).shows(true, false, false),
    {
        self.show(true, false, false);
    }

    /// Set the LED to green
    pub fn green(&mut self)
        ensures
            final(self).max_duties() == old(self).max_duties(),
            final(self).shows(false, true, false),
    {
        self.show(false, true, false);
    }

    /// Set the LED to blue
    pub fn blue(&mut self)
        ensures
            final(self).max_duties() == old(self).max_duties(),
            final(self).shows(false, false, true),
    {
        self.show(false, false, true);
    }

    /// Set the LED to yellow (red + green)
    pub fn yellow(&mut self)
        ensures
            final(self).max_duties() == old(self).max_duties(),
            final(self).shows(true, true, false),
    {
        self.show(true, true, false);
    }

    /// Set the LED to cyan (green + blue)
    pub fn cyan(&mut self)
        ensures
            final(self).max_duties() == old(self).max_duties(),
            final(self).shows(false, true, true),
    {
        self.show(false, true, true);
    }

    /// Set the LED to magenta (red + blue)
    pub fn magenta(&mut self)
        ensures
            final(self).max_duties() == old(self).max_duties(),
            final(self).shows(true, false, true),
    {
        self.show(true, false, true);
    }

    /// Set the LED to white (all channels on)
    pub fn white(&mut self)
        ensures
            final(self).max_duties() == old(self).max_duties(),
            final(self).shows(true, true, true),
    {
        self.show(true, true, true);
    }
}

} // verus!
