//! User LEDs on port G, and the image of the port's output latch that the
//! bit set/reset register acts on.

use vstd::prelude::*;

verus! {

/// Number of user LEDs.
pub const LED_COUNT: u8 = 2;

/// The output latch after `word` is written to the bit set/reset register:
/// a bit in the high half clears its line, a bit in the low half sets its
/// line, and set wins where both are given.
pub open spec fn bsrr_applied(lines: u16, word: u32) -> u16 {
    (lines & !((word >> 16) as u16)) | ((word & 0xffff) as u16)
}

/// Whether line `pin` is high in the latch image `lines`.
pub open spec fn line_high(lines: u16, pin: u8) -> bool {
    (lines >> pin) & 1 == 1
}

/// The mode field of line `pin` in the mode register image `moder`.
pub open spec fn line_mode(moder: u32, pin: u8) -> u32 {
    (moder >> (2 * pin) as u32) & 3
}

/// The mode register with the lines of both user LEDs made outputs.
pub open spec fn leds_as_outputs(moder: u32) -> u32 {
    (moder & !0x3c00_0000u32) | 0x1400_0000u32
}

/// Image of the output latch of a port: one bit per line.
pub struct Port {
    lines: u16,
}

impl Port {
    /// The latch: bit `n` is line `n`.
    pub closed spec fn view(&self) -> u16 {
        self.lines
    }

    /// A port with every line low, as after reset.
    pub fn new() -> (port: Port)
        ensures
            port@ == 0,
    {
        Port { lines: 0 }
    }

    /// The latch: bit `n` is line `n`.
    pub fn lines(&self) -> (lines: u16)
        ensures
            lines == self@,
    {
        self.lines
    }

    /// What a write of `word` to the bit set/reset register does.
    pub fn write_bsrr(&mut self, word: u32)
        ensures
            final(self)@ == bsrr_applied(old(self)@, word),
    {
        let reset: u16 = #[verifier::truncate] ((word >> 16) as u16);
        let set: u16 = #[verifier::truncate] ((word & 0xffff) as u16);
        self.lines = (self.lines & !reset) | set;
    }

    /// Whether line `pin` is high.
    pub fn is_high(&self, pin: u8) -> (high: bool)
        requires
            pin < 16,
        ensures
            high == line_high(self@, pin),
    {
        (self.lines >> pin) & 1 == 1
    }
}

/// An LED
pub struct Led {
    i: u8,
}

impl Led {
    #[verifier::type_invariant]
    spec fn on_port(self) -> bool {
        self.i < 16
    }

    /// The line of port G that drives the LED.
    pub closed spec fn pin(&self) -> u8 {
        self.i
    }

    /// The word that, written to the bit set/reset register, sets line `pin`.
    pub open spec fn set_word_of(pin: u8) -> u32 {
        1u32 << pin
    }

    /// The word that, written to the bit set/reset register, clears line
    /// `pin`.
    pub open spec fn reset_word_of(pin: u8) -> u32 {
        1u32 << ((pin + 16) as u32)
    }

    /// The user LED number `index`: line 13 for the first, line 14 for the
    /// second, none beyond.
    pub fn user(index: u8) -> (led: Option<Led>)
        ensures
            match led {
                Some(l) => index < LED_COUNT && l.pin() == 13 + index,
                None => index >= LED_COUNT,
            },
    {
        if index < LED_COUNT {
            Some(Led { i: 13 + index })
        } else {
            None
        }
    }

    /// The line of port G that drives the LED.
    pub fn line(&self) -> (pin: u8)
        ensures
            pin == self.pin(),
            pin < 16,
    {
        proof {
            use_type_invariant(self);
        }
        self.i
    }

    /// The word to write to the bit set/reset register to turn the LED on.
    pub fn set_word(&self) -> (word: u32)
        ensures
            word == Self::set_word_of(self.pin()),
    {
        proof {
            use_type_invariant(self);
        }
        1u32 << self.i
    }

    /// The word to write to the bit set/reset register to turn the LED off.
    pub fn reset_word(&self) -> (word: u32)
        ensures
            word == Self::reset_word_of(self.pin()),
    {
        proof {
            use_type_invariant(self);
        }
        1u32 << (self.i + 16)
    }

    /// Turns off the LED
    pub fn off(&self, port: &mut Port)
        ensures
            final(port)@ == old(port)@ & !(1u16 << self.pin()),
            self.pin() < 16,
    {
        proof {
            use_type_invariant(self);
        }
        let word = self.reset_word();
        port.write_bsrr(word);
        proof {
            let lines = old(port)@;
            let pin = self.i;
            assert(bsrr_applied(lines, 1u32 << ((pin + 16) as u32)) == lines & !(1u16 << pin)) by (bit_vector)
                requires
                    pin < 16,
            ;
        }
    }

    /// Turns on the LED
    pub fn on(&self, port: &mut Port)
        ensures
            final(port)@ == old(port)@ | (1u16 << self.pin()),
            self.pin() < 16,
    {
        proof {
            use_type_invariant(self);
        }
        let word = self.set_word();
        port.write_bsrr(word);
        proof {
            let lines = old(port)@;
            let pin = self.i;
            assert(bsrr_applied(lines, 1u32 << pin) == lines | (1u16 << pin)) by (bit_vector)
                requires
                    pin < 16,
            ;
        }
    }
}

/// All the user LEDs
pub fn leds() -> (all: [Led; 2])
    ensures
        all[0].pin() == 13,
        all[1].pin() == 14,
{
    [Led { i: 13 }, Led { i: 14 }]
}

/// Setting a line makes it high and leaves every other line as it was.
pub proof fn lemma_set_line(lines: u16, pin: u8, other: u8)
    requires
        pin < 16,
        other < 16,
    ensures
        line_high(lines | (1u16 << pin), pin),
        other != pin ==> line_high(lines | (1u16 << pin), other) == line_high(lines, other),
{
    assert(((lines | (1u16 << pin)) >> pin) & 1 == 1) by (bit_vector)
        requires
            pin < 16,
    ;
    assert(other != pin ==> ((lines | (1u16 << pin)) >> other) & 1 == (lines >> other) & 1)
        by (bit_vector)
        requires
            pin < 16,
            other < 16,
    ;
}

/// Clearing a line makes it low and leaves every other line as it was.
pub proof fn lemma_clear_line(lines: u16, pin: u8, other: u8)
    requires
        pin < 16,
        other < 16,
    ensures
        !line_high(lines & !(1u16 << pin), pin),
        other != pin ==> line_high(lines & !(1u16 << pin), other) == line_high(lines, other),
{
    assert(((lines & !(1u16 << pin)) >> pin) & 1 == 0) by (bit_vector)
        requires
            pin < 16,
    ;
    assert(other != pin ==> ((lines & !(1u16 << pin)) >> other) & 1 == (lines >> other) & 1)
        by (bit_vector)
        requires
            pin < 16,
            other < 16,
    ;
}

/// Initializes all the user LEDs: answers with the mode register in which
/// the lines of the user LEDs are general purpose outputs and every other
/// line keeps its mode. The caller powers the port and writes the answer
/// back.
pub fn init(moder: u32) -> (configured: u32)
    ensures
        configured == leds_as_outputs(moder),
{
    (moder & !0x3c00_0000u32) | 0x1400_0000u32
}

/// After `init`, both LED lines are outputs, and no other line has changed
/// its mode.
pub proof fn lemma_init_modes(moder: u32, pin: u8)
    requires
        pin < 16,
    ensures
        line_mode(leds_as_outputs(moder), pin) == (if pin == 13 || pin == 14 {
            1u32
        } else {
            line_mode(moder, pin)
        }),
{
    assert(((((moder & !0x3c00_0000u32) | 0x1400_0000u32) >> (2 * pin) as u32) & 3) == (if pin == 13
        || pin == 14 {
        1u32
    } else {
        (moder >> (2 * pin) as u32) & 3
    })) by (bit_vector)
        requires
            pin < 16,
    ;
}

/// Initializing twice equals initializing once.
pub proof fn lemma_init_idempotent(moder: u32)
    ensures
        leds_as_outputs(leds_as_outputs(moder)) == leds_as_outputs(moder),
{
    assert((((moder & !0x3c00_0000u32) | 0x1400_0000u32) & !0x3c00_0000u32) | 0x1400_0000u32 == (moder
        & !0x3c00_0000u32) | 0x1400_0000u32) by (bit_vector);
}

} // verus!
