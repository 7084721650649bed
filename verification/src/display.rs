//! The LED display: eleven LEDs on two GPIO ports show the hour (five bits)
//! and the minute (six bits) in binary.
//!
//! | LED | pin  | LED | pin  |
//! |-----|------|-----|------|
//! | H0  | PB14 | M0  | PB13 |
//! | H1  | PA7  | M1  | PB12 |
//! | H2  | PA5  | M2  | PA6  |
//! | H3  | PA2  | M3  | PA4  |
//! | H4  | PA0  | M4  | PA3  |
//! |     |      | M5  | PA1  |
//!
//! A pin word has bit `n` set for pin `n` of its port. Words come in pairs,
//! port A first.

use vstd::prelude::*;
use crate::display_lemmas::{lemma_expand_slots, lemma_pattern_is_wiring, lemma_setup_words};

verus! {

/// Pin words of the hour LEDs H0 to H4.
pub const MASKS_HOURS: [(u32, u32); 5] = [
    (0, 0x4000),
    (0x0080, 0),
    (0x0020, 0),
    (0x0004, 0),
    (0x0001, 0),
];

/// Pin words of the minute LEDs M0 to M5.
pub const MASKS_MINS: [(u32, u32); 6] = [
    (0, 0x2000),
    (0, 0x1000),
    (0x0040, 0),
    (0x0010, 0),
    (0x0008, 0),
    (0x0002, 0),
];

/// The word that an output register gets on a blink tick: all sixteen pins
/// of the port high.
pub const ALL_ON: u32 = 0xffff;

/// A blink comes whenever the tick counter is a multiple of this.
pub const BLINK_PERIOD: u16 = 20;

/// Mode field of a pin that is a general purpose output.
pub const MODE_OUTPUT: u8 = 0b01;

/// Speed field of a pin that switches at low speed.
pub const SPEED_LOW: u8 = 0b00;

/// Pull field of a pin with its pull-up enabled.
pub const PULL_UP: u8 = 0b01;

/// Whether bit `k` of `digit` is set. A byte has no bit 8 or above.
pub open spec fn digit_bit(digit: u8, k: nat) -> bool {
    k < 8 && digit & (1u8 << (k as u8)) != 0
}

/// The OR, per port, of the entries `table[k]` with `k < n` whose bit `k` is
/// set in `digit`.
pub open spec fn encode_below(table: Seq<(u32, u32)>, digit: u8, n: nat) -> (u32, u32)
    decreases n,
{
    if n == 0 {
        (0u32, 0u32)
    } else {
        let rest = encode_below(table, digit, (n - 1) as nat);
        if digit_bit(digit, (n - 1) as nat) {
            (rest.0 | table[n - 1].0, rest.1 | table[n - 1].1)
        } else {
            rest
        }
    }
}

/// The pin words that show `digit` on the LEDs of `table`.
pub open spec fn encode(table: Seq<(u32, u32)>, digit: u8) -> (u32, u32) {
    encode_below(table, digit, table.len())
}

/// The pin words that show `hours` on the hour LEDs and `mins` on the minute
/// LEDs.
pub open spec fn pattern(hours: u8, mins: u8) -> (u32, u32) {
    let h = encode(MASKS_HOURS@, hours);
    let m = encode(MASKS_MINS@, mins);
    (h.0 | m.0, h.1 | m.1)
}

/// Every pin that drives an LED.
pub open spec fn full_pins() -> (u32, u32) {
    pattern(0xff, 0xff)
}

/// The word of pin `n` if bit `k` of `digit` is set, else no pin.
pub open spec fn led(digit: u8, k: u8, n: u32) -> u32 {
    if digit & (1u8 << k) != 0 {
        1u32 << n
    } else {
        0u32
    }
}

/// The pins of port A that are high for a time of day, LED by LED as the
/// board is wired.
pub open spec fn port_a_leds(hours: u8, mins: u8) -> u32 {
    led(hours, 1, 7) | led(hours, 2, 5) | led(hours, 3, 2) | led(hours, 4, 0)
        | led(mins, 2, 6) | led(mins, 3, 4) | led(mins, 4, 3) | led(mins, 5, 1)
}

/// The pins of port B that are high for a time of day.
pub open spec fn port_b_leds(hours: u8, mins: u8) -> u32 {
    led(hours, 0, 14) | led(mins, 0, 13) | led(mins, 1, 12)
}

/// Whether the pin word `mask` holds pin `k`.
pub open spec fn pin_selected(mask: u32, k: u32) -> bool {
    mask & (1u32 << k) != 0
}

/// `value` at the field of pin `k` if `mask` holds that pin, else zero.
pub open spec fn slot_word(mask: u32, value: u8, k: u32) -> u32 {
    if pin_selected(mask, k) {
        (value as u32) << (2 * k)
    } else {
        0u32
    }
}

/// The OR of `value << 2k` over the pins `k < n` that `mask` holds.
pub open spec fn slots_below(mask: u32, value: u8, n: nat) -> u32
    decreases n,
{
    if n == 0 {
        0u32
    } else {
        slots_below(mask, value, (n - 1) as nat) | slot_word(mask, value, (n - 1) as u32)
    }
}

/// The register word with `value` in the field of each of the sixteen pins
/// that `mask` holds. A register has one field of two bits per pin, the field
/// of pin `k` at bit `2k`.
pub open spec fn expand(mask: u32, value: u8) -> u32 {
    slots_below(mask, value, 16)
}

/// The field of pin `k` in the register word `word`.
pub open spec fn slot(word: u32, k: u32) -> u32 {
    (word >> (2 * k)) & 3
}

/// The four configuration registers of one GPIO port.
#[derive(Clone, Copy, Debug, PartialEq, Eq, Structural)]
pub struct PortSetup {
    /// Mode register.
    pub moder: u32,
    /// Output speed register.
    pub ospeedr: u32,
    /// Pull-up and pull-down register.
    pub pupdr: u32,
    /// Output type register: a set bit makes the pin open-drain.
    pub otyper: u32,
}

/// The configuration of both ports.
#[derive(Clone, Copy, Debug, PartialEq, Eq, Structural)]
pub struct GpioSetup {
    pub port_a: PortSetup,
    pub port_b: PortSetup,
}

/// The registers of a port whose pins in `pins` are open-drain outputs at low
/// speed with pull-up, and whose other fields are zero.
pub open spec fn port_setup(pins: u32) -> PortSetup {
    PortSetup {
        moder: expand(pins, MODE_OUTPUT),
        ospeedr: expand(pins, SPEED_LOW),
        pupdr: expand(pins, PULL_UP),
        otyper: pins,
    }
}

/// What the display remembers from one tick to the next.
pub struct DisplayState {
    /// The pin words of the time last set.
    pub pattern: (u32, u32),
    /// Ticks so far, modulo 2^16.
    pub ticks: u16,
}

impl DisplayState {
    /// The state after the time was set.
    pub open spec fn set_time(self, hours: u8, mins: u8) -> DisplayState {
        DisplayState { pattern: pattern(hours, mins), ticks: self.ticks }
    }

    /// The state after one more tick.
    pub open spec fn tick(self) -> DisplayState {
        DisplayState {
            pattern: self.pattern,
            ticks: if self.ticks == u16::MAX { 0u16 } else { (self.ticks + 1) as u16 },
        }
    }

    /// The state after `n` more ticks.
    pub open spec fn after(self, n: nat) -> DisplayState
        decreases n,
    {
        if n == 0 {
            self
        } else {
            self.after((n - 1) as nat).tick()
        }
    }

    /// Whether the tick that led to this state is a blink.
    pub open spec fn blinks(self) -> bool {
        self.ticks % BLINK_PERIOD == 0
    }

    /// The words that the tick that led to this state puts on the pins.
    pub open spec fn output(self) -> (u32, u32) {
        if self.blinks() {
            (ALL_ON, ALL_ON)
        } else {
            self.pattern
        }
    }
}

/// The display's state: the pattern of the time last set, and a tick counter
/// that paces the blink.
pub struct WatchDisplay {
    display: (u32, u32),
    time: u16,
}

impl View for WatchDisplay {
    type V = DisplayState;

    closed spec fn view(&self) -> DisplayState {
        DisplayState { pattern: self.display, ticks: self.time }
    }
}

impl WatchDisplay {
    /// A display that shows nothing and has not ticked yet, with the
    /// register words that configure its pins: they are to be written once,
    /// before the first tick.
    pub fn new() -> (made: (Self, GpioSetup))
        ensures
            made.0@ == (DisplayState { pattern: (0u32, 0u32), ticks: 0 }),
            made.1.port_a == port_setup(full_pins().0),
            made.1.port_b == port_setup(full_pins().1),
    {
        (WatchDisplay { display: (0, 0), time: 0 }, Self::configure_gpios())
    }

    /// The pin words for `byte` on the LEDs of `masks`: the OR of the entries
    /// at the set bits of `byte`. Bits of `byte` from `N` on select nothing.
    pub fn make_mask<const N: usize>(masks: &[(u32, u32); N], byte: u8) -> (words: (u32, u32))
        ensures
            words == encode(masks@, byte),
    {
        let mut words: (u32, u32) = (0, 0);
        let mut k: usize = 0;
        while k < N
            invariant
                k <= N,
                masks@.len() == N,
                words == encode_below(masks@, byte, k as nat),
            decreases N - k,
        {
            if k < 8 && byte & (1u8 << (k as u8)) != 0 {
                words = (words.0 | masks[k].0, words.1 | masks[k].1);
            }
            k += 1;
        }
        words
    }

    /// The pin words for a time of day: the hour on the hour LEDs together
    /// with the minute on the minute LEDs, which are the pins of the wiring.
    pub fn make_hour_mins_mask(hours: u8, mins: u8) -> (words: (u32, u32))
        ensures
            words == pattern(hours, mins),
            words == (port_a_leds(hours, mins), port_b_leds(hours, mins)),
    {
        let (hwa, hwb) = Self::make_mask(&MASKS_HOURS, hours);
        let (mwa, mwb) = Self::make_mask(&MASKS_MINS, mins);
        proof {
            lemma_pattern_is_wiring(hours, mins);
        }
        (hwa | mwa, hwb | mwb)
    }

    /// Spreads a pin word over the two-bit fields of a configuration
    /// register: the field of each pin in `mask` gets `value_when_set`, and
    /// the fields of the other pins are zero. A value wider than two bits
    /// reaches into the fields above.
    pub fn shift_mask_to_2_bits(mask: u32, value_when_set: u8) -> (omask: u32)
        ensures
            omask == expand(mask, value_when_set),
            value_when_set <= 3 ==> forall|k: u32|
                k < 16 ==> #[trigger] slot(omask, k) == (if pin_selected(mask, k) {
                    value_when_set as u32
                } else {
                    0u32
                }),
    {
        let mut omask: u32 = 0;
        let mut k: u32 = 0;
        while k < 16
            invariant
                k <= 16,
                omask == slots_below(mask, value_when_set, k as nat),
            decreases 16 - k,
        {
            if (mask & (1u32 << k)) != 0 {
                omask |= (value_when_set as u32) << (2 * k);
            } else {
                assert(omask | 0u32 == omask) by (bit_vector);
            }
            k += 1;
        }
        proof {
            if value_when_set <= 3 {
                assert forall|k: u32| k < 16 implies #[trigger] slot(omask, k) == (if pin_selected(
                    mask,
                    k,
                ) {
                    value_when_set as u32
                } else {
                    0u32
                }) by {
                    lemma_expand_slots(mask, value_when_set, k);
                }
            }
        }
        omask
    }

    /// The register words that make every LED pin, and no other pin, an
    /// open-drain output at low speed with pull-up. The LED pins are those of
    /// the pattern with all bits set.
    pub fn configure_gpios() -> (setup: GpioSetup)
        ensures
            setup.port_a == port_setup(full_pins().0),
            setup.port_b == port_setup(full_pins().1),
            setup.port_a == (PortSetup {
                moder: 0x0000_5555,
                ospeedr: 0,
                pupdr: 0x0000_5555,
                otyper: 0x00ff,
            }),
            setup.port_b == (PortSetup {
                moder: 0x1500_0000,
                ospeedr: 0,
                pupdr: 0x1500_0000,
                otyper: 0x7000,
            }),
    {
        proof {
            lemma_setup_words();
        }
        let (wa, wb) = Self::make_hour_mins_mask(0xff, 0xff);
        let port_a = PortSetup {
            moder: Self::shift_mask_to_2_bits(wa, MODE_OUTPUT),
            ospeedr: Self::shift_mask_to_2_bits(wa, SPEED_LOW),
            pupdr: Self::shift_mask_to_2_bits(wa, PULL_UP),
            otyper: wa,
        };
        let port_b = PortSetup {
            moder: Self::shift_mask_to_2_bits(wb, MODE_OUTPUT),
            ospeedr: Self::shift_mask_to_2_bits(wb, SPEED_LOW),
            pupdr: Self::shift_mask_to_2_bits(wb, PULL_UP),
            otyper: wb,
        };
        GpioSetup { port_a, port_b }
    }

    /// Remembers the pattern of a time of day. Nothing reaches the pins before
    /// the next tick.
    pub fn set_time(&mut self, hours: u8, mins: u8)
        ensures
            final(self)@ == old(self)@.set_time(hours, mins),
    {
        self.display = Self::make_hour_mins_mask(hours, mins);
    }

    /// One tick: advances the counter, which wraps, and gives the words for
    /// the two output registers: all LEDs on a blink tick, else the pattern
    /// of the time last set.
    pub fn update(&mut self) -> (words: (u32, u32))
        ensures
            final(self)@ == old(self)@.tick(),
            words == final(self)@.output(),
    {
        self.time = self.time.wrapping_add(1);
        if self.time % BLINK_PERIOD == 0 {
            (ALL_ON, ALL_ON)
        } else {
            self.display
        }
    }
}

} // verus!
