//! What holds of the display's encodings and of its tick counter.

use vstd::prelude::*;
use crate::display::{
    digit_bit, encode, encode_below, expand, full_pins, pattern, pin_selected, port_a_leds,
    port_b_leds, port_setup, slot, DisplayState, PortSetup, ALL_ON, MASKS_HOURS, MASKS_MINS,
    MODE_OUTPUT,
};

verus! {

/// The tables as the board is wired: each entry is the one pin of its LED,
/// on the one port that the pin belongs to.
pub proof fn lemma_tables_are_wiring()
    ensures
        MASKS_HOURS@ =~= seq![
            (0u32, 1u32 << 14),
            (1u32 << 7, 0u32),
            (1u32 << 5, 0u32),
            (1u32 << 2, 0u32),
            (1u32 << 0, 0u32),
        ],
        MASKS_MINS@ =~= seq![
            (0u32, 1u32 << 13),
            (0u32, 1u32 << 12),
            (1u32 << 6, 0u32),
            (1u32 << 4, 0u32),
            (1u32 << 3, 0u32),
            (1u32 << 1, 0u32),
        ],
{
    assert(1u32 << 14 == 0x4000 && 1u32 << 13 == 0x2000 && 1u32 << 12 == 0x1000 && 1u32 << 7
        == 0x80 && 1u32 << 6 == 0x40 && 1u32 << 5 == 0x20 && 1u32 << 4 == 0x10 && 1u32 << 3 == 0x08
        && 1u32 << 2 == 0x04 && 1u32 << 1 == 0x02 && 1u32 << 0 == 0x01) by (bit_vector);
}

/// One step of the encoder on one port: `acc`, with `word` added if bit `k`
/// of `digit` is set.
spec fn pick(acc: u32, digit: u8, k: u8, word: u32) -> u32 {
    if digit & (1u8 << k) != 0 {
        acc | word
    } else {
        acc
    }
}

/// The encoder's steps over the hour table, written out: port A.
spec fn hours_steps_a(d: u8) -> u32 {
    pick(pick(pick(pick(pick(0, d, 0, 0), d, 1, 0x0080), d, 2, 0x0020), d, 3, 0x0004), d, 4, 0x0001)
}

/// The encoder's steps over the hour table: port B.
spec fn hours_steps_b(d: u8) -> u32 {
    pick(pick(pick(pick(pick(0, d, 0, 0x4000), d, 1, 0), d, 2, 0), d, 3, 0), d, 4, 0)
}

/// The encoder's steps over the minute table: port A.
spec fn mins_steps_a(d: u8) -> u32 {
    pick(
        pick(pick(pick(pick(pick(0, d, 0, 0), d, 1, 0), d, 2, 0x0040), d, 3, 0x0010), d, 4, 0x0008),
        d,
        5,
        0x0002,
    )
}

/// The encoder's steps over the minute table: port B.
spec fn mins_steps_b(d: u8) -> u32 {
    pick(pick(pick(pick(pick(pick(0, d, 0, 0x2000), d, 1, 0x1000), d, 2, 0), d, 3, 0), d, 4, 0), d, 5, 0)
}

proof fn lemma_hours_steps(d: u8)
    ensures
        encode(MASKS_HOURS@, d) == (hours_steps_a(d), hours_steps_b(d)),
{
    reveal_with_fuel(encode_below, 6);
}

proof fn lemma_mins_steps(d: u8)
    ensures
        encode(MASKS_MINS@, d) == (mins_steps_a(d), mins_steps_b(d)),
{
    reveal_with_fuel(encode_below, 7);
}

/// The tables hold the wiring: the encoder drives, for each set bit of the
/// hour and of the minute, the pin of that bit's LED, and no other pin.
pub proof fn lemma_pattern_is_wiring(hours: u8, mins: u8)
    ensures
        pattern(hours, mins) == (port_a_leds(hours, mins), port_b_leds(hours, mins)),
{
    lemma_hours_steps(hours);
    lemma_mins_steps(mins);
    assert(hours_steps_a(hours) | mins_steps_a(mins) == port_a_leds(hours, mins)) by (bit_vector);
    assert(hours_steps_b(hours) | mins_steps_b(mins) == port_b_leds(hours, mins)) by (bit_vector);
}

/// Two digits that agree on the bits below the table's length encode to the
/// same words: bits at or above that length change nothing.
pub proof fn lemma_encode_ignores_high_bits(table: Seq<(u32, u32)>, d1: u8, d2: u8)
    requires
        forall|k: nat| k < table.len() ==> digit_bit(d1, k) == digit_bit(d2, k),
    ensures
        encode(table, d1) == encode(table, d2),
{
    lemma_encode_below_agrees(table, d1, d2, table.len());
}

proof fn lemma_encode_below_agrees(table: Seq<(u32, u32)>, d1: u8, d2: u8, n: nat)
    requires
        forall|k: nat| k < n ==> digit_bit(d1, k) == digit_bit(d2, k),
    ensures
        encode_below(table, d1, n) == encode_below(table, d2, n),
    decreases n,
{
    if n > 0 {
        lemma_encode_below_agrees(table, d1, d2, (n - 1) as nat);
    }
}

/// Of the hour only the five low bits count, and of the minute the six low
/// bits.
pub proof fn lemma_pattern_ignores_high_bits(hours: u8, mins: u8)
    ensures
        encode(MASKS_HOURS@, hours) == encode(MASKS_HOURS@, hours & 0x1f),
        encode(MASKS_MINS@, mins) == encode(MASKS_MINS@, mins & 0x3f),
        pattern(hours, mins) == pattern(hours & 0x1f, mins & 0x3f),
{
    let h = hours & 0x1f;
    let m = mins & 0x3f;
    assert forall|k: nat| k < 5 implies digit_bit(hours, k) == digit_bit(h, k) by {
        let j = k as u8;
        assert(j < 5 ==> (hours & (1u8 << j) != 0) == ((hours & 0x1f) & (1u8 << j) != 0))
            by (bit_vector);
    }
    assert forall|k: nat| k < 6 implies digit_bit(mins, k) == digit_bit(m, k) by {
        let j = k as u8;
        assert(j < 6 ==> (mins & (1u8 << j) != 0) == ((mins & 0x3f) & (1u8 << j) != 0))
            by (bit_vector);
    }
    lemma_encode_ignores_high_bits(MASKS_HOURS@, hours, h);
    lemma_encode_ignores_high_bits(MASKS_MINS@, mins, m);
}

/// A pin is high in the encoding of a digit exactly if it is in the entry of
/// some set bit of the digit.
pub proof fn lemma_encode_pins(table: Seq<(u32, u32)>, digit: u8, pin: u32)
    requires
        pin < 32,
    ensures
        pin_selected(encode(table, digit).0, pin) <==> exists|k: nat|
            k < table.len() && digit_bit(digit, k) && pin_selected(#[trigger] table[k as int].0, pin),
        pin_selected(encode(table, digit).1, pin) <==> exists|k: nat|
            k < table.len() && digit_bit(digit, k) && pin_selected(#[trigger] table[k as int].1, pin),
{
    lemma_encode_below_pins(table, digit, pin, table.len());
}

proof fn lemma_encode_below_pins(table: Seq<(u32, u32)>, digit: u8, pin: u32, n: nat)
    requires
        pin < 32,
    ensures
        pin_selected(encode_below(table, digit, n).0, pin) <==> exists|k: nat|
            k < n && digit_bit(digit, k) && pin_selected(#[trigger] table[k as int].0, pin),
        pin_selected(encode_below(table, digit, n).1, pin) <==> exists|k: nat|
            k < n && digit_bit(digit, k) && pin_selected(#[trigger] table[k as int].1, pin),
    decreases n,
{
    if n == 0 {
        assert(!pin_selected(0u32, pin)) by (bit_vector);
    } else {
        let last = (n - 1) as nat;
        let rest = encode_below(table, digit, last);
        let entry = table[last as int];
        lemma_encode_below_pins(table, digit, pin, last);
        let (ra, rb) = rest;
        let (ea, eb) = entry;
        assert(pin_selected(ra | ea, pin) == (pin_selected(ra, pin) || pin_selected(ea, pin)))
            by (bit_vector);
        assert(pin_selected(rb | eb, pin) == (pin_selected(rb, pin) || pin_selected(eb, pin)))
            by (bit_vector);
    }
}

/// The pins configured at start-up are the pins of the eleven LEDs: port A
/// pins 0 to 7, port B pins 12 to 14.
pub proof fn lemma_full_pins()
    ensures
        full_pins() == (0x00ffu32, 0x7000u32),
{
    lemma_pattern_is_wiring(0xff, 0xff);
    assert(port_a_leds(0xff, 0xff) == 0x00ff) by (bit_vector);
    assert(port_b_leds(0xff, 0xff) == 0x7000) by (bit_vector);
}

/// No time of day drives a pin that was not configured at start-up: every
/// pattern lies within the pattern of the all-ones digits.
pub proof fn lemma_pattern_within_full_pins(hours: u8, mins: u8)
    ensures
        pattern(hours, mins).0 & !full_pins().0 == 0,
        pattern(hours, mins).1 & !full_pins().1 == 0,
{
    lemma_pattern_is_wiring(hours, mins);
    lemma_pattern_is_wiring(0xff, 0xff);
    assert(port_a_leds(hours, mins) & !port_a_leds(0xff, 0xff) == 0) by (bit_vector);
    assert(port_b_leds(hours, mins) & !port_b_leds(0xff, 0xff) == 0) by (bit_vector);
}

/// The pins configured as outputs at start-up are the pins that some time
/// of day drives: none is configured in vain, and none is driven without
/// being configured.
pub proof fn lemma_outputs_are_the_driven_pins(k: u32)
    requires
        k < 16,
    ensures
        slot(port_setup(full_pins().0).moder, k) == MODE_OUTPUT <==> exists|h: u8, m: u8|
            pin_selected((#[trigger] pattern(h, m)).0, k),
        slot(port_setup(full_pins().1).moder, k) == MODE_OUTPUT <==> exists|h: u8, m: u8|
            pin_selected((#[trigger] pattern(h, m)).1, k),
{
    let (full_a, full_b) = full_pins();
    lemma_expand_slots(full_a, MODE_OUTPUT, k);
    lemma_expand_slots(full_b, MODE_OUTPUT, k);
    assert forall|h: u8, m: u8| pin_selected((#[trigger] pattern(h, m)).0, k) implies pin_selected(
        full_a,
        k,
    ) by {
        lemma_pattern_within_full_pins(h, m);
        let a = pattern(h, m).0;
        assert(a & !full_a == 0 && pin_selected(a, k) ==> pin_selected(full_a, k)) by (bit_vector);
    }
    assert forall|h: u8, m: u8| pin_selected((#[trigger] pattern(h, m)).1, k) implies pin_selected(
        full_b,
        k,
    ) by {
        lemma_pattern_within_full_pins(h, m);
        let b = pattern(h, m).1;
        assert(b & !full_b == 0 && pin_selected(b, k) ==> pin_selected(full_b, k)) by (bit_vector);
    }
}

/// The display can be read back: two times of day light the same LEDs
/// exactly if they agree on the five hour bits and the six minute bits.
pub proof fn lemma_pattern_one_to_one(h1: u8, m1: u8, h2: u8, m2: u8)
    ensures
        pattern(h1, m1) == pattern(h2, m2) <==> (h1 & 0x1f == h2 & 0x1f && m1 & 0x3f == m2 & 0x3f),
{
    lemma_pattern_is_wiring(h1, m1);
    lemma_pattern_is_wiring(h2, m2);
    assert((port_a_leds(h1, m1) == port_a_leds(h2, m2) && port_b_leds(h1, m1) == port_b_leds(h2, m2))
        <==> (h1 & 0x1f == h2 & 0x1f && m1 & 0x3f == m2 & 0x3f)) by (bit_vector);
}

/// For a mode of two bits, the field of each pin in the mask holds the mode
/// and every other field holds zero: no field reaches into its neighbour.
pub proof fn lemma_expand_slots(mask: u32, value: u8, k: u32)
    requires
        value <= 3,
        k < 16,
    ensures
        slot(expand(mask, value), k) == (if pin_selected(mask, k) {
            value as u32
        } else {
            0u32
        }),
{
    assert(value <= 3 && k < 16 ==> slot(expand(mask, value), k) == (if pin_selected(mask, k) {
        value as u32
    } else {
        0u32
    })) by (bit_vector);
}

/// Only the sixteen pins of a port count: higher bits of the mask change
/// nothing.
pub proof fn lemma_expand_ignores_high_pins(mask: u32, value: u8)
    ensures
        expand(mask, value) == expand(mask & 0xffff, value),
{
    assert(expand(mask, value) == expand(mask & 0xffff, value)) by (bit_vector);
}

/// Expanding pins once more with the same mode changes nothing: the word of
/// a mask already holds the word of each mask within it.
pub proof fn lemma_expand_again(mask: u32, again: u32, value: u8)
    requires
        again & !mask == 0,
    ensures
        expand(mask, value) | expand(again, value) == expand(mask, value),
{
    assert(again & !mask == 0 ==> expand(mask, value) | expand(again, value) == expand(mask, value))
        by (bit_vector);
}

/// The words of two masks together are the word of the masks together.
pub proof fn lemma_expand_union(mask1: u32, mask2: u32, value: u8)
    ensures
        expand(mask1 | mask2, value) == expand(mask1, value) | expand(mask2, value),
{
    assert(expand(mask1 | mask2, value) == expand(mask1, value) | expand(mask2, value))
        by (bit_vector);
}

/// Taking the word of a mask as a mask again, with the same mode of two
/// bits, gives that word back for mode 0, for the empty mask, for pin 0
/// alone in mode 1 and for all sixteen pins in mode 3, and for nothing else.
pub proof fn lemma_expand_of_expansion(mask: u32, value: u8)
    requires
        value <= 3,
    ensures
        expand(expand(mask, value), value) == expand(mask, value) <==> (value == 0 || mask & 0xffff
            == 0 || (value == 1 && mask & 0xffff == 1) || (value == 3 && mask & 0xffff == 0xffff)),
{
    assert(value <= 3 ==> (expand(expand(mask, value), value) == expand(mask, value) <==> (value
        == 0 || mask & 0xffff == 0 || (value == 1 && mask & 0xffff == 1) || (value == 3 && mask
        & 0xffff == 0xffff)))) by (bit_vector);
}

/// Two modes of two bits with no bit in common give words with no bit in
/// common, whatever the mask.
pub proof fn lemma_expand_disjoint_modes(mask: u32, m1: u8, m2: u8)
    requires
        m1 <= 3,
        m2 <= 3,
        m1 & m2 == 0,
    ensures
        expand(mask, m1) & expand(mask, m2) == 0,
{
    assert(m1 <= 3 && m2 <= 3 && m1 & m2 == 0 ==> expand(mask, m1) & expand(mask, m2) == 0)
        by (bit_vector);
}

/// The tick after the time was set shows that time, unless it is a blink.
pub proof fn lemma_set_time_then_tick(state: DisplayState, hours: u8, mins: u8)
    ensures
        !state.set_time(hours, mins).tick().blinks() ==> state.set_time(hours, mins).tick().output()
            == pattern(hours, mins),
        state.set_time(hours, mins).tick().blinks() ==> state.set_time(hours, mins).tick().output()
            == (ALL_ON, ALL_ON),
        state.set_time(hours, mins).tick().ticks == state.tick().ticks,
{
}

/// Ticks count modulo 2^16 and leave the pattern alone.
pub proof fn lemma_after(state: DisplayState, n: nat)
    ensures
        state.after(n).ticks == (state.ticks + n) % 0x1_0000,
        state.after(n).pattern == state.pattern,
    decreases n,
{
    if n > 0 {
        lemma_after(state, (n - 1) as nat);
    }
}

/// The number of ticks from a blink at counter value `ticks` to the next
/// blink: twenty, but sixteen from the last blink before the counter wraps,
/// since 2^16 is sixteen more than a multiple of twenty.
pub open spec fn blink_gap(ticks: u16) -> nat {
    if ticks == 65520 {
        16
    } else {
        20
    }
}

/// A blink lights every LED whatever the pattern; the ticks up to the next
/// blink show the pattern, unchanged; and the next blink comes after twenty
/// ticks, or, across the wrap of the counter, after sixteen. No blink is
/// left out and none comes twice.
pub proof fn lemma_blink_cycle(state: DisplayState, n: nat)
    requires
        state.blinks(),
        0 < n < blink_gap(state.ticks),
    ensures
        state.output() == (ALL_ON, ALL_ON),
        !state.after(n).blinks(),
        state.after(n).output() == state.pattern,
        state.after(blink_gap(state.ticks)).blinks(),
        state.after(blink_gap(state.ticks)).output() == (ALL_ON, ALL_ON),
        state.after(blink_gap(state.ticks)).pattern == state.pattern,
{
    lemma_after(state, n);
    lemma_after(state, blink_gap(state.ticks));
}

/// The counter wraps from 2^16 - 1 to zero, and the tick that wraps it is a
/// blink.
pub proof fn lemma_wrap(state: DisplayState)
    requires
        state.ticks == u16::MAX,
    ensures
        state.tick().ticks == 0,
        state.tick().blinks(),
        state.tick().output() == (ALL_ON, ALL_ON),
        state.tick().pattern == state.pattern,
{
}

/// The register words written at start-up.
pub proof fn lemma_setup_words()
    ensures
        port_setup(full_pins().0) == (PortSetup {
            moder: 0x0000_5555,
            ospeedr: 0,
            pupdr: 0x0000_5555,
            otyper: 0x00ff,
        }),
        port_setup(full_pins().1) == (PortSetup {
            moder: 0x1500_0000,
            ospeedr: 0,
            pupdr: 0x1500_0000,
            otyper: 0x7000,
        }),
{
    lemma_full_pins();
    assert(expand(0x00ff, 1) == 0x0000_5555 && expand(0x00ff, 0) == 0 && expand(0x7000, 1)
        == 0x1500_0000 && expand(0x7000, 0) == 0) by (bit_vector);
}

} // verus!
