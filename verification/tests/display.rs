use binary_watch::display::{
    GpioSetup, PortSetup, WatchDisplay, ALL_ON, BLINK_PERIOD, MASKS_HOURS, MASKS_MINS, MODE_OUTPUT,
    PULL_UP, SPEED_LOW,
};

/// The OR of the entries at the set bits of `digit`, bit by bit.
fn or_of_entries(table: &[(u32, u32)], digit: u8) -> (u32, u32) {
    let mut a: u32 = 0;
    let mut b: u32 = 0;
    for (k, entry) in table.iter().enumerate() {
        if k < 8 && (digit >> k) & 1 == 1 {
            a |= entry.0;
            b |= entry.1;
        }
    }
    (a, b)
}

/// The register word built field by field.
fn fields(mask: u32, value: u32) -> u32 {
    let mut word: u32 = 0;
    for k in 0u32..16 {
        if (mask >> k) & 1 == 1 {
            word |= value << (2 * k);
        }
    }
    word
}

#[test]
fn tables_hold_the_wiring() {
    assert_eq!(
        MASKS_HOURS,
        [(0, 1 << 14), (1 << 7, 0), (1 << 5, 0), (1 << 2, 0), (1 << 0, 0)]
    );
    assert_eq!(
        MASKS_MINS,
        [(0, 1 << 13), (0, 1 << 12), (1 << 6, 0), (1 << 4, 0), (1 << 3, 0), (1 << 1, 0)]
    );
}

#[test]
fn make_mask_of_zero_is_empty() {
    assert_eq!(WatchDisplay::make_mask(&MASKS_HOURS, 0), (0, 0));
    assert_eq!(WatchDisplay::make_mask(&MASKS_MINS, 0), (0, 0));
}

#[test]
fn make_mask_of_one_bit_is_its_entry() {
    for k in 0usize..5 {
        assert_eq!(WatchDisplay::make_mask(&MASKS_HOURS, 1u8 << k), MASKS_HOURS[k]);
    }
    for k in 0usize..6 {
        assert_eq!(WatchDisplay::make_mask(&MASKS_MINS, 1u8 << k), MASKS_MINS[k]);
    }
}

#[test]
fn make_mask_is_the_or_of_the_selected_entries() {
    for d in 0u8..=255 {
        assert_eq!(WatchDisplay::make_mask(&MASKS_HOURS, d), or_of_entries(&MASKS_HOURS, d));
        assert_eq!(WatchDisplay::make_mask(&MASKS_MINS, d), or_of_entries(&MASKS_MINS, d));
    }
}

#[test]
fn make_mask_exact_values() {
    // 9 = 0b01001: H0 on PB14 and H3 on PA2
    assert_eq!(WatchDisplay::make_mask(&MASKS_HOURS, 9), (0x0004, 0x4000));
    // 5 = 0b000101: M0 on PB13 and M2 on PA6
    assert_eq!(WatchDisplay::make_mask(&MASKS_MINS, 5), (0x0040, 0x2000));
    // 23 = 0b10111: H0, H1, H2, H4
    assert_eq!(WatchDisplay::make_mask(&MASKS_HOURS, 23), (0x00a1, 0x4000));
    // 59 = 0b111011: M0, M1, M3, M4, M5
    assert_eq!(WatchDisplay::make_mask(&MASKS_MINS, 59), (0x001a, 0x3000));
}

#[test]
fn make_mask_ignores_bits_beyond_the_table() {
    for d in 0u8..=255 {
        assert_eq!(
            WatchDisplay::make_mask(&MASKS_HOURS, d),
            WatchDisplay::make_mask(&MASKS_HOURS, d & 0x1f)
        );
        assert_eq!(
            WatchDisplay::make_mask(&MASKS_MINS, d),
            WatchDisplay::make_mask(&MASKS_MINS, d & 0x3f)
        );
    }
    assert_eq!(WatchDisplay::make_mask(&MASKS_HOURS, 0xe0), (0, 0));
    assert_eq!(WatchDisplay::make_mask(&MASKS_MINS, 0xc0), (0, 0));
}

#[test]
fn make_mask_takes_tables_of_any_length() {
    let none: [(u32, u32); 0] = [];
    assert_eq!(WatchDisplay::make_mask(&none, 0xff), (0, 0));
    let one: [(u32, u32); 1] = [(0x10, 0x20)];
    assert_eq!(WatchDisplay::make_mask(&one, 0xff), (0x10, 0x20));
    assert_eq!(WatchDisplay::make_mask(&one, 0xfe), (0, 0));
    let eight: [(u32, u32); 8] = [
        (1, 0),
        (2, 0),
        (4, 0),
        (8, 0),
        (0, 1),
        (0, 2),
        (0, 4),
        (0, 8),
    ];
    assert_eq!(WatchDisplay::make_mask(&eight, 0xff), (0xf, 0xf));
    assert_eq!(WatchDisplay::make_mask(&eight, 0xa5), (0x5, 0xa));
    // a byte has eight bits: entries from the ninth on are never selected
    let ten: [(u32, u32); 10] = [
        (1, 0),
        (2, 0),
        (4, 0),
        (8, 0),
        (0, 1),
        (0, 2),
        (0, 4),
        (0, 8),
        (0x100, 0x100),
        (0x200, 0x200),
    ];
    assert_eq!(WatchDisplay::make_mask(&ten, 0xff), (0xf, 0xf));
}

#[test]
fn make_mask_ors_entries_that_share_pins() {
    let table: [(u32, u32); 3] = [(0x3, 0x1), (0x6, 0x1), (0x8, 0x0)];
    assert_eq!(WatchDisplay::make_mask(&table, 0b011), (0x7, 0x1));
    assert_eq!(WatchDisplay::make_mask(&table, 0b111), (0xf, 0x1));
}

#[test]
fn hour_mins_mask_is_hours_or_minutes() {
    for h in 0u8..=255 {
        for m in [0u8, 1, 5, 30, 42, 59, 63, 64, 255] {
            let hw: (u32, u32) = WatchDisplay::make_mask(&MASKS_HOURS, h);
            let mw: (u32, u32) = WatchDisplay::make_mask(&MASKS_MINS, m);
            assert_eq!(WatchDisplay::make_hour_mins_mask(h, m), (hw.0 | mw.0, hw.1 | mw.1));
        }
    }
}

#[test]
fn nine_oh_five_lights_h3_h0_m2_m0() {
    let h0: u32 = 1 << 14; // port B
    let h3: u32 = 1 << 2; // port A
    let m0: u32 = 1 << 13; // port B
    let m2: u32 = 1 << 6; // port A
    assert_eq!(WatchDisplay::make_hour_mins_mask(9, 5), (h3 | m2, h0 | m0));
    assert_eq!(WatchDisplay::make_hour_mins_mask(9, 5), (0x0044, 0x6000));

    let (mut display, _setup) = WatchDisplay::new();
    display.set_time(9, 5);
    for tick in 1u32..=100 {
        let words: (u32, u32) = display.update();
        if tick % 20 == 0 {
            assert_eq!(words, (0xffff, 0xffff));
        } else {
            assert_eq!(words, (0x0044, 0x6000));
        }
    }
}

#[test]
fn all_ones_lights_every_led() {
    let full: (u32, u32) = WatchDisplay::make_hour_mins_mask(0xff, 0xff);
    assert_eq!(full, (0x00ff, 0x7000));
    let hours: (u32, u32) = WatchDisplay::make_mask(&MASKS_HOURS, 0xff);
    let mins: (u32, u32) = WatchDisplay::make_mask(&MASKS_MINS, 0xff);
    assert_eq!(full, (hours.0 | mins.0, hours.1 | mins.1));
    assert_eq!(hours, (0x00a5, 0x4000));
    assert_eq!(mins, (0x005a, 0x3000));
}

#[test]
fn configured_pins_are_the_pins_that_can_be_driven() {
    let setup: GpioSetup = WatchDisplay::configure_gpios();
    let mut driven: (u32, u32) = (0, 0);
    for h in 0u8..=255 {
        for m in 0u8..=255 {
            let words: (u32, u32) = WatchDisplay::make_hour_mins_mask(h, m);
            assert_eq!(words.0 & !setup.port_a.otyper, 0);
            assert_eq!(words.1 & !setup.port_b.otyper, 0);
            driven = (driven.0 | words.0, driven.1 | words.1);
        }
    }
    assert_eq!(driven, (setup.port_a.otyper, setup.port_b.otyper));
}

#[test]
fn patterns_tell_times_apart() {
    let mut seen: Vec<(u32, u32)> = Vec::new();
    for h in 0u8..24 {
        for m in 0u8..60 {
            seen.push(WatchDisplay::make_hour_mins_mask(h, m));
        }
    }
    seen.sort();
    seen.dedup();
    assert_eq!(seen.len(), 24 * 60);
}

#[test]
fn shift_mask_exact_values() {
    assert_eq!(WatchDisplay::shift_mask_to_2_bits(0, 0b01), 0);
    assert_eq!(WatchDisplay::shift_mask_to_2_bits(0b1, 0b01), 0b01);
    assert_eq!(WatchDisplay::shift_mask_to_2_bits(0b10, 0b01), 0b0100);
    assert_eq!(WatchDisplay::shift_mask_to_2_bits(0b101, 0b01), 0b01_00_01);
    assert_eq!(WatchDisplay::shift_mask_to_2_bits(0b101, 0b10), 0b10_00_10);
    assert_eq!(WatchDisplay::shift_mask_to_2_bits(0b101, 0b11), 0b11_00_11);
    assert_eq!(WatchDisplay::shift_mask_to_2_bits(0b101, 0b00), 0);
    assert_eq!(WatchDisplay::shift_mask_to_2_bits(0x00ff, 0b01), 0x0000_5555);
    assert_eq!(WatchDisplay::shift_mask_to_2_bits(0x7000, 0b01), 0x1500_0000);
    assert_eq!(WatchDisplay::shift_mask_to_2_bits(0x8000, 0b11), 0xc000_0000);
    assert_eq!(WatchDisplay::shift_mask_to_2_bits(0xffff, 0b11), 0xffff_ffff);
    assert_eq!(WatchDisplay::shift_mask_to_2_bits(0xffff, 0b10), 0xaaaa_aaaa);
}

#[test]
fn shift_mask_fills_the_fields_of_the_masked_pins_only() {
    for mask in [0u32, 1, 2, 0x00ff, 0x7000, 0x8001, 0x5a5a, 0xffff] {
        for value in 0u8..4 {
            assert_eq!(
                WatchDisplay::shift_mask_to_2_bits(mask, value),
                fields(mask, value as u32)
            );
        }
    }
}

#[test]
fn shift_mask_ignores_pins_beyond_the_sixteenth() {
    assert_eq!(WatchDisplay::shift_mask_to_2_bits(0x0001_0000, 0b01), 0);
    assert_eq!(WatchDisplay::shift_mask_to_2_bits(0xffff_0000, 0b11), 0);
    assert_eq!(
        WatchDisplay::shift_mask_to_2_bits(0xabcd_00ff, 0b01),
        WatchDisplay::shift_mask_to_2_bits(0x0000_00ff, 0b01)
    );
}

#[test]
fn shift_mask_with_a_wide_value_reaches_into_the_fields_above() {
    assert_eq!(WatchDisplay::shift_mask_to_2_bits(0b1, 0b0100), 0b0100);
    assert_eq!(WatchDisplay::shift_mask_to_2_bits(0b11, 0b0100), 0b01_01_00);
    assert_eq!(WatchDisplay::shift_mask_to_2_bits(0b11, 0xff), 0x3ff);
    // the top of the word cuts off what does not fit
    assert_eq!(WatchDisplay::shift_mask_to_2_bits(0x8000, 0xff), 0xc000_0000);
}

#[test]
fn shift_mask_again_with_the_same_mode_changes_nothing() {
    for mask in [0u32, 1, 0x00ff, 0x7000, 0x5a5a, 0xffff] {
        for again in [0u32, 1, 0x000f, 0x00ff, 0x7000, 0x4000, 0xffff] {
            for value in 0u8..4 {
                let word: u32 = WatchDisplay::shift_mask_to_2_bits(mask, value);
                let more: u32 = WatchDisplay::shift_mask_to_2_bits(again, value);
                assert_eq!(word | word, word);
                if again & !mask == 0 {
                    assert_eq!(word | more, word);
                }
                assert_eq!(WatchDisplay::shift_mask_to_2_bits(mask | again, value), word | more);
            }
        }
    }
}

#[test]
fn shift_mask_of_a_register_word() {
    // the word of a mask, taken as a mask again, is not that word in general
    let word: u32 = WatchDisplay::shift_mask_to_2_bits(0b10, 0b01);
    assert_eq!(word, 0b0100);
    assert_eq!(WatchDisplay::shift_mask_to_2_bits(word, 0b01), 0b01_00_00);
    // the four cases in which it is
    assert_eq!(WatchDisplay::shift_mask_to_2_bits(0x5a5a, 0b00), 0);
    assert_eq!(WatchDisplay::shift_mask_to_2_bits(0, 0b00), 0);
    assert_eq!(WatchDisplay::shift_mask_to_2_bits(0, 0b10), 0);
    assert_eq!(WatchDisplay::shift_mask_to_2_bits(0b1, 0b01), 0b1);
    let all: u32 = WatchDisplay::shift_mask_to_2_bits(0xffff, 0b11);
    assert_eq!(WatchDisplay::shift_mask_to_2_bits(all, 0b11), all);
}

#[test]
fn shift_mask_keeps_disjoint_modes_apart() {
    for mask in [1u32, 2, 0x00ff, 0x7000, 0x5a5a, 0xffff] {
        for (m1, m2) in [(0b01u8, 0b10u8), (0b10, 0b01), (0b00, 0b11), (0b00, 0b01), (0b10, 0b00)] {
            assert_eq!(
                WatchDisplay::shift_mask_to_2_bits(mask, m1)
                    & WatchDisplay::shift_mask_to_2_bits(mask, m2),
                0
            );
        }
    }
    // modes that share a bit do overlap
    assert_ne!(
        WatchDisplay::shift_mask_to_2_bits(0b1, 0b01) & WatchDisplay::shift_mask_to_2_bits(0b1, 0b11),
        0
    );
}

#[test]
fn configure_gpios_exact_words() {
    let setup: GpioSetup = WatchDisplay::configure_gpios();
    assert_eq!(
        setup.port_a,
        PortSetup { moder: 0x0000_5555, ospeedr: 0, pupdr: 0x0000_5555, otyper: 0x00ff }
    );
    assert_eq!(
        setup.port_b,
        PortSetup { moder: 0x1500_0000, ospeedr: 0, pupdr: 0x1500_0000, otyper: 0x7000 }
    );
}

#[test]
fn configure_gpios_follows_the_pin_mask() {
    let (pins_a, pins_b) = WatchDisplay::make_hour_mins_mask(0xff, 0xff);
    let setup: GpioSetup = WatchDisplay::configure_gpios();
    for (port, pins) in [(setup.port_a, pins_a), (setup.port_b, pins_b)] {
        assert_eq!(port.otyper, pins);
        assert_eq!(port.moder, WatchDisplay::shift_mask_to_2_bits(pins, MODE_OUTPUT));
        assert_eq!(port.ospeedr, WatchDisplay::shift_mask_to_2_bits(pins, SPEED_LOW));
        assert_eq!(port.pupdr, WatchDisplay::shift_mask_to_2_bits(pins, PULL_UP));
    }
    assert_eq!((MODE_OUTPUT, SPEED_LOW, PULL_UP), (0b01, 0b00, 0b01));
}

#[test]
fn new_display_comes_with_the_pin_setup_and_shows_nothing() {
    let (mut display, setup) = WatchDisplay::new();
    assert_eq!(setup, WatchDisplay::configure_gpios());
    assert_eq!(display.update(), (0, 0));
}

#[test]
fn set_time_then_update_shows_the_time() {
    for h in 0u8..24 {
        for m in 0u8..60 {
            let (mut display, _setup) = WatchDisplay::new();
            display.set_time(h, m);
            let hw: (u32, u32) = WatchDisplay::make_mask(&MASKS_HOURS, h);
            let mw: (u32, u32) = WatchDisplay::make_mask(&MASKS_MINS, m);
            assert_eq!(display.update(), (hw.0 | mw.0, hw.1 | mw.1));
        }
    }
}

#[test]
fn set_time_writes_nothing_and_keeps_the_counter() {
    let (mut display, _setup) = WatchDisplay::new();
    for _ in 0u32..18 {
        display.update();
    }
    display.set_time(12, 34);
    display.set_time(9, 5);
    // tick 19 shows the time set last, tick 20 is the blink
    assert_eq!(display.update(), (0x0044, 0x6000));
    assert_eq!(display.update(), (ALL_ON, ALL_ON));
    assert_eq!(display.update(), (0x0044, 0x6000));
}

#[test]
fn set_time_all_ones_is_the_test_pattern() {
    let (mut display, _setup) = WatchDisplay::new();
    display.set_time(0xff, 0xff);
    assert_eq!(display.update(), (0x00ff, 0x7000));
    display.set_time(0, 0);
    assert_eq!(display.update(), (0, 0));
}

#[test]
fn every_twentieth_tick_is_a_blink() {
    assert_eq!(BLINK_PERIOD, 20);
    assert_eq!(ALL_ON, 0xffff);
    let (mut display, _setup) = WatchDisplay::new();
    display.set_time(23, 42);
    let pattern: (u32, u32) = WatchDisplay::make_hour_mins_mask(23, 42);
    for tick in 1u32..=1000 {
        let words: (u32, u32) = display.update();
        if tick % 20 == 0 {
            assert_eq!(words, (0xffff, 0xffff));
        } else {
            assert_eq!(words, pattern);
        }
    }
}

#[test]
fn blink_does_not_depend_on_the_pattern() {
    for (h, m) in [(0u8, 0u8), (9, 5), (23, 59), (0xff, 0xff)] {
        let (mut display, _setup) = WatchDisplay::new();
        display.set_time(h, m);
        for _ in 0u32..19 {
            assert_eq!(display.update(), WatchDisplay::make_hour_mins_mask(h, m));
        }
        assert_eq!(display.update(), (0xffff, 0xffff));
        assert_eq!(display.update(), WatchDisplay::make_hour_mins_mask(h, m));
    }
}

#[test]
fn tick_counter_wraps_at_sixteen_bits() {
    let (mut display, _setup) = WatchDisplay::new();
    display.set_time(9, 5);
    let pattern: (u32, u32) = (0x0044, 0x6000);
    // the counter after tick n is n modulo 65536
    for tick in 1u32..=(65536 + 100) {
        let words: (u32, u32) = display.update();
        let counter: u32 = tick % 65536;
        if counter % 20 == 0 {
            assert_eq!(words, (0xffff, 0xffff), "tick {}", tick);
        } else {
            assert_eq!(words, pattern, "tick {}", tick);
        }
    }
}

#[test]
fn blinks_around_the_wrap() {
    let (mut display, _setup) = WatchDisplay::new();
    display.set_time(9, 5);
    let mut blinks: Vec<u32> = Vec::new();
    for tick in 1u32..=(65536 + 40) {
        if display.update() == (0xffff, 0xffff) && tick >= 65500 {
            blinks.push(tick);
        }
    }
    // 65520 is the last multiple of twenty below 2^16; tick 65536 wraps the
    // counter to zero and blinks, sixteen ticks after the blink before it
    assert_eq!(blinks, vec![65500, 65520, 65536, 65556, 65576]);
}
