//! Tests for the LED strip driver: clock divider, word packing, the
//! synthesized program and the blocking whole-strip write.

use lcd_clock::ws2812::{
    clock_divider, pack_led_word, Error, RecordingTx, StripProgram, WS2812,
};

#[test]
fn divider_for_the_measured_clock() {
    // 125 MHz system clock against the 8 MHz target: 15 + 160/256.
    let (int_part, frac) = clock_divider(125_000_000).unwrap();
    assert_eq!(int_part, 15);
    assert_eq!(frac, 160);
    // Recombined in 256ths this is the floor of the exact ratio.
    assert_eq!(int_part as u64 * 256 + frac as u64, 125_000_000u64 * 256 / 8_000_000);
}

#[test]
fn divider_of_other_clocks_recombines() {
    for clock in [8_000_000u32, 12_000_000, 48_000_000, 133_000_000, u32::MAX] {
        let (int_part, frac) = clock_divider(clock).unwrap();
        assert_eq!(
            int_part as u64 * 256 + frac as u64,
            clock as u64 * 256 / 8_000_000,
            "clock {}",
            clock
        );
    }
}

#[test]
fn divider_fraction_is_in_256ths() {
    // 12 MHz: one whole cycle and 4 MHz over, which is 128/256.
    assert_eq!(clock_divider(12_000_000), Ok((1, 128)));
}

#[test]
fn too_slow_a_clock_is_a_setup_failure() {
    assert_eq!(clock_divider(7_999_999), Err(Error::SetupFailure));
    assert!(matches!(WS2812::new(6, RecordingTx::new(), 1_000_000), Err(Error::SetupFailure)));
}

#[test]
fn led_word_packs_green_red_blue() {
    assert_eq!(pack_led_word(0xFF, 0x00, 0x80), 0x00FF8000);
    assert_eq!(pack_led_word(0, 0, 0), 0);
    assert_eq!(pack_led_word(0x12, 0x34, 0x56), 0x34125600);
}

#[test]
fn display_pushes_one_word_per_led() {
    let (mut strip, _program) = WS2812::new(6, RecordingTx::new(), 125_000_000).unwrap();
    strip.display(0xFF, 0x00, 0x80);
    assert_eq!(strip.tx_queue().accepted(), &vec![0x00FF8000u32; 6]);
}

#[test]
fn display_spins_through_a_full_queue() {
    // The queue refuses the first few attempts the way full hardware
    // would; the producer blocks until it drains and every word arrives.
    let (mut strip, _program) = WS2812::new(3, RecordingTx::stalling(5), 125_000_000).unwrap();
    strip.display(1, 2, 3);
    assert_eq!(strip.tx_queue().accepted(), &vec![pack_led_word(1, 2, 3); 3]);
}

#[test]
fn program_matches_the_assembler_output() {
    // The synthesized program must be exactly what pio's assembler encodes
    // for the 2:5:3 bit-cell split.
    let (_strip, program) = WS2812::new(6, RecordingTx::new(), 125_000_000).unwrap();

    let side_set = pio::SideSet::new(false, 1, false);
    let mut a = pio::Assembler::<32>::new_with_side_set(side_set);
    let mut wrap_target = a.label();
    let mut wrap_source = a.label();
    let mut do_zero = a.label();
    a.bind(&mut wrap_target);
    a.out_with_delay_and_side_set(pio::OutDestination::X, 1, 3 - 1, 0);
    a.jmp_with_delay_and_side_set(pio::JmpCondition::XIsZero, &mut do_zero, 2 - 1, 1);
    a.jmp_with_delay_and_side_set(pio::JmpCondition::Always, &mut wrap_target, 5 - 1, 1);
    a.bind(&mut do_zero);
    a.nop_with_delay_and_side_set(5 - 1, 0);
    a.bind(&mut wrap_source);
    let reference = a.assemble_with_wrap(wrap_source, wrap_target);

    assert_eq!(program.words, reference.code.as_slice().to_vec());
    assert_eq!(program.wrap_source, reference.wrap.source);
    assert_eq!(program.wrap_target, reference.wrap.target);
    assert_eq!(program.words, vec![0x6221, 0x1123, 0x1400, 0xA442]);
    assert_eq!(program.divider_int, 15);
    assert_eq!(program.divider_frac, 160);
}

#[test]
fn program_struct_is_plain_data() {
    let p = StripProgram {
        words: vec![1, 2],
        wrap_source: 1,
        wrap_target: 0,
        divider_int: 15,
        divider_frac: 160,
    };
    assert_eq!(p.words.len(), 2);
}
