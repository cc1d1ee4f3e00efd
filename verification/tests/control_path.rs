//! Scenario tests for the register-level control path: the handler's
//! read-then-write behaviour, the setup stages' register patterns, and the
//! heartbeat counter.

use button_led::handler::{
    exti0, input_level, led_off_word, led_on_word, led_word, pr1_ack_word, read_input,
    set_led_off, set_led_on,
};
use button_led::heartbeat::next_count;
use button_led::regs::{RegisterFile, OUTPUT_PIN};
use button_led::setup::{
    run_setup, setup_gpioa_pin_as_input, setup_gpioe_pin_as_output, setup_input_interrupt,
};

fn reset_state() -> RegisterFile {
    RegisterFile {
        rcc_ahbenr: 0,
        rcc_ahb2enr: 0,
        gpioa_idr: 0,
        gpioe_moder: 0,
        gpioe_odr: 0,
        syscfg_exticr1: 0,
        exti_imr1: 0,
        exti_rtsr1: 0,
        exti_ftsr1: 0,
        exti_pr1: 0,
        nvic_iser0: 0,
    }
}

#[test]
fn handler_drives_led_high_when_button_pressed() {
    let mut regs = reset_state();
    regs.gpioa_idr = 1;
    regs.exti_pr1 = 1;
    exti0(&mut regs);
    assert_eq!(regs.gpioe_odr, 1 << 15);
    assert_eq!(regs.gpioe_odr & (1 << 15), 1 << 15);
}

#[test]
fn handler_drives_led_low_when_button_released() {
    let mut regs = reset_state();
    regs.gpioa_idr = 0;
    regs.gpioe_odr = 0xFFFF;
    regs.exti_pr1 = 1;
    exti0(&mut regs);
    assert_eq!(regs.gpioe_odr, 0xFFFF & !(1 << 15));
    assert_eq!(regs.gpioe_odr & (1 << 15), 0);
}

#[test]
fn handler_clears_pending_bit_before_returning() {
    let mut regs = reset_state();
    regs.exti_pr1 = 1;
    exti0(&mut regs);
    assert_eq!(regs.exti_pr1 & 1, 0);

    let mut regs = reset_state();
    regs.gpioa_idr = 1;
    regs.exti_pr1 = 0b1;
    exti0(&mut regs);
    assert_eq!(regs.exti_pr1 & 1, 0);
}

#[test]
fn handler_acknowledges_only_its_own_line() {
    // Another line pends at entry: the write-one-to-clear acknowledge must
    // write only line 0's bit, leaving the other line still pending.
    let mut regs = reset_state();
    regs.exti_pr1 = 0b101;
    exti0(&mut regs);
    assert_eq!(regs.exti_pr1, 0b100);
}

#[test]
fn handler_leaves_other_output_pins_alone() {
    let mut regs = reset_state();
    regs.gpioa_idr = 1;
    regs.gpioe_odr = 0x0100;
    regs.exti_pr1 = 1;
    exti0(&mut regs);
    assert_eq!(regs.gpioe_odr, 0x0100 | (1 << 15));

    let mut regs = reset_state();
    regs.gpioa_idr = 0;
    regs.gpioe_odr = 0x8100;
    regs.exti_pr1 = 1;
    exti0(&mut regs);
    assert_eq!(regs.gpioe_odr, 0x0100);
}

#[test]
fn led_follows_button_over_a_sequence_of_edges() {
    let mut regs = reset_state();
    for &level in &[true, false, false, true, true, false] {
        regs.gpioa_idr = if level { regs.gpioa_idr | 1 } else { regs.gpioa_idr & !1 };
        regs.exti_pr1 |= 1;
        exti0(&mut regs);
        assert_eq!(regs.gpioe_odr & (1 << 15) != 0, level);
        assert_eq!(regs.exti_pr1 & 1, 0);
    }
}

#[test]
fn set_and_reset_words_target_the_two_register_halves() {
    assert_eq!(led_on_word(15), 0x8000);
    assert_eq!(led_off_word(15), 0x8000_0000);
    assert_eq!(led_on_word(0), 1);
    assert_eq!(led_off_word(0), 0x1_0000);
    assert_eq!(led_word(true, 15), 0x8000);
    assert_eq!(led_word(false, 15), 0x8000_0000);
    assert_eq!(pr1_ack_word(), 1);
}

#[test]
fn set_led_on_and_off_drive_only_the_named_pin() {
    let mut regs = reset_state();
    regs.gpioe_odr = 0x00FF;
    set_led_on(&mut regs, OUTPUT_PIN);
    assert_eq!(regs.gpioe_odr, 0x80FF);
    set_led_off(&mut regs, OUTPUT_PIN);
    assert_eq!(regs.gpioe_odr, 0x00FF);
}

#[test]
fn input_level_reads_bit_zero_only() {
    assert!(!input_level(0));
    assert!(input_level(1));
    assert!(input_level(0b11));
    assert!(!input_level(0xFFFE));

    let mut regs = reset_state();
    regs.gpioa_idr = 0xFFFE;
    assert!(!read_input(&regs));
    regs.gpioa_idr = 0xFFFF;
    assert!(read_input(&regs));
}

#[test]
fn output_stage_sets_clock_and_mode_field() {
    let mut regs = reset_state();
    setup_gpioe_pin_as_output(&mut regs, 15);
    assert_eq!(regs.rcc_ahbenr, 1 << 21);
    assert_eq!(regs.gpioe_moder, 0b01 << 30);
}

#[test]
fn output_stage_preserves_other_mode_fields() {
    let mut regs = reset_state();
    regs.gpioe_moder = 0xFFFF_FFFF;
    regs.rcc_ahbenr = 0x5;
    setup_gpioe_pin_as_output(&mut regs, 15);
    assert_eq!(regs.gpioe_moder, 0x7FFF_FFFF);
    assert_eq!(regs.rcc_ahbenr, 0x5 | (1 << 21));
}

#[test]
fn input_stage_sets_only_the_port_a_clock() {
    let mut regs = reset_state();
    regs.rcc_ahbenr = 1 << 21;
    setup_gpioa_pin_as_input(&mut regs);
    assert_eq!(regs.rcc_ahbenr, (1 << 21) | (1 << 17));
    let untouched = reset_state();
    assert_eq!(regs.gpioe_moder, untouched.gpioe_moder);
    assert_eq!(regs.rcc_ahb2enr, untouched.rcc_ahb2enr);
}

#[test]
fn interrupt_stage_routes_unmasks_arms_and_enables() {
    let mut regs = reset_state();
    regs.syscfg_exticr1 = 0b101;
    setup_input_interrupt(&mut regs);
    assert_eq!(regs.rcc_ahb2enr, 1);
    assert_eq!(regs.syscfg_exticr1, 0);
    assert_eq!(regs.exti_imr1, 1);
    assert_eq!(regs.exti_rtsr1, 1);
    assert_eq!(regs.exti_ftsr1, 1);
    assert_eq!(regs.nvic_iser0, 1 << 6);
}

#[test]
fn rerunning_a_stage_changes_nothing_further() {
    let mut once = reset_state();
    once.gpioe_moder = 0xDEAD_BEEF;
    once.rcc_ahbenr = 0x1234;
    let mut twice = once;
    setup_gpioe_pin_as_output(&mut once, 15);
    setup_gpioe_pin_as_output(&mut twice, 15);
    setup_gpioe_pin_as_output(&mut twice, 15);
    assert_eq!(once, twice);

    let mut once = reset_state();
    once.exti_imr1 = 0xF0;
    let mut twice = once;
    setup_input_interrupt(&mut once);
    setup_input_interrupt(&mut twice);
    setup_input_interrupt(&mut twice);
    assert_eq!(once, twice);

    let mut once = reset_state();
    let mut twice = once;
    setup_gpioa_pin_as_input(&mut once);
    setup_gpioa_pin_as_input(&mut twice);
    setup_gpioa_pin_as_input(&mut twice);
    assert_eq!(once, twice);
}

#[test]
fn full_setup_reaches_the_configured_state() {
    let mut regs = reset_state();
    run_setup(&mut regs, OUTPUT_PIN);
    assert_eq!(regs.rcc_ahbenr, (1 << 21) | (1 << 17));
    assert_eq!(regs.rcc_ahb2enr, 1);
    assert_eq!(regs.gpioe_moder, 0b01 << 30);
    assert_eq!(regs.syscfg_exticr1, 0);
    assert_eq!(regs.exti_imr1, 1);
    assert_eq!(regs.exti_rtsr1, 1);
    assert_eq!(regs.exti_ftsr1, 1);
    assert_eq!(regs.nvic_iser0, 1 << 6);
    assert_eq!(regs.gpioe_odr, 0);
    assert_eq!(regs.exti_pr1, 0);
}

#[test]
fn heartbeat_steps_by_one() {
    assert_eq!(next_count(0), 1);
    assert_eq!(next_count(41), 42);
    assert_eq!(next_count(-3), -2);
}

#[test]
fn heartbeat_wraps_to_minimum_at_maximum() {
    assert_eq!(next_count(i32::MAX), i32::MIN);
    assert_eq!(next_count(i32::MAX - 1), i32::MAX);
}
