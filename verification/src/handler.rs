//! The external-interrupt handler: acknowledge the line, sample the button,
//! drive the LED to the sampled level.
//!
//! The handler is the sole writer of the output pin and runs to completion
//! between two main-loop instructions, so its whole effect is a function of
//! the register values it finds. The pure functions give the platform layer
//! the words it writes; the functions on [`RegisterFile`] run the same steps
//! on the model. The law at the end of the module states the read-then-write
//! invariant over every sequence of button edges.

use vstd::prelude::*;

use crate::regs::{
    spec_write_bsrr, spec_write_pr1, RegisterFile, OUTPUT_PIN,
};

verus! {

// --- the words the handler writes, as pure functions ---

/// The acknowledge word for the pending register: exactly line 0's bit. The
/// register is write-one-to-clear, so this word drops line 0's pending bit
/// and leaves every other line's pending bit intact; a word built from the
/// read-back value would clear every line that happened to pend.
pub fn pr1_ack_word() -> (v: u32)
    ensures
        v == 1u32,
{
    1u32
}

/// The set/reset word that drives `pin` high: its bit in the lower half.
pub fn led_on_word(pin: u32) -> (v: u32)
    requires
        pin < 16,
    ensures
        v == (1u32 << pin),
{
    1u32 << pin
}

/// The set/reset word that drives `pin` low: its bit in the upper half.
pub fn led_off_word(pin: u32) -> (v: u32)
    requires
        pin < 16,
    ensures
        v == (1u32 << ((16 + pin) as u32)),
{
    1u32 << (16 + pin)
}

/// The set/reset word that drives `pin` to `level`: the set half of the
/// register when the button reads asserted, the reset half when it reads
/// clear. This is the whole decision the handler takes on the sampled level,
/// so the platform layer has no branch of its own to get wrong.
pub fn led_word(level: bool, pin: u32) -> (v: u32)
    requires
        pin < 16,
    ensures
        v == (if level {
            1u32 << pin
        } else {
            1u32 << ((16 + pin) as u32)
        }),
{
    if level {
        led_on_word(pin)
    } else {
        led_off_word(pin)
    }
}

/// The logical level of the pushbutton as read from the input data register:
/// asserted exactly when bit 0 is one.
pub open spec fn spec_input_level(s: RegisterFile) -> bool {
    s.gpioa_idr & 1u32 != 0u32
}

/// The level the output pin is currently driven to: bit `OUTPUT_PIN` of the
/// output data register.
pub open spec fn spec_led_level(s: RegisterFile) -> bool {
    s.gpioe_odr & (1u32 << OUTPUT_PIN) != 0u32
}

/// The pushbutton level held in an input-data-register value.
pub fn input_level(idr: u32) -> (pressed: bool)
    ensures
        pressed == (idr & 1u32 != 0u32),
{
    idr & 1u32 > 0u32
}

// --- the handler's steps on the model ---

/// Sample the pushbutton from the input port.
pub fn read_input(regs: &RegisterFile) -> (pressed: bool)
    ensures
        pressed == spec_input_level(*regs),
{
    input_level(regs.gpioa_idr)
}

/// Drive `pin` of the output port high through the set half of the set/reset
/// register; every other pin keeps its level.
pub fn set_led_on(regs: &mut RegisterFile, pin: u32)
    requires
        pin < 16,
    ensures
        *final(regs) == spec_write_bsrr(*old(regs), 1u32 << pin),
        final(regs).gpioe_odr == (old(regs).gpioe_odr | (1u32 << pin)),
{
    let word = led_on_word(pin);
    regs.write_bsrr(word);
    proof {
        lemma_bsrr_set_low(old(regs).gpioe_odr, pin);
    }
}

/// Drive `pin` of the output port low through the reset half of the set/reset
/// register; every other pin keeps its level.
pub fn set_led_off(regs: &mut RegisterFile, pin: u32)
    requires
        pin < 16,
    ensures
        *final(regs) == spec_write_bsrr(*old(regs), 1u32 << ((16 + pin) as u32)),
        final(regs).gpioe_odr == (old(regs).gpioe_odr & !(1u32 << pin)),
{
    let word = led_off_word(pin);
    regs.write_bsrr(word);
    proof {
        lemma_bsrr_clear_high(old(regs).gpioe_odr, pin);
    }
}

/// A lower-half set/reset bit sets exactly its pin.
proof fn lemma_bsrr_set_low(odr: u32, pin: u32)
    requires
        pin < 16,
    ensures
        crate::regs::spec_odr_after_bsrr(odr, 1u32 << pin) == (odr | (1u32 << pin)),
{
    assert((odr & !((1u32 << pin) >> 16u32)) | ((1u32 << pin) & 0xFFFFu32) == (odr | (1u32
        << pin))) by (bit_vector)
        requires
            pin < 16,
    ;
}

/// An upper-half set/reset bit clears exactly the pin sixteen places below it.
proof fn lemma_bsrr_clear_high(odr: u32, pin: u32)
    requires
        pin < 16,
    ensures
        crate::regs::spec_odr_after_bsrr(odr, 1u32 << ((16 + pin) as u32)) == (odr & !(1u32
            << pin)),
{
    assert((odr & !((1u32 << ((16 + pin) as u32)) >> 16u32)) | ((1u32 << ((16 + pin) as u32))
        & 0xFFFFu32) == (odr & !(1u32 << pin))) by (bit_vector)
        requires
            pin < 16,
    ;
}

/// The register file after one run of the handler: the acknowledge write of
/// line 0's bit alone, then the set/reset write chosen by the sampled button
/// level.
pub open spec fn spec_exti0(s: RegisterFile) -> RegisterFile {
    let acked = spec_write_pr1(s, 1u32);
    if spec_input_level(acked) {
        spec_write_bsrr(acked, 1u32 << OUTPUT_PIN)
    } else {
        spec_write_bsrr(acked, 1u32 << ((16 + OUTPUT_PIN) as u32))
    }
}

/// One run of the interrupt handler on the model: clear line 0's pending bit
/// first — and only that bit — then read the button and drive the LED to its
/// level.
pub fn exti0(regs: &mut RegisterFile)
    ensures
        *final(regs) == spec_exti0(*old(regs)),
        spec_led_level(*final(regs)) == spec_input_level(*old(regs)),
        final(regs).exti_pr1 == old(regs).exti_pr1 & !1u32,
        final(regs).exti_pr1 & 1u32 == 0u32,
        final(regs).gpioa_idr == old(regs).gpioa_idr,
{
    let ack = pr1_ack_word();
    regs.write_pr1(ack);

    let switch_pressed = read_input(regs);

    if switch_pressed {
        set_led_on(regs, OUTPUT_PIN);
    } else {
        set_led_off(regs, OUTPUT_PIN);
    }
    proof {
        lemma_handler_bit_facts();
    }
}

/// Acknowledging line 0's bit clears exactly that pending bit, and the LED
/// bit lands where the set/reset write put it.
proof fn lemma_handler_bit_facts()
    by (bit_vector)
    ensures
        forall|p: u32| #[trigger] ((p & !1u32) & 1u32) == 0u32,
        forall|o: u32| #[trigger] ((o | (1u32 << OUTPUT_PIN)) & (1u32 << OUTPUT_PIN)) != 0u32,
        forall|o: u32| #[trigger] ((o & !(1u32 << OUTPUT_PIN)) & (1u32 << OUTPUT_PIN)) == 0u32,
{
}

/// One run of the handler leaves the LED at the button level it sampled, and
/// leaves its own line's pending bit clear while every other line's pending
/// bit keeps its value; the input register is not written.
pub proof fn lemma_exti0_follows_level(s: RegisterFile)
    ensures
        spec_led_level(spec_exti0(s)) == spec_input_level(s),
        spec_exti0(s).exti_pr1 == s.exti_pr1 & !1u32,
        spec_exti0(s).exti_pr1 & 1u32 == 0u32,
        spec_exti0(s).gpioa_idr == s.gpioa_idr,
{
    lemma_handler_bit_facts();
    let acked = spec_write_pr1(s, 1u32);
    if spec_input_level(acked) {
        lemma_bsrr_set_low(acked.gpioe_odr, OUTPUT_PIN);
    } else {
        lemma_bsrr_clear_high(acked.gpioe_odr, OUTPUT_PIN);
    }
}

// --- the read-then-write invariant over every sequence of edges ---

/// A button edge as the hardware presents it to the handler: the input data
/// register samples the new level on bit 0 and line 0's pending bit sets.
pub open spec fn spec_edge(s: RegisterFile, level: bool) -> RegisterFile {
    RegisterFile {
        gpioa_idr: if level {
            s.gpioa_idr | 1u32
        } else {
            s.gpioa_idr & !1u32
        },
        exti_pr1: s.exti_pr1 | 1u32,
        ..s
    }
}

/// The register file after a sequence of button edges, the handler servicing
/// each edge in turn.
pub open spec fn spec_run_edges(s: RegisterFile, levels: Seq<bool>) -> RegisterFile
    decreases levels.len(),
{
    if levels.len() == 0 {
        s
    } else {
        spec_run_edges(spec_exti0(spec_edge(s, levels[0])), levels.subrange(1, levels.len() as int))
    }
}

/// An edge presents exactly its level to the handler's read of the input pin.
proof fn lemma_edge_samples_level(s: RegisterFile, level: bool)
    ensures
        spec_input_level(spec_edge(s, level)) == level,
{
    let i = s.gpioa_idr;
    assert((i | 1u32) & 1u32 != 0u32) by (bit_vector);
    assert((i & !1u32) & 1u32 == 0u32) by (bit_vector);
}

/// Read-then-write invariant: after any non-empty sequence of button edges,
/// each serviced by the handler, the LED is driven to the level sampled at
/// the last edge, and the handler has left the line's pending bit clear.
pub proof fn lemma_led_follows_button(s: RegisterFile, levels: Seq<bool>)
    requires
        levels.len() > 0,
    ensures
        spec_led_level(spec_run_edges(s, levels)) == levels.last(),
        spec_run_edges(s, levels).exti_pr1 & 1u32 == 0u32,
    decreases levels.len(),
{
    let first = spec_exti0(spec_edge(s, levels[0]));
    let rest = levels.subrange(1, levels.len() as int);
    assert(spec_run_edges(s, levels) == spec_run_edges(first, rest));
    if levels.len() == 1 {
        assert(rest.len() == 0);
        assert(spec_run_edges(first, rest) == first);
        lemma_edge_samples_level(s, levels[0]);
        lemma_exti0_follows_level(spec_edge(s, levels[0]));
    } else {
        lemma_led_follows_button(first, rest);
        assert(rest.last() == levels.last());
    }
}

} // verus!
