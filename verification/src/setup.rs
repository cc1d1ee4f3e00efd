//! One-time boot configuration: clock enables, pin mode, and interrupt
//! routing, as modify-one-register-at-a-time steps over the register model.
//!
//! Each pure `..._with_...` function is the value one read-modify-write
//! leaves in its register; the platform layer hands it the value it read and
//! writes back what it returns. The functions on [`RegisterFile`] run the
//! same steps on the model, so every stage's whole effect is stated and
//! proved, and the ordering and idempotence laws at the end of the module
//! speak about those effects.

use vstd::prelude::*;

use crate::regs::{
    RegisterFile, EXTI0_VECTOR_BIT, GPIOA_CLOCK_BIT, GPIOE_CLOCK_BIT, SYSCFG_CLOCK_BIT,
};

verus! {

// --- the value each read-modify-write step leaves in its register ---

/// New AHB clock-enable value with the output port's clock gated on.
pub fn ahbenr_with_gpioe_clock(r: u32) -> (v: u32)
    ensures
        v == (r | (1u32 << GPIOE_CLOCK_BIT)),
{
    r | (1u32 << GPIOE_CLOCK_BIT)
}

/// New AHB clock-enable value with the input port's clock gated on.
pub fn ahbenr_with_gpioa_clock(r: u32) -> (v: u32)
    ensures
        v == (r | (1u32 << GPIOA_CLOCK_BIT)),
{
    r | (1u32 << GPIOA_CLOCK_BIT)
}

/// New AHB2 clock-enable value with the system-configuration peripheral's
/// clock gated on.
pub fn ahb2enr_with_syscfg_clock(r: u32) -> (v: u32)
    ensures
        v == (r | (1u32 << SYSCFG_CLOCK_BIT)),
{
    r | (1u32 << SYSCFG_CLOCK_BIT)
}

/// The mode-select value after a pin's 2-bit field is cleared and then set to
/// the general-purpose-output encoding, leaving every other pin's field alone.
pub open spec fn spec_moder_with_output_mode(r: u32, pin: u32) -> u32 {
    (r & !(0b11u32 << ((2 * pin) as u32))) | (0b01u32 << ((2 * pin) as u32))
}

/// New mode-select value with `pin` configured as a general-purpose output.
pub fn moder_with_output_mode(r: u32, pin: u32) -> (v: u32)
    requires
        pin < 16,
    ensures
        v == spec_moder_with_output_mode(r, pin),
{
    let pin_shift: u32 = pin * 2;
    let mask: u32 = 0b11u32 << pin_shift;
    let set_mode: u32 = 0b01u32 << pin_shift;
    (r & !mask) | set_mode
}

/// New routing-select value with the 3-bit port-select field for line 0
/// cleared, which routes port A's pin 0 to the line.
pub fn exticr1_with_port_a(r: u32) -> (v: u32)
    ensures
        v == (r & !0b111u32),
{
    r & !0b111u32
}

/// New mask-register value with interrupt line 0 unmasked.
pub fn imr1_with_line0_unmasked(r: u32) -> (v: u32)
    ensures
        v == (r | 1u32),
{
    r | 1u32
}

/// New rising-trigger value with line 0 armed on rising edges.
pub fn rtsr1_with_line0_rising(r: u32) -> (v: u32)
    ensures
        v == (r | 1u32),
{
    r | 1u32
}

/// New falling-trigger value with line 0 armed on falling edges.
pub fn ftsr1_with_line0_falling(r: u32) -> (v: u32)
    ensures
        v == (r | 1u32),
{
    r | 1u32
}

/// New interrupt-controller set-enable value with line 0's vector enabled.
pub fn iser0_with_exti0_vector(r: u32) -> (v: u32)
    ensures
        v == (r | (1u32 << EXTI0_VECTOR_BIT)),
{
    r | (1u32 << EXTI0_VECTOR_BIT)
}

// --- each stage's effect on the whole register file ---

/// The register file after the output-pin stage: port E clock on, the output
/// pin's mode field set to general-purpose output.
pub open spec fn spec_setup_output(s: RegisterFile, pin: u32) -> RegisterFile {
    RegisterFile {
        rcc_ahbenr: s.rcc_ahbenr | (1u32 << GPIOE_CLOCK_BIT),
        gpioe_moder: spec_moder_with_output_mode(s.gpioe_moder, pin),
        ..s
    }
}

/// The register file after the input-pin stage: port A clock on. The pin
/// itself is left in its reset-default input mode, so no mode write occurs.
pub open spec fn spec_setup_input(s: RegisterFile) -> RegisterFile {
    RegisterFile { rcc_ahbenr: s.rcc_ahbenr | (1u32 << GPIOA_CLOCK_BIT), ..s }
}

/// The register file after the routing steps of the interrupt stage, before
/// the interrupt controller's own enable: system-configuration clock on, line
/// 0 routed to port A, unmasked, and armed on both edges.
pub open spec fn spec_route_interrupt(s: RegisterFile) -> RegisterFile {
    RegisterFile {
        rcc_ahb2enr: s.rcc_ahb2enr | (1u32 << SYSCFG_CLOCK_BIT),
        syscfg_exticr1: s.syscfg_exticr1 & !0b111u32,
        exti_imr1: s.exti_imr1 | 1u32,
        exti_rtsr1: s.exti_rtsr1 | 1u32,
        exti_ftsr1: s.exti_ftsr1 | 1u32,
        ..s
    }
}

/// The register file after the interrupt controller's set-enable write, the
/// strictly last setup step: only the controller's enable register changes.
pub open spec fn spec_enable_vector(s: RegisterFile) -> RegisterFile {
    RegisterFile { nvic_iser0: s.nvic_iser0 | (1u32 << EXTI0_VECTOR_BIT), ..s }
}

/// The register file after the whole interrupt stage.
pub open spec fn spec_setup_interrupt(s: RegisterFile) -> RegisterFile {
    spec_enable_vector(spec_route_interrupt(s))
}

/// The register file after all three setup stages, run in boot order.
pub open spec fn spec_setup_all(s: RegisterFile, pin: u32) -> RegisterFile {
    spec_setup_interrupt(spec_setup_input(spec_setup_output(s, pin)))
}

// --- the stages on the model ---

/// Configure `pin` of the output port as a general-purpose output: enable the
/// port's bus clock, then clear and set the pin's 2-bit mode field.
pub fn setup_gpioe_pin_as_output(regs: &mut RegisterFile, pin: u32)
    requires
        pin < 16,
    ensures
        *final(regs) == spec_setup_output(*old(regs), pin),
{
    regs.rcc_ahbenr = ahbenr_with_gpioe_clock(regs.rcc_ahbenr);
    regs.gpioe_moder = moder_with_output_mode(regs.gpioe_moder, pin);
}

/// Bring up the input port: enable its bus clock. The pushbutton pin is an
/// input by reset default, so no mode register write is needed; that default
/// is a documented assumption, not an inference.
pub fn setup_gpioa_pin_as_input(regs: &mut RegisterFile)
    ensures
        *final(regs) == spec_setup_input(*old(regs)),
{
    regs.rcc_ahbenr = ahbenr_with_gpioa_clock(regs.rcc_ahbenr);
}

/// Arm the external interrupt for the pushbutton: enable the routing
/// peripheral's clock, route line 0 to port A, unmask the line, arm both
/// edges, and, strictly last, enable the vector in the interrupt controller.
pub fn setup_input_interrupt(regs: &mut RegisterFile)
    ensures
        *final(regs) == spec_setup_interrupt(*old(regs)),
        final(regs).exti_imr1 & 1u32 == 1u32,
        final(regs).exti_rtsr1 & 1u32 == 1u32,
        final(regs).exti_ftsr1 & 1u32 == 1u32,
        final(regs).syscfg_exticr1 & 0b111u32 == 0u32,
        final(regs).nvic_iser0 & (1u32 << EXTI0_VECTOR_BIT) == (1u32 << EXTI0_VECTOR_BIT),
{
    regs.rcc_ahb2enr = ahb2enr_with_syscfg_clock(regs.rcc_ahb2enr);
    regs.syscfg_exticr1 = exticr1_with_port_a(regs.syscfg_exticr1);
    regs.exti_imr1 = imr1_with_line0_unmasked(regs.exti_imr1);
    regs.exti_rtsr1 = rtsr1_with_line0_rising(regs.exti_rtsr1);
    regs.exti_ftsr1 = ftsr1_with_line0_falling(regs.exti_ftsr1);
    regs.nvic_iser0 = iser0_with_exti0_vector(regs.nvic_iser0);
    proof {
        lemma_routing_bit_facts();
    }
}

/// Setting a bit leaves it set, and clearing a field leaves it clear: the
/// bit-level readings of the routing stage's register updates.
proof fn lemma_routing_bit_facts()
    by (bit_vector)
    ensures
        forall|r: u32| #[trigger] ((r | 1u32) & 1u32) == 1u32,
        forall|r: u32| #[trigger] ((r & !0b111u32) & 0b111u32) == 0u32,
        forall|r: u32|
            #[trigger] ((r | (1u32 << EXTI0_VECTOR_BIT)) & (1u32 << EXTI0_VECTOR_BIT)) == (1u32
                << EXTI0_VECTOR_BIT),
{
}

// --- ordering law: the vector enable is strictly last ---

/// At the write that sets the interrupt controller's vector-enable bit, every
/// configuration register — clock enables, pin mode, routing select, mask and
/// both edge-trigger registers — already holds its final configured value:
/// the enable step changes the controller's set-enable register alone. No
/// interrupt can therefore be delivered to the handler before the rest of the
/// configuration is complete.
pub proof fn lemma_vector_enabled_last(s: RegisterFile, pin: u32)
    requires
        pin < 16,
    ensures
        ({
            let configured = spec_route_interrupt(spec_setup_input(spec_setup_output(s, pin)));
            let done = spec_setup_all(s, pin);
            &&& done == spec_enable_vector(configured)
            &&& done.rcc_ahbenr == configured.rcc_ahbenr
            &&& done.rcc_ahb2enr == configured.rcc_ahb2enr
            &&& done.gpioe_moder == configured.gpioe_moder
            &&& done.syscfg_exticr1 == configured.syscfg_exticr1
            &&& done.exti_imr1 == configured.exti_imr1
            &&& done.exti_rtsr1 == configured.exti_rtsr1
            &&& done.exti_ftsr1 == configured.exti_ftsr1
            &&& done.nvic_iser0 == (configured.nvic_iser0 | (1u32 << EXTI0_VECTOR_BIT))
        }),
{
}

// --- idempotence laws: re-running one stage alone changes nothing more ---

/// Setting a bit again, or clearing a field again, leaves a register as the
/// first run left it; a set or cleared field reads back as written; bits
/// outside the written field keep their prior content.
proof fn lemma_modify_bit_facts()
    by (bit_vector)
    ensures
        forall|r: u32, b: u32| #[trigger] ((r | b) | b) == (r | b),
        forall|r: u32, b: u32| #[trigger] ((r | b) & b) == b,
        forall|r: u32, b: u32| #[trigger] ((r | b) & !b) == (r & !b),
        forall|r: u32, b: u32| #[trigger] ((r & !b) & !b) == (r & !b),
        forall|r: u32, b: u32| #[trigger] ((r & !b) & b) == 0u32,
{
}

/// Re-running the output-pin stage alone leaves its registers exactly as one
/// run left them; its own bits — the port clock enable and the pin's 2-bit
/// mode field — land at the same final pattern from any prior content, and
/// every bit outside its own fields, and every other register, is preserved.
pub proof fn lemma_setup_output_stage(s: RegisterFile, pin: u32)
    requires
        pin < 16,
    ensures
        ({
            let a = spec_setup_output(s, pin);
            &&& spec_setup_output(a, pin) == a
            &&& a.rcc_ahbenr & (1u32 << GPIOE_CLOCK_BIT) == (1u32 << GPIOE_CLOCK_BIT)
            &&& (a.gpioe_moder >> ((2 * pin) as u32)) & 0b11u32 == 0b01u32
            &&& a.rcc_ahbenr & !(1u32 << GPIOE_CLOCK_BIT) == s.rcc_ahbenr & !(1u32
                << GPIOE_CLOCK_BIT)
            &&& a.gpioe_moder & !(0b11u32 << ((2 * pin) as u32)) == s.gpioe_moder & !(0b11u32 << ((2
                * pin) as u32))
            &&& a.rcc_ahb2enr == s.rcc_ahb2enr
            &&& a.gpioa_idr == s.gpioa_idr
            &&& a.gpioe_odr == s.gpioe_odr
            &&& a.syscfg_exticr1 == s.syscfg_exticr1
            &&& a.exti_imr1 == s.exti_imr1
            &&& a.exti_rtsr1 == s.exti_rtsr1
            &&& a.exti_ftsr1 == s.exti_ftsr1
            &&& a.exti_pr1 == s.exti_pr1
            &&& a.nvic_iser0 == s.nvic_iser0
        }),
{
    lemma_modify_bit_facts();
    let m = s.gpioe_moder;
    assert(((((m & !(0b11u32 << ((2 * pin) as u32))) | (0b01u32 << ((2 * pin) as u32))) & !(0b11u32
        << ((2 * pin) as u32))) | (0b01u32 << ((2 * pin) as u32))) == ((m & !(0b11u32 << ((2 * pin)
        as u32))) | (0b01u32 << ((2 * pin) as u32)))) by (bit_vector)
        requires
            pin < 16,
    ;
    assert(((((m & !(0b11u32 << ((2 * pin) as u32))) | (0b01u32 << ((2 * pin) as u32))) >> ((2
        * pin) as u32)) & 0b11u32) == 0b01u32) by (bit_vector)
        requires
            pin < 16,
    ;
    assert((((m & !(0b11u32 << ((2 * pin) as u32))) | (0b01u32 << ((2 * pin) as u32))) & !(0b11u32
        << ((2 * pin) as u32))) == (m & !(0b11u32 << ((2 * pin) as u32)))) by (bit_vector)
        requires
            pin < 16,
    ;
}

/// Re-running the input-pin stage alone leaves its register exactly as one
/// run left it; the port clock enable lands set from any prior content, bits
/// outside it, and every other register, are preserved.
pub proof fn lemma_setup_input_stage(s: RegisterFile)
    ensures
        ({
            let a = spec_setup_input(s);
            &&& spec_setup_input(a) == a
            &&& a.rcc_ahbenr & (1u32 << GPIOA_CLOCK_BIT) == (1u32 << GPIOA_CLOCK_BIT)
            &&& a.rcc_ahbenr & !(1u32 << GPIOA_CLOCK_BIT) == s.rcc_ahbenr & !(1u32
                << GPIOA_CLOCK_BIT)
            &&& a == (RegisterFile { rcc_ahbenr: a.rcc_ahbenr, ..s })
        }),
{
    lemma_modify_bit_facts();
}

/// Re-running the interrupt stage alone leaves its registers exactly as one
/// run left them; its own bits — the routing clock enable, the port-select
/// field, the mask, both edge triggers and the vector enable — land at the
/// same final pattern from any prior content, and every bit outside them, and
/// every other register, is preserved.
pub proof fn lemma_setup_interrupt_stage(s: RegisterFile)
    ensures
        ({
            let a = spec_setup_interrupt(s);
            &&& spec_setup_interrupt(a) == a
            &&& a.rcc_ahb2enr & (1u32 << SYSCFG_CLOCK_BIT) == (1u32 << SYSCFG_CLOCK_BIT)
            &&& a.syscfg_exticr1 & 0b111u32 == 0u32
            &&& a.exti_imr1 & 1u32 == 1u32
            &&& a.exti_rtsr1 & 1u32 == 1u32
            &&& a.exti_ftsr1 & 1u32 == 1u32
            &&& a.nvic_iser0 & (1u32 << EXTI0_VECTOR_BIT) == (1u32 << EXTI0_VECTOR_BIT)
            &&& a.rcc_ahb2enr & !(1u32 << SYSCFG_CLOCK_BIT) == s.rcc_ahb2enr & !(1u32
                << SYSCFG_CLOCK_BIT)
            &&& a.syscfg_exticr1 & !0b111u32 == s.syscfg_exticr1 & !0b111u32
            &&& a.exti_imr1 & !1u32 == s.exti_imr1 & !1u32
            &&& a.exti_rtsr1 & !1u32 == s.exti_rtsr1 & !1u32
            &&& a.exti_ftsr1 & !1u32 == s.exti_ftsr1 & !1u32
            &&& a.nvic_iser0 & !(1u32 << EXTI0_VECTOR_BIT) == s.nvic_iser0 & !(1u32
                << EXTI0_VECTOR_BIT)
            &&& a.rcc_ahbenr == s.rcc_ahbenr
            &&& a.gpioa_idr == s.gpioa_idr
            &&& a.gpioe_moder == s.gpioe_moder
            &&& a.gpioe_odr == s.gpioe_odr
            &&& a.exti_pr1 == s.exti_pr1
        }),
{
    lemma_modify_bit_facts();
}

/// Run the three setup stages once, in boot order.
pub fn run_setup(regs: &mut RegisterFile, pin: u32)
    requires
        pin < 16,
    ensures
        *final(regs) == spec_setup_all(*old(regs), pin),
{
    setup_gpioe_pin_as_output(regs, pin);
    setup_gpioa_pin_as_input(regs);
    setup_input_interrupt(regs);
}

} // verus!
