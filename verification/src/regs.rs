//! The memory-mapped registers this control path touches, modelled as plain
//! 32-bit values, together with the addresses the platform layer needs and
//! the write semantics of the two registers that do not behave as plain
//! read-modify-write storage (the set/reset register and the pending
//! register).

use vstd::prelude::*;

verus! {

// Reset & Clock Control
pub const RCC_ADDR: u32 = 0x4002_1000;
pub const RCC_AHBENR_OFFSET: u32 = 0x14; // Advanced High Performance Bus Enable Register
pub const RCC_AHBENR: u32 = RCC_ADDR + RCC_AHBENR_OFFSET;
pub const RCC_AHB2ENR_OFFSET: u32 = 0x18;
pub const RCC_AHB2ENR: u32 = RCC_ADDR + RCC_AHB2ENR_OFFSET;

// General Purpose IO Port A
pub const GPIOA_ADDR: u32 = 0x4800_0000;
pub const GPIOA_IDR_OFFSET: u32 = 0x10; // Input Data Register
pub const GPIOA_IDR_ADDR: u32 = GPIOA_ADDR + GPIOA_IDR_OFFSET;

// General Purpose IO Port E
pub const GPIOE_ADDR: u32 = 0x4800_1000;
pub const GPIO_MODER_OFFSET: u32 = 0x00; // Mode Register
pub const GPIO_BSRR_OFFSET: u32 = 0x18; // Bit Set/Reset Register
pub const GPIOE_MODER_ADDR: u32 = GPIOE_ADDR + GPIO_MODER_OFFSET;
pub const GPIOE_BSRR_ADDR: u32 = GPIOE_ADDR + GPIO_BSRR_OFFSET;

// Interrupt routing
pub const SYSCFG_ADDR: u32 = 0x4001_0000;
pub const SYSCFG_EXTICR1_OFFSET: u32 = 0x8;
pub const SYSCFG_EXTICR1_ADDR: u32 = SYSCFG_ADDR + SYSCFG_EXTICR1_OFFSET;

pub const EXTI_ADDR: u32 = 0x4001_0400;
pub const EXTI_IMR1_OFFSET: u32 = 0x00; // Interrupt mask
pub const EXTI_RTSR1_OFFSET: u32 = 0x08; // Rising trigger select register
pub const EXTI_FTSR1_OFFSET: u32 = 0x0C; // Falling trigger select register
pub const EXTI_PR1_OFFSET: u32 = 0x14; // Pending

// Nested Vector Interrupt Controller
pub const NVIC_ADDR: u32 = 0xe000_e100;
pub const NVIC_ISER0_OFFSET: u32 = 0x0; // Interrupt Set Enable

/// The LED sits on bit 15 of the output port.
pub const OUTPUT_PIN: u32 = 15;

/// Clock-enable bit index for the output port (port E) in the AHB enable register.
pub const GPIOE_CLOCK_BIT: u32 = 21;
/// Clock-enable bit index for the input port (port A) in the AHB enable register.
pub const GPIOA_CLOCK_BIT: u32 = 17;
/// Clock-enable bit index for the system-configuration peripheral in the AHB2 enable register.
pub const SYSCFG_CLOCK_BIT: u32 = 0;
/// The interrupt controller's vector bit for external interrupt line 0.
pub const EXTI0_VECTOR_BIT: u32 = 6;

/// The values held by every register the control path reads or writes.
///
/// This is the mathematical model of the shared hardware state: each field is
/// the current content of one fixed-address 32-bit register. No two fields
/// alias, matching the hardware, where no two registers share an address.
#[derive(Clone, Copy, Debug, PartialEq, Eq, Structural)]
pub struct RegisterFile {
    /// Bus clock enables for the GPIO ports.
    pub rcc_ahbenr: u32,
    /// Bus clock enable for the interrupt-routing peripheral.
    pub rcc_ahb2enr: u32,
    /// Input data register of the input port; bit 0 is the pushbutton.
    pub gpioa_idr: u32,
    /// Mode-select register of the output port; two bits per pin.
    pub gpioe_moder: u32,
    /// Output data register of the output port; the driven pin levels.
    pub gpioe_odr: u32,
    /// Port-select field routing a pin to external interrupt line 0.
    pub syscfg_exticr1: u32,
    /// Interrupt line mask bits.
    pub exti_imr1: u32,
    /// Rising-edge trigger enables.
    pub exti_rtsr1: u32,
    /// Falling-edge trigger enables.
    pub exti_ftsr1: u32,
    /// Pending bits, write-one-to-clear.
    pub exti_pr1: u32,
    /// Interrupt controller set-enable bits.
    pub nvic_iser0: u32,
}

/// Output data after a write to the set/reset register: a one in the lower
/// half drives the matching pin high, a one in the upper half drives the pin
/// sixteen places below it low, and a set wins over a simultaneous reset of
/// the same pin.
pub open spec fn spec_odr_after_bsrr(odr: u32, word: u32) -> u32 {
    (odr & !(word >> 16u32)) | (word & 0xFFFFu32)
}

/// Pending bits after a write to the pending register: writing a one clears
/// that bit, writing a zero leaves it alone.
pub open spec fn spec_pr1_after_write(pr: u32, word: u32) -> u32 {
    pr & !word
}

/// The whole register file after a write to the output port's set/reset register.
pub open spec fn spec_write_bsrr(s: RegisterFile, word: u32) -> RegisterFile {
    RegisterFile { gpioe_odr: spec_odr_after_bsrr(s.gpioe_odr, word), ..s }
}

/// The whole register file after a write to the pending register.
pub open spec fn spec_write_pr1(s: RegisterFile, word: u32) -> RegisterFile {
    RegisterFile { exti_pr1: spec_pr1_after_write(s.exti_pr1, word), ..s }
}

impl RegisterFile {
    /// Write a word to the output port's set/reset register.
    pub fn write_bsrr(&mut self, word: u32)
        ensures
            *final(self) == spec_write_bsrr(*old(self), word),
    {
        self.gpioe_odr = (self.gpioe_odr & !(word >> 16u32)) | (word & 0xFFFFu32);
    }

    /// Write a word to the pending register, clearing every pending bit the
    /// word holds a one for.
    pub fn write_pr1(&mut self, word: u32)
        ensures
            *final(self) == spec_write_pr1(*old(self), word),
    {
        self.exti_pr1 = self.exti_pr1 & !word;
    }
}

} // verus!
