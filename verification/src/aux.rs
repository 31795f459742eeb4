//! The auxiliary peripheral block and its ownership guard.
//!
//! The guard holds the one authoritative handle to each peripheral — the mini
//! UART and the GPIO multiplexer — together with the block's shared
//! enable/interrupt-status register pair, which the guard alone operates.
//! A handle is given out at most once at a time: a second take without an
//! intervening return fails immediately rather than waiting, since there is
//! no scheduler to hand control to. Returning a handle makes the peripheral
//! available again; because a returned handle is moved, it cannot be used or
//! returned twice.

use vstd::prelude::*;

use crate::bits::{register_volatile_and, register_volatile_or};
use crate::gpio::{gpio_reset, GPIO};
use crate::uart::{uart_reset, MiniUart, UartModel};

verus! {

/// The auxiliary block's own register cells: the interrupt-status cell and
/// the enable cell (bit 0 mini UART, bit 1 first SPI, bit 2 second SPI).
pub struct AUXRegisters {
    pub irq: u32,
    pub enable: u32,
}

impl AUXRegisters {
    /// The register pair in reset state: no interrupt raised, every
    /// peripheral's clock gated off.
    pub fn new() -> (r: AUXRegisters)
        ensures
            r.irq == 0,
            r.enable == 0,
    {
        AUXRegisters { irq: 0, enable: 0 }
    }
}

/// The abstract state of the guard: the two shared cells, and for each
/// peripheral either its state (available) or nothing (handle outstanding).
#[verifier::ext_equal]
pub struct AuxModel {
    pub irq: u32,
    pub enable: u32,
    pub mini_uart: Option<UartModel>,
    pub gpio: Option<GPIO>,
}

/// The ownership guard over the auxiliary peripherals.
pub struct AUXPeripherals {
    registers: AUXRegisters,
    mini_uart: Option<MiniUart>,
    gpio: Option<GPIO>,
}

impl View for AUXPeripherals {
    type V = AuxModel;

    closed spec fn view(&self) -> AuxModel {
        AuxModel {
            irq: self.registers.irq,
            enable: self.registers.enable,
            mini_uart: match self.mini_uart {
                Some(u) => Some(u@),
                None => None,
            },
            gpio: self.gpio,
        }
    }
}

impl AUXPeripherals {
    /// The guard over a freshly reset block: both registers zero, both
    /// peripherals in reset state and available.
    pub fn new() -> (p: AUXPeripherals)
        ensures
            p@.irq == 0,
            p@.enable == 0,
            p@.mini_uart == Some(uart_reset()),
            p@.gpio matches Some(g) && g.regs() == gpio_reset(),
    {
        AUXPeripherals {
            registers: AUXRegisters::new(),
            mini_uart: Some(MiniUart::new()),
            gpio: Some(GPIO::new()),
        }
    }

    /// Take the mini UART handle. Succeeds exactly when no handle is
    /// outstanding; a second take without an intervening return fails.
    pub fn take_mini_uart(&mut self) -> (r: Option<MiniUart>)
        ensures
            final(self)@ == (AuxModel { mini_uart: None, ..old(self)@ }),
            r is Some <==> old(self)@.mini_uart is Some,
            r matches Some(u) ==> Some(u@) == old(self)@.mini_uart,
    {
        self.mini_uart.take()
    }

    /// Return the mini UART handle, making the peripheral available again.
    /// The handle is moved in, so it cannot be used or returned twice.
    pub fn return_mini_uart(&mut self, uart: MiniUart)
        requires
            old(self)@.mini_uart is None,
        ensures
            final(self)@ == (AuxModel { mini_uart: Some(uart@), ..old(self)@ }),
    {
        self.mini_uart = Some(uart);
    }

    /// Take the GPIO handle. Succeeds exactly when no handle is outstanding.
    pub fn take_gpio(&mut self) -> (r: Option<GPIO>)
        ensures
            final(self)@ == (AuxModel { gpio: None, ..old(self)@ }),
            r is Some <==> old(self)@.gpio is Some,
            r matches Some(g) ==> Some(g) == old(self)@.gpio,
    {
        self.gpio.take()
    }

    /// Return the GPIO handle, making the peripheral available again.
    pub fn return_gpio(&mut self, gpio: GPIO)
        requires
            old(self)@.gpio is None,
        ensures
            final(self)@ == (AuxModel { gpio: Some(gpio), ..old(self)@ }),
    {
        self.gpio = Some(gpio);
    }

    /// Gate the mini UART's clock on (bit 0 of the enable cell).
    pub fn enable_mini_uart(&mut self)
        ensures
            final(self)@ == (AuxModel { enable: old(self)@.enable | 1, ..old(self)@ }),
    {
        register_volatile_or(&mut self.registers.enable, 1);
    }

    /// Gate the first SPI's clock on (bit 1 of the enable cell).
    pub fn enable_spi(&mut self)
        ensures
            final(self)@ == (AuxModel { enable: old(self)@.enable | 2, ..old(self)@ }),
    {
        register_volatile_or(&mut self.registers.enable, 2);
    }

    /// Gate the second SPI's clock on (bit 2 of the enable cell).
    pub fn enable_spi2(&mut self)
        ensures
            final(self)@ == (AuxModel { enable: old(self)@.enable | 4, ..old(self)@ }),
    {
        register_volatile_or(&mut self.registers.enable, 4);
    }

    /// Gate the mini UART's clock off.
    pub fn disable_mini_uart(&mut self)
        ensures
            final(self)@ == (AuxModel { enable: old(self)@.enable & !1u32, ..old(self)@ }),
    {
        register_volatile_and(&mut self.registers.enable, !1u32);
    }

    /// Gate the first SPI's clock off.
    pub fn disable_spi(&mut self)
        ensures
            final(self)@ == (AuxModel { enable: old(self)@.enable & !2u32, ..old(self)@ }),
    {
        register_volatile_and(&mut self.registers.enable, !2u32);
    }

    /// Gate the second SPI's clock off.
    pub fn disable_spi2(&mut self)
        ensures
            final(self)@ == (AuxModel { enable: old(self)@.enable & !4u32, ..old(self)@ }),
    {
        register_volatile_and(&mut self.registers.enable, !4u32);
    }

    /// The enable cell as last written.
    pub fn enable_register(&self) -> (r: u32)
        ensures
            r == self@.enable,
    {
        self.registers.enable
    }

    /// Whether the mini UART's interrupt line is raised (bit 0 of the
    /// interrupt-status cell).
    pub fn irq_pending_mini_uart(&self) -> (r: bool)
        ensures
            r == (self@.irq & 1 == 1),
    {
        self.registers.irq & 1 == 1
    }

    /// Whether the first SPI's interrupt line is raised (bit 1).
    pub fn irq_pending_spi(&self) -> (r: bool)
        ensures
            r == (self@.irq & 2 == 2),
    {
        self.registers.irq & 2 == 2
    }

    /// Whether the second SPI's interrupt line is raised (bit 2).
    pub fn irq_pending_spi2(&self) -> (r: bool)
        ensures
            r == (self@.irq & 4 == 4),
    {
        self.registers.irq & 4 == 4
    }
}

/// Exclusivity law, first half: taking a peripheral twice without an
/// intervening return fails on the second take. The premises are exactly
/// what `take_mini_uart` and `take_gpio` ensure: after any take the guard
/// holds nothing for that peripheral, and a take yields a handle if and only
/// if the guard held one.
pub proof fn lemma_second_take_fails<T>(after_take: Option<T>, second: Option<T>)
    requires
        after_take is None,
        second is Some <==> after_take is Some,
    ensures
        second is None,
{
}

/// Exclusivity law, second half: a return followed by a take succeeds. The
/// premises are what `return_mini_uart` and `return_gpio` ensure (the guard
/// holds the returned state) and the take's if-and-only-if success condition.
pub proof fn lemma_take_after_return_succeeds<T>(after_return: Option<T>, next: Option<T>)
    requires
        after_return is Some,
        next is Some <==> after_return is Some,
    ensures
        next is Some,
{
}

} // verus!
