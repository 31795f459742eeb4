//! GPIO pin multiplexer: selects each pin's electrical function and drives or
//! reads digital pin state.
//!
//! Fifty-four pins are mapped onto six function-select registers (ten 3-bit
//! fields per register, the top two bits unused) and two 32-bit level words
//! (pins 0-31 in the first, 32-53 in the second). The driver is stateless:
//! it maps each logical pin number to its physical register and bit
//! coordinates, and the contracts state that mapping pin by pin.

use vstd::prelude::*;

use crate::bits::{
    lemma_clear_bit_other, lemma_clear_bit_same, lemma_field_extract_bound,
    lemma_field_update_other, lemma_field_update_same, lemma_set_bit_other, lemma_set_bit_same,
    register_volatile_and, register_volatile_or,
};

verus! {

/// A logical pin number, 0 through 53.
#[derive(Clone, Copy, PartialEq, Eq, Structural, Debug)]
pub enum GPIOPin {
    PIN0,
    PIN1,
    PIN2,
    PIN3,
    PIN4,
    PIN5,
    PIN6,
    PIN7,
    PIN8,
    PIN9,
    PIN10,
    PIN11,
    PIN12,
    PIN13,
    PIN14,
    PIN15,
    PIN16,
    PIN17,
    PIN18,
    PIN19,
    PIN20,
    PIN21,
    PIN22,
    PIN23,
    PIN24,
    PIN25,
    PIN26,
    PIN27,
    PIN28,
    PIN29,
    PIN30,
    PIN31,
    PIN32,
    PIN33,
    PIN34,
    PIN35,
    PIN36,
    PIN37,
    PIN38,
    PIN39,
    PIN40,
    PIN41,
    PIN42,
    PIN43,
    PIN44,
    PIN45,
    PIN46,
    PIN47,
    PIN48,
    PIN49,
    PIN50,
    PIN51,
    PIN52,
    PIN53,
}

impl View for GPIOPin {
    type V = int;

    open spec fn view(&self) -> int {
        match *self {
            GPIOPin::PIN0 => 0,
            GPIOPin::PIN1 => 1,
            GPIOPin::PIN2 => 2,
            GPIOPin::PIN3 => 3,
            GPIOPin::PIN4 => 4,
            GPIOPin::PIN5 => 5,
            GPIOPin::PIN6 => 6,
            GPIOPin::PIN7 => 7,
            GPIOPin::PIN8 => 8,
            GPIOPin::PIN9 => 9,
            GPIOPin::PIN10 => 10,
            GPIOPin::PIN11 => 11,
            GPIOPin::PIN12 => 12,
            GPIOPin::PIN13 => 13,
            GPIOPin::PIN14 => 14,
            GPIOPin::PIN15 => 15,
            GPIOPin::PIN16 => 16,
            GPIOPin::PIN17 => 17,
            GPIOPin::PIN18 => 18,
            GPIOPin::PIN19 => 19,
            GPIOPin::PIN20 => 20,
            GPIOPin::PIN21 => 21,
            GPIOPin::PIN22 => 22,
            GPIOPin::PIN23 => 23,
            GPIOPin::PIN24 => 24,
            GPIOPin::PIN25 => 25,
            GPIOPin::PIN26 => 26,
            GPIOPin::PIN27 => 27,
            GPIOPin::PIN28 => 28,
            GPIOPin::PIN29 => 29,
            GPIOPin::PIN30 => 30,
            GPIOPin::PIN31 => 31,
            GPIOPin::PIN32 => 32,
            GPIOPin::PIN33 => 33,
            GPIOPin::PIN34 => 34,
            GPIOPin::PIN35 => 35,
            GPIOPin::PIN36 => 36,
            GPIOPin::PIN37 => 37,
            GPIOPin::PIN38 => 38,
            GPIOPin::PIN39 => 39,
            GPIOPin::PIN40 => 40,
            GPIOPin::PIN41 => 41,
            GPIOPin::PIN42 => 42,
            GPIOPin::PIN43 => 43,
            GPIOPin::PIN44 => 44,
            GPIOPin::PIN45 => 45,
            GPIOPin::PIN46 => 46,
            GPIOPin::PIN47 => 47,
            GPIOPin::PIN48 => 48,
            GPIOPin::PIN49 => 49,
            GPIOPin::PIN50 => 50,
            GPIOPin::PIN51 => 51,
            GPIOPin::PIN52 => 52,
            GPIOPin::PIN53 => 53,
        }
    }
}

impl GPIOPin {
    /// The pin's number, used to locate its register and bit coordinates.
    pub fn index(self) -> (r: u32)
        ensures
            r as int == self@,
            r < 54,
    {
        match self {
            GPIOPin::PIN0 => 0,
            GPIOPin::PIN1 => 1,
            GPIOPin::PIN2 => 2,
            GPIOPin::PIN3 => 3,
            GPIOPin::PIN4 => 4,
            GPIOPin::PIN5 => 5,
            GPIOPin::PIN6 => 6,
            GPIOPin::PIN7 => 7,
            GPIOPin::PIN8 => 8,
            GPIOPin::PIN9 => 9,
            GPIOPin::PIN10 => 10,
            GPIOPin::PIN11 => 11,
            GPIOPin::PIN12 => 12,
            GPIOPin::PIN13 => 13,
            GPIOPin::PIN14 => 14,
            GPIOPin::PIN15 => 15,
            GPIOPin::PIN16 => 16,
            GPIOPin::PIN17 => 17,
            GPIOPin::PIN18 => 18,
            GPIOPin::PIN19 => 19,
            GPIOPin::PIN20 => 20,
            GPIOPin::PIN21 => 21,
            GPIOPin::PIN22 => 22,
            GPIOPin::PIN23 => 23,
            GPIOPin::PIN24 => 24,
            GPIOPin::PIN25 => 25,
            GPIOPin::PIN26 => 26,
            GPIOPin::PIN27 => 27,
            GPIOPin::PIN28 => 28,
            GPIOPin::PIN29 => 29,
            GPIOPin::PIN30 => 30,
            GPIOPin::PIN31 => 31,
            GPIOPin::PIN32 => 32,
            GPIOPin::PIN33 => 33,
            GPIOPin::PIN34 => 34,
            GPIOPin::PIN35 => 35,
            GPIOPin::PIN36 => 36,
            GPIOPin::PIN37 => 37,
            GPIOPin::PIN38 => 38,
            GPIOPin::PIN39 => 39,
            GPIOPin::PIN40 => 40,
            GPIOPin::PIN41 => 41,
            GPIOPin::PIN42 => 42,
            GPIOPin::PIN43 => 43,
            GPIOPin::PIN44 => 44,
            GPIOPin::PIN45 => 45,
            GPIOPin::PIN46 => 46,
            GPIOPin::PIN47 => 47,
            GPIOPin::PIN48 => 48,
            GPIOPin::PIN49 => 49,
            GPIOPin::PIN50 => 50,
            GPIOPin::PIN51 => 51,
            GPIOPin::PIN52 => 52,
            GPIOPin::PIN53 => 53,
        }
    }
}

/// The electrical level of a pin.
#[derive(Clone, Copy, PartialEq, Eq, Structural, Debug)]
pub enum GPIOPinLevel {
    High,
    Low,
}

/// A pin's electrical function: input, output, or one of six alternate
/// functions. The view is the 3-bit hardware encoding of the function.
#[allow(non_camel_case_types)]
#[derive(Clone, Copy, PartialEq, Eq, Structural, Debug)]
pub enum GPIOFunction {
    INPUT,
    OUTPUT,
    ALT0,
    ALT1,
    ALT2,
    ALT3,
    ALT4,
    ALT5,
}

impl View for GPIOFunction {
    type V = u32;

    open spec fn view(&self) -> u32 {
        match *self {
            GPIOFunction::INPUT => 0,
            GPIOFunction::OUTPUT => 1,
            GPIOFunction::ALT5 => 2,
            GPIOFunction::ALT4 => 3,
            GPIOFunction::ALT0 => 4,
            GPIOFunction::ALT1 => 5,
            GPIOFunction::ALT2 => 6,
            GPIOFunction::ALT3 => 7,
        }
    }
}

/// The function whose 3-bit hardware encoding is `e`. Every one of the eight
/// encodings names a defined function.
pub open spec fn function_of_encoding(e: u32) -> GPIOFunction {
    if e == 0 {
        GPIOFunction::INPUT
    } else if e == 1 {
        GPIOFunction::OUTPUT
    } else if e == 2 {
        GPIOFunction::ALT5
    } else if e == 3 {
        GPIOFunction::ALT4
    } else if e == 4 {
        GPIOFunction::ALT0
    } else if e == 5 {
        GPIOFunction::ALT1
    } else if e == 6 {
        GPIOFunction::ALT2
    } else {
        GPIOFunction::ALT3
    }
}

impl GPIOFunction {
    /// The 3-bit hardware encoding of the function.
    pub fn encoding(self) -> (r: u32)
        ensures
            r == self@,
            r < 8,
    {
        match self {
            GPIOFunction::INPUT => 0,
            GPIOFunction::OUTPUT => 1,
            GPIOFunction::ALT5 => 2,
            GPIOFunction::ALT4 => 3,
            GPIOFunction::ALT0 => 4,
            GPIOFunction::ALT1 => 5,
            GPIOFunction::ALT2 => 6,
            GPIOFunction::ALT3 => 7,
        }
    }

    /// Decode a 3-bit field that was read from hardware. Values above 7 do
    /// not name a function and are rejected rather than silently defaulted.
    pub fn try_from(value: u32) -> (r: Result<GPIOFunction, u32>)
        ensures
            value < 8 ==> r == Ok::<GPIOFunction, u32>(function_of_encoding(value)),
            value >= 8 ==> r == Err::<GPIOFunction, u32>(u32::MAX),
    {
        match value {
            0 => Ok(GPIOFunction::INPUT),
            1 => Ok(GPIOFunction::OUTPUT),
            2 => Ok(GPIOFunction::ALT5),
            3 => Ok(GPIOFunction::ALT4),
            4 => Ok(GPIOFunction::ALT0),
            5 => Ok(GPIOFunction::ALT1),
            6 => Ok(GPIOFunction::ALT2),
            7 => Ok(GPIOFunction::ALT3),
            _ => Err(u32::MAX),
        }
    }
}

/// Every function decodes back from its own encoding: the set/get round trip
/// on a pin's function select returns the function that was set.
pub proof fn lemma_function_encoding_roundtrip(f: GPIOFunction)
    ensures
        function_of_encoding(f@) == f,
{
}

/// The GPIO register cells the driver reads and writes: six function-select
/// words and the two level words. The set/clear interfaces of the hardware
/// are modelled by their effect on the level words (writing a one-hot word
/// sets or clears exactly that pin; zero bits leave other pins alone).
pub struct GPIORegisters {
    pub gpfsel0: u32,
    pub gpfsel1: u32,
    pub gpfsel2: u32,
    pub gpfsel3: u32,
    pub gpfsel4: u32,
    pub gpfsel5: u32,
    pub gplev0: u32,
    pub gplev1: u32,
}

impl GPIORegisters {
    /// A register file in reset state: every cell zero.
    pub fn new() -> (r: GPIORegisters)
        ensures
            r == gpio_reset(),
    {
        GPIORegisters {
            gpfsel0: 0,
            gpfsel1: 0,
            gpfsel2: 0,
            gpfsel3: 0,
            gpfsel4: 0,
            gpfsel5: 0,
            gplev0: 0,
            gplev1: 0,
        }
    }
}

/// The reset state of the GPIO register file.
pub open spec fn gpio_reset() -> GPIORegisters {
    GPIORegisters {
        gpfsel0: 0,
        gpfsel1: 0,
        gpfsel2: 0,
        gpfsel3: 0,
        gpfsel4: 0,
        gpfsel5: 0,
        gplev0: 0,
        gplev1: 0,
    }
}

/// The function-select word holding pin `10 * i` through `10 * i + 9`.
pub open spec fn fsel_word(r: GPIORegisters, i: int) -> u32 {
    if i == 0 {
        r.gpfsel0
    } else if i == 1 {
        r.gpfsel1
    } else if i == 2 {
        r.gpfsel2
    } else if i == 3 {
        r.gpfsel3
    } else if i == 4 {
        r.gpfsel4
    } else {
        r.gpfsel5
    }
}

/// The level word holding pin `32 * i` through `32 * i + 31`.
pub open spec fn lev_word(r: GPIORegisters, i: int) -> u32 {
    if i == 0 {
        r.gplev0
    } else {
        r.gplev1
    }
}

/// The 3-bit function encoding stored for pin `p`.
pub open spec fn pin_function_of(r: GPIORegisters, p: int) -> u32 {
    (fsel_word(r, p / 10) >> ((3 * (p % 10)) as u32)) & 7
}

/// Whether pin `p`'s level bit is set.
pub open spec fn pin_level_of(r: GPIORegisters, p: int) -> bool {
    ((lev_word(r, p / 32) >> ((p % 32) as u32)) & 1) == 1
}

/// The GPIO peripheral: a handle to the multiplexer's register file.
pub struct GPIO {
    registers: GPIORegisters,
}

impl GPIO {
    /// The register file behind the handle.
    pub closed spec fn regs(&self) -> GPIORegisters {
        self.registers
    }

    /// A GPIO handle over a register file in reset state.
    pub fn new() -> (g: GPIO)
        ensures
            g.regs() == gpio_reset(),
    {
        GPIO { registers: GPIORegisters::new() }
    }

    /// Select `function` for `pin`: clear the pin's 3-bit field with a masked
    /// AND, then OR in the new encoding. Every other pin's function and all
    /// pin levels are untouched.
    pub fn pin_function_set(&mut self, pin: GPIOPin, function: GPIOFunction)
        ensures
            pin_function_of(final(self).regs(), pin@) == function@,
            forall|q: int|
                0 <= q < 54 && q != pin@ ==> pin_function_of(final(self).regs(), q)
                    == pin_function_of(old(self).regs(), q),
            final(self).regs().gplev0 == old(self).regs().gplev0,
            final(self).regs().gplev1 == old(self).regs().gplev1,
    {
        let idx = pin.index();
        let shift = (idx % 10) * 3;
        let mask = !(7u32 << shift);
        let value = function.encoding() << shift;
        let ghost pre = self.registers;
        if idx < 10 {
            register_volatile_and(&mut self.registers.gpfsel0, mask);
            register_volatile_or(&mut self.registers.gpfsel0, value);
        } else if idx < 20 {
            register_volatile_and(&mut self.registers.gpfsel1, mask);
            register_volatile_or(&mut self.registers.gpfsel1, value);
        } else if idx < 30 {
            register_volatile_and(&mut self.registers.gpfsel2, mask);
            register_volatile_or(&mut self.registers.gpfsel2, value);
        } else if idx < 40 {
            register_volatile_and(&mut self.registers.gpfsel3, mask);
            register_volatile_or(&mut self.registers.gpfsel3, value);
        } else if idx < 50 {
            register_volatile_and(&mut self.registers.gpfsel4, mask);
            register_volatile_or(&mut self.registers.gpfsel4, value);
        } else {
            register_volatile_and(&mut self.registers.gpfsel5, mask);
            register_volatile_or(&mut self.registers.gpfsel5, value);
        }
        proof {
            lemma_fsel_update(pre, self.registers, pin@, function@);
        }
    }

    /// Read back the function currently selected for `pin`.
    pub fn pin_function_get(&self, pin: GPIOPin) -> (r: GPIOFunction)
        ensures
            r == function_of_encoding(pin_function_of(self.regs(), pin@)),
            r@ == pin_function_of(self.regs(), pin@),
    {
        let idx = pin.index();
        let shift = (idx % 10) * 3;
        let w = if idx < 10 {
            self.registers.gpfsel0
        } else if idx < 20 {
            self.registers.gpfsel1
        } else if idx < 30 {
            self.registers.gpfsel2
        } else if idx < 40 {
            self.registers.gpfsel3
        } else if idx < 50 {
            self.registers.gpfsel4
        } else {
            self.registers.gpfsel5
        };
        let e = (w >> shift) & 7;
        proof {
            lemma_field_extract_bound(w, shift);
        }
        if e == 0 {
            GPIOFunction::INPUT
        } else if e == 1 {
            GPIOFunction::OUTPUT
        } else if e == 2 {
            GPIOFunction::ALT5
        } else if e == 3 {
            GPIOFunction::ALT4
        } else if e == 4 {
            GPIOFunction::ALT0
        } else if e == 5 {
            GPIOFunction::ALT1
        } else if e == 6 {
            GPIOFunction::ALT2
        } else {
            GPIOFunction::ALT3
        }
    }

    /// Drive `pin` high: write its one-hot bit to the set interface. Other
    /// pins and all function selects are untouched.
    pub fn pin_set(&mut self, pin: GPIOPin)
        ensures
            pin_level_of(final(self).regs(), pin@),
            forall|q: int|
                0 <= q < 54 && q != pin@ ==> pin_level_of(final(self).regs(), q) == pin_level_of(
                    old(self).regs(),
                    q,
                ),
            fsel_unchanged(old(self).regs(), final(self).regs()),
    {
        let idx = pin.index();
        let bit = idx % 32;
        let ghost pre = self.registers;
        if idx < 32 {
            register_volatile_or(&mut self.registers.gplev0, 1u32 << bit);
        } else {
            register_volatile_or(&mut self.registers.gplev1, 1u32 << bit);
        }
        proof {
            lemma_lev_set(pre, self.registers, pin@);
        }
    }

    /// Drive `pin` low: write its one-hot bit to the clear interface. Other
    /// pins and all function selects are untouched.
    pub fn pin_clear(&mut self, pin: GPIOPin)
        ensures
            !pin_level_of(final(self).regs(), pin@),
            forall|q: int|
                0 <= q < 54 && q != pin@ ==> pin_level_of(final(self).regs(), q) == pin_level_of(
                    old(self).regs(),
                    q,
                ),
            fsel_unchanged(old(self).regs(), final(self).regs()),
    {
        let idx = pin.index();
        let bit = idx % 32;
        let ghost pre = self.registers;
        if idx < 32 {
            register_volatile_and(&mut self.registers.gplev0, !(1u32 << bit));
        } else {
            register_volatile_and(&mut self.registers.gplev1, !(1u32 << bit));
        }
        proof {
            lemma_lev_clear(pre, self.registers, pin@);
        }
    }

    /// Read `pin`'s electrical level from its level word.
    pub fn pin_level(&self, pin: GPIOPin) -> (r: GPIOPinLevel)
        ensures
            r == (if pin_level_of(self.regs(), pin@) {
                GPIOPinLevel::High
            } else {
                GPIOPinLevel::Low
            }),
    {
        let idx = pin.index();
        let w = if idx < 32 {
            self.registers.gplev0
        } else {
            self.registers.gplev1
        };
        if (w >> (idx % 32)) & 1 == 1 {
            GPIOPinLevel::High
        } else {
            GPIOPinLevel::Low
        }
    }
}

/// The six function-select words agree between two register files.
pub open spec fn fsel_unchanged(a: GPIORegisters, b: GPIORegisters) -> bool {
    &&& a.gpfsel0 == b.gpfsel0
    &&& a.gpfsel1 == b.gpfsel1
    &&& a.gpfsel2 == b.gpfsel2
    &&& a.gpfsel3 == b.gpfsel3
    &&& a.gpfsel4 == b.gpfsel4
    &&& a.gpfsel5 == b.gpfsel5
}

/// Updating pin `p`'s 3-bit field in its function-select word sets exactly
/// that pin's function and leaves every other pin's function alone.
proof fn lemma_fsel_update(pre: GPIORegisters, post: GPIORegisters, p: int, f: u32)
    requires
        0 <= p < 54,
        f < 8,
        fsel_word(post, p / 10) == (fsel_word(pre, p / 10) & !(7u32 << ((3 * (p % 10)) as u32)))
            | (f << ((3 * (p % 10)) as u32)),
        forall|i: int| 0 <= i < 6 && i != p / 10 ==> fsel_word(post, i) == fsel_word(pre, i),
    ensures
        pin_function_of(post, p) == f,
        forall|q: int|
            0 <= q < 54 && q != p ==> pin_function_of(post, q) == pin_function_of(pre, q),
{
    let s = (3 * (p % 10)) as u32;
    lemma_field_update_same(fsel_word(pre, p / 10), s, f);
    assert forall|q: int|
        0 <= q < 54 && q != p implies pin_function_of(post, q) == pin_function_of(pre, q) by {
        if q / 10 == p / 10 {
            let t = (3 * (q % 10)) as u32;
            assert(q % 10 != p % 10);
            lemma_field_update_other(fsel_word(pre, p / 10), s, t, f);
        }
    }
}

/// OR-ing pin `p`'s one-hot bit into its level word raises exactly that
/// pin's level and leaves every other pin's level alone.
proof fn lemma_lev_set(pre: GPIORegisters, post: GPIORegisters, p: int)
    requires
        0 <= p < 54,
        lev_word(post, p / 32) == lev_word(pre, p / 32) | (1u32 << ((p % 32) as u32)),
        forall|i: int| 0 <= i < 2 && i != p / 32 ==> lev_word(post, i) == lev_word(pre, i),
    ensures
        pin_level_of(post, p),
        forall|q: int| 0 <= q < 54 && q != p ==> pin_level_of(post, q) == pin_level_of(pre, q),
{
    let b = (p % 32) as u32;
    lemma_set_bit_same(lev_word(pre, p / 32), b);
    assert forall|q: int|
        0 <= q < 54 && q != p implies pin_level_of(post, q) == pin_level_of(pre, q) by {
        if q / 32 == p / 32 {
            let c = (q % 32) as u32;
            assert(q % 32 != p % 32);
            lemma_set_bit_other(lev_word(pre, p / 32), b, c);
        }
    }
}

/// AND-ing the complement of pin `p`'s one-hot bit into its level word drops
/// exactly that pin's level and leaves every other pin's level alone.
proof fn lemma_lev_clear(pre: GPIORegisters, post: GPIORegisters, p: int)
    requires
        0 <= p < 54,
        lev_word(post, p / 32) == lev_word(pre, p / 32) & !(1u32 << ((p % 32) as u32)),
        forall|i: int| 0 <= i < 2 && i != p / 32 ==> lev_word(post, i) == lev_word(pre, i),
    ensures
        !pin_level_of(post, p),
        forall|q: int| 0 <= q < 54 && q != p ==> pin_level_of(post, q) == pin_level_of(pre, q),
{
    let b = (p % 32) as u32;
    lemma_clear_bit_same(lev_word(pre, p / 32), b);
    assert forall|q: int|
        0 <= q < 54 && q != p implies pin_level_of(post, q) == pin_level_of(pre, q) by {
        if q / 32 == p / 32 {
            let c = (q % 32) as u32;
            assert(q % 32 != p % 32);
            lemma_clear_bit_other(lev_word(pre, p / 32), b, c);
        }
    }
}

} // verus!
