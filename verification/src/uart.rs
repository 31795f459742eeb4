//! The mini UART channel: baud configuration, frame format, transmit and
//! receive paths, and the bring-up protocol.
//!
//! The peripheral is modelled explicitly: the interrupt-enable, line-control,
//! extra-control and baud-rate cells hold their last written value, while the
//! status register's bits are derived from the modelled transmit and receive
//! FIFOs. `tick` stands for one symbol period of the hardware shift register:
//! it moves the oldest queued byte onto the line (the `sent` transcript).
//! Received symbols enter through `rx_deliver`, the model's side of the
//! serial line. Every busy-wait in the driver advances `tick`, so each wait
//! provably terminates whenever the hardware drains the queue.

use vstd::prelude::*;

use crate::bits::{register_volatile_and, register_volatile_or};
use crate::gpio::{pin_function_of, GPIOFunction, GPIOPin, GPIO};

verus! {

/// Depth of each hardware FIFO, in bytes.
pub const FIFO_DEPTH: usize = 8;

/// The fixed reference clock the baud divisor is derived from, in Hz.
pub const UART_CLOCK: u32 = 250_000_000;

/// The abstract state of the mini UART: the four configuration cells, the
/// two FIFOs, and the transcript of bytes already shifted onto the line.
#[verifier::ext_equal]
pub struct UartModel {
    /// Interrupt-enable cell: bit 0 transmit, bit 1 receive.
    pub ier: u32,
    /// Line-control cell: bit 0 set selects 8-bit frames.
    pub lcr: u32,
    /// Extra-control cell: bit 0 enables the receiver, bit 1 the transmitter.
    pub cntl: u32,
    /// Baud-rate cell: the stored divisor.
    pub baud: u32,
    /// Bytes accepted for transmit and not yet shifted out, oldest first.
    pub tx_queue: Seq<u8>,
    /// Bytes arrived from the line and not yet read, oldest first.
    pub rx_queue: Seq<u8>,
    /// Bytes fully shifted onto the line, in order.
    pub sent: Seq<u8>,
    /// Whether a symbol arrived while the receive FIFO was full.
    pub overrun: bool,
}

/// Bit 1 of the extra-control cell: the transmitter accepts data.
pub open spec fn transmitter_enabled(m: UartModel) -> bool {
    m.cntl & 2 == 2
}

/// Bit 0 of the extra-control cell: the receiver captures symbols.
pub open spec fn receiver_enabled(m: UartModel) -> bool {
    m.cntl & 1 == 1
}

/// The modelled FIFOs never hold more than the hardware depth. The
/// constructor establishes this and every operation's contract preserves it.
pub open spec fn uart_wf(m: UartModel) -> bool {
    m.tx_queue.len() <= FIFO_DEPTH && m.rx_queue.len() <= FIFO_DEPTH
}

/// The reset state of the mini UART.
pub open spec fn uart_reset() -> UartModel {
    UartModel {
        ier: 0,
        lcr: 0,
        cntl: 0,
        baud: 0,
        tx_queue: Seq::<u8>::empty(),
        rx_queue: Seq::<u8>::empty(),
        sent: Seq::<u8>::empty(),
        overrun: false,
    }
}

/// One of the standard symbol rates the channel supports.
#[derive(Clone, Copy, PartialEq, Eq, Structural, Debug)]
pub enum BaudRate {
    Baud1200,
    Baud2400,
    Baud4800,
    Baud9600,
    Baud19200,
    Baud38400,
    Baud57600,
    Baud115200,
    Baud230400,
    Baud460800,
    Baud921600,
}

impl BaudRate {
    /// The rate in symbols per second.
    pub open spec fn rate_spec(self) -> u32 {
        match self {
            BaudRate::Baud1200 => 1200,
            BaudRate::Baud2400 => 2400,
            BaudRate::Baud4800 => 4800,
            BaudRate::Baud9600 => 9600,
            BaudRate::Baud19200 => 19200,
            BaudRate::Baud38400 => 38400,
            BaudRate::Baud57600 => 57600,
            BaudRate::Baud115200 => 115200,
            BaudRate::Baud230400 => 230400,
            BaudRate::Baud460800 => 460800,
            BaudRate::Baud921600 => 921600,
        }
    }

    /// The hardware divisor programmed for this rate:
    /// `clock / (8 * rate) - 1`, in integer arithmetic.
    pub open spec fn divisor_int(self) -> int {
        UART_CLOCK as int / (8 * self.rate_spec() as int) - 1
    }

    /// The rate in symbols per second.
    pub fn rate_value(self) -> (r: u32)
        ensures
            r == self.rate_spec(),
            1200 <= r <= 921600,
    {
        match self {
            BaudRate::Baud1200 => 1200,
            BaudRate::Baud2400 => 2400,
            BaudRate::Baud4800 => 4800,
            BaudRate::Baud9600 => 9600,
            BaudRate::Baud19200 => 19200,
            BaudRate::Baud38400 => 38400,
            BaudRate::Baud57600 => 57600,
            BaudRate::Baud115200 => 115200,
            BaudRate::Baud230400 => 230400,
            BaudRate::Baud460800 => 460800,
            BaudRate::Baud921600 => 921600,
        }
    }

    /// Compute the hardware divisor for this rate.
    pub fn divisor(self) -> (r: u32)
        ensures
            r as int == self.divisor_int(),
    {
        let rate = self.rate_value();
        proof {
            lemma_divisor_quotient_bounds(self);
        }
        UART_CLOCK / (8 * rate) - 1
    }

    /// The defined rate whose divisor is `d`, if any. This is the inverse
    /// relation used to recover the configured rate from the stored divisor.
    pub open spec fn from_divisor_spec(d: int) -> Option<BaudRate> {
        if d == BaudRate::Baud1200.divisor_int() {
            Some(BaudRate::Baud1200)
        } else if d == BaudRate::Baud2400.divisor_int() {
            Some(BaudRate::Baud2400)
        } else if d == BaudRate::Baud4800.divisor_int() {
            Some(BaudRate::Baud4800)
        } else if d == BaudRate::Baud9600.divisor_int() {
            Some(BaudRate::Baud9600)
        } else if d == BaudRate::Baud19200.divisor_int() {
            Some(BaudRate::Baud19200)
        } else if d == BaudRate::Baud38400.divisor_int() {
            Some(BaudRate::Baud38400)
        } else if d == BaudRate::Baud57600.divisor_int() {
            Some(BaudRate::Baud57600)
        } else if d == BaudRate::Baud115200.divisor_int() {
            Some(BaudRate::Baud115200)
        } else if d == BaudRate::Baud230400.divisor_int() {
            Some(BaudRate::Baud230400)
        } else if d == BaudRate::Baud460800.divisor_int() {
            Some(BaudRate::Baud460800)
        } else if d == BaudRate::Baud921600.divisor_int() {
            Some(BaudRate::Baud921600)
        } else {
            None
        }
    }

    /// Recover the defined rate whose divisor is `d`, if any.
    pub fn from_divisor(d: u32) -> (r: Option<BaudRate>)
        ensures
            r == BaudRate::from_divisor_spec(d as int),
    {
        if d == BaudRate::Baud1200.divisor() {
            Some(BaudRate::Baud1200)
        } else if d == BaudRate::Baud2400.divisor() {
            Some(BaudRate::Baud2400)
        } else if d == BaudRate::Baud4800.divisor() {
            Some(BaudRate::Baud4800)
        } else if d == BaudRate::Baud9600.divisor() {
            Some(BaudRate::Baud9600)
        } else if d == BaudRate::Baud19200.divisor() {
            Some(BaudRate::Baud19200)
        } else if d == BaudRate::Baud38400.divisor() {
            Some(BaudRate::Baud38400)
        } else if d == BaudRate::Baud57600.divisor() {
            Some(BaudRate::Baud57600)
        } else if d == BaudRate::Baud115200.divisor() {
            Some(BaudRate::Baud115200)
        } else if d == BaudRate::Baud230400.divisor() {
            Some(BaudRate::Baud230400)
        } else if d == BaudRate::Baud460800.divisor() {
            Some(BaudRate::Baud460800)
        } else if d == BaudRate::Baud921600.divisor() {
            Some(BaudRate::Baud921600)
        } else {
            None
        }
    }
}

/// The quotient `clock / (8 * rate)` lies between 33 and 26041 for every
/// defined rate, so the divisor computation neither underflows nor overflows.
proof fn lemma_divisor_quotient_bounds(b: BaudRate)
    ensures
        33 <= UART_CLOCK as int / (8 * b.rate_spec() as int) <= 26041,
{
    vstd::arithmetic::div_mod::lemma_div_is_ordered_by_denominator(
        UART_CLOCK as int,
        9600,
        8 * b.rate_spec() as int,
    );
    vstd::arithmetic::div_mod::lemma_div_is_ordered_by_denominator(
        UART_CLOCK as int,
        8 * b.rate_spec() as int,
        7_372_800,
    );
}

/// Round-trip law: for every defined rate, computing the hardware divisor
/// and recovering the rate from that divisor yields the original rate.
pub proof fn lemma_baud_divisor_roundtrip(b: BaudRate)
    ensures
        BaudRate::from_divisor_spec(b.divisor_int()) == Some(b),
{
    lemma_divisor_values();
}

/// The eleven divisors, written out: each rate's denominator `8 * rate` and
/// the integer quotient of the 250 MHz clock by it.
proof fn lemma_divisor_values()
    ensures
        BaudRate::Baud1200.divisor_int() == 26040,
        BaudRate::Baud2400.divisor_int() == 13019,
        BaudRate::Baud4800.divisor_int() == 6509,
        BaudRate::Baud9600.divisor_int() == 3254,
        BaudRate::Baud19200.divisor_int() == 1626,
        BaudRate::Baud38400.divisor_int() == 812,
        BaudRate::Baud57600.divisor_int() == 541,
        BaudRate::Baud115200.divisor_int() == 270,
        BaudRate::Baud230400.divisor_int() == 134,
        BaudRate::Baud460800.divisor_int() == 66,
        BaudRate::Baud921600.divisor_int() == 32,
{
    assert(8 * BaudRate::Baud1200.rate_spec() as int == 9600);
    assert(250_000_000 as int / 9600 == 26041);
    assert(8 * BaudRate::Baud2400.rate_spec() as int == 19200);
    assert(250_000_000 as int / 19200 == 13020);
    assert(8 * BaudRate::Baud4800.rate_spec() as int == 38400);
    assert(250_000_000 as int / 38400 == 6510);
    assert(8 * BaudRate::Baud9600.rate_spec() as int == 76800);
    assert(250_000_000 as int / 76800 == 3255);
    assert(8 * BaudRate::Baud19200.rate_spec() as int == 153600);
    assert(250_000_000 as int / 153600 == 1627);
    assert(8 * BaudRate::Baud38400.rate_spec() as int == 307200);
    assert(250_000_000 as int / 307200 == 813);
    assert(8 * BaudRate::Baud57600.rate_spec() as int == 460800);
    assert(250_000_000 as int / 460800 == 542);
    assert(8 * BaudRate::Baud115200.rate_spec() as int == 921600);
    assert(250_000_000 as int / 921600 == 271);
    assert(8 * BaudRate::Baud230400.rate_spec() as int == 1843200);
    assert(250_000_000 as int / 1843200 == 135);
    assert(8 * BaudRate::Baud460800.rate_spec() as int == 3686400);
    assert(250_000_000 as int / 3686400 == 67);
    assert(8 * BaudRate::Baud921600.rate_spec() as int == 7372800);
    assert(250_000_000 as int / 7372800 == 33);
}

/// The mini UART peripheral.
pub struct MiniUart {
    ier: u32,
    lcr: u32,
    cntl: u32,
    baud: u32,
    tx_fifo: Vec<u8>,
    rx_fifo: Vec<u8>,
    sent: Vec<u8>,
    overrun: bool,
}

impl View for MiniUart {
    type V = UartModel;

    closed spec fn view(&self) -> UartModel {
        UartModel {
            ier: self.ier,
            lcr: self.lcr,
            cntl: self.cntl,
            baud: self.baud,
            tx_queue: self.tx_fifo@,
            rx_queue: self.rx_fifo@,
            sent: self.sent@,
            overrun: self.overrun,
        }
    }
}

impl MiniUart {
    /// A mini UART in reset state.
    pub fn new() -> (u: MiniUart)
        ensures
            u@ == uart_reset(),
    {
        MiniUart {
            ier: 0,
            lcr: 0,
            cntl: 0,
            baud: 0,
            tx_fifo: Vec::new(),
            rx_fifo: Vec::new(),
            sent: Vec::new(),
            overrun: false,
        }
    }

    /// Write a byte to the data register. With the transmitter enabled and a
    /// free FIFO slot the low eight bits are queued; otherwise the hardware
    /// drops the write, so callers poll `transmitter_space_avaliable` under
    /// back-pressure.
    pub fn transmit(&mut self, byte: u32)
        ensures
            transmitter_enabled(old(self)@) && old(self)@.tx_queue.len() < FIFO_DEPTH
                ==> final(self)@ == (UartModel {
                    tx_queue: old(self)@.tx_queue.push((byte & 0xff) as u8),
                    ..old(self)@
                }),
            !(transmitter_enabled(old(self)@) && old(self)@.tx_queue.len() < FIFO_DEPTH)
                ==> final(self)@ == old(self)@,
    {
        if self.cntl & 2 == 2 && self.tx_fifo.len() < FIFO_DEPTH {
            self.tx_fifo.push((byte & 0xff) as u8);
        }
    }

    /// Read the data register, consuming the oldest received byte. Reading
    /// with no symbol available returns stale data on the hardware, so it is
    /// excluded by contract and callers poll `receiver_symbol_avaliable`.
    pub fn receive(&mut self) -> (r: u32)
        requires
            old(self)@.rx_queue.len() > 0,
        ensures
            r == old(self)@.rx_queue[0] as u32,
            final(self)@ == (UartModel { rx_queue: old(self)@.rx_queue.skip(1), ..old(self)@ }),
    {
        let b = self.rx_fifo.remove(0);
        proof {
            assert(old(self)@.rx_queue.remove(0) =~= old(self)@.rx_queue.skip(1));
        }
        b as u32
    }

    /// One symbol period of the hardware: the shift register takes the
    /// oldest queued byte and puts it on the line.
    pub fn tick(&mut self)
        ensures
            old(self)@.tx_queue.len() > 0 ==> final(self)@ == (UartModel {
                tx_queue: old(self)@.tx_queue.skip(1),
                sent: old(self)@.sent.push(old(self)@.tx_queue[0]),
                ..old(self)@
            }),
            old(self)@.tx_queue.len() == 0 ==> final(self)@ == old(self)@,
    {
        if self.tx_fifo.len() > 0 {
            let b = self.tx_fifo.remove(0);
            self.sent.push(b);
            proof {
                assert(old(self)@.tx_queue.remove(0) =~= old(self)@.tx_queue.skip(1));
            }
        }
    }

    /// A symbol arriving on the line. With the receiver enabled it is
    /// captured into the receive FIFO if a slot is free; a symbol that finds
    /// the FIFO full raises the overrun condition and is lost. With the
    /// receiver disabled the symbol is ignored.
    pub fn rx_deliver(&mut self, byte: u8)
        ensures
            !receiver_enabled(old(self)@) ==> final(self)@ == old(self)@,
            receiver_enabled(old(self)@) && old(self)@.rx_queue.len() < FIFO_DEPTH ==> final(self)@
                == (UartModel { rx_queue: old(self)@.rx_queue.push(byte), ..old(self)@ }),
            receiver_enabled(old(self)@) && old(self)@.rx_queue.len() >= FIFO_DEPTH
                ==> final(self)@ == (UartModel { overrun: true, ..old(self)@ }),
    {
        if self.cntl & 1 == 1 {
            if self.rx_fifo.len() < FIFO_DEPTH {
                self.rx_fifo.push(byte);
            } else {
                self.overrun = true;
            }
        }
    }

    /// Status: at least one received byte is waiting.
    pub fn receiver_symbol_avaliable(&self) -> (r: bool)
        ensures
            r == (self@.rx_queue.len() > 0),
    {
        self.rx_fifo.len() > 0
    }

    /// Status: the transmit FIFO has a free slot.
    pub fn transmitter_space_avaliable(&self) -> (r: bool)
        ensures
            r == (self@.tx_queue.len() < FIFO_DEPTH),
    {
        self.tx_fifo.len() < FIFO_DEPTH
    }

    /// Status: the receive line is idle. Incoming symbols appear whole in
    /// this model, so the line is never observed mid-symbol.
    pub fn receiver_idle(&self) -> (r: bool)
        ensures
            r,
    {
        true
    }

    /// Status: the transmitter has shifted out everything it accepted.
    pub fn tranmitter_idle(&self) -> (r: bool)
        ensures
            r == (self@.tx_queue.len() == 0),
    {
        self.tx_fifo.len() == 0
    }

    /// Status: the transmit FIFO holds no byte.
    pub fn transmit_fifo_empty(&self) -> (r: bool)
        ensures
            r == (self@.tx_queue.len() == 0),
    {
        self.tx_fifo.len() == 0
    }

    /// Status: the transmitter is done, with nothing queued or in flight.
    pub fn transmitter_done(&self) -> (r: bool)
        ensures
            r == (self@.tx_queue.len() == 0),
    {
        self.tx_fifo.len() == 0
    }

    /// Status: a symbol arrived while the receive FIFO was full.
    pub fn receive_overrun(&self) -> (r: bool)
        ensures
            r == self@.overrun,
    {
        self.overrun
    }

    /// Number of bytes waiting in the receive FIFO.
    pub fn receive_fifo_level(&self) -> (r: u32)
        requires
            uart_wf(self@),
        ensures
            r as int == self@.rx_queue.len(),
            r <= 8,
    {
        self.rx_fifo.len() as u32
    }

    /// Number of bytes waiting in the transmit FIFO.
    pub fn transmit_fifo_level(&self) -> (r: u32)
        requires
            uart_wf(self@),
        ensures
            r as int == self@.tx_queue.len(),
            r <= 8,
    {
        self.tx_fifo.len() as u32
    }

    /// Enable the receive interrupt line (bit 1 of the interrupt-enable cell).
    pub fn enable_receive_interrupt(&mut self)
        ensures
            final(self)@ == (UartModel { ier: old(self)@.ier | 2, ..old(self)@ }),
    {
        register_volatile_or(&mut self.ier, 2);
    }

    /// Disable the receive interrupt line.
    pub fn disable_receive_interrupt(&mut self)
        ensures
            final(self)@ == (UartModel { ier: old(self)@.ier & !2u32, ..old(self)@ }),
    {
        register_volatile_and(&mut self.ier, !2u32);
    }

    /// Enable the transmit interrupt line (bit 0 of the interrupt-enable cell).
    pub fn enable_transmit_interrupt(&mut self)
        ensures
            final(self)@ == (UartModel { ier: old(self)@.ier | 1, ..old(self)@ }),
    {
        register_volatile_or(&mut self.ier, 1);
    }

    /// Disable the transmit interrupt line.
    pub fn disable_transmit_interrupt(&mut self)
        ensures
            final(self)@ == (UartModel { ier: old(self)@.ier & !1u32, ..old(self)@ }),
    {
        register_volatile_and(&mut self.ier, !1u32);
    }

    /// Whether an enabled interrupt condition is pending: transmit when the
    /// FIFO has drained, receive when a symbol is waiting.
    pub fn interrupt_pending(&self) -> (r: bool)
        ensures
            r == ((self@.ier & 1 == 1 && self@.tx_queue.len() == 0) || (self@.ier & 2 == 2
                && self@.rx_queue.len() > 0)),
    {
        (self.ier & 1 == 1 && self.tx_fifo.len() == 0) || (self.ier & 2 == 2 && self.rx_fifo.len()
            > 0)
    }

    /// The pending interrupt's identifier: 2 for a waiting received symbol
    /// (which has priority), 1 for a drained transmit FIFO, 0 for none.
    pub fn interrupt_id(&self) -> (r: u32)
        ensures
            r == (if self@.ier & 2 == 2 && self@.rx_queue.len() > 0 {
                2u32
            } else if self@.ier & 1 == 1 && self@.tx_queue.len() == 0 {
                1u32
            } else {
                0u32
            }),
    {
        if self.ier & 2 == 2 && self.rx_fifo.len() > 0 {
            2
        } else if self.ier & 1 == 1 && self.tx_fifo.len() == 0 {
            1
        } else {
            0
        }
    }

    /// Flush the receive FIFO; waiting bytes are discarded.
    pub fn clear_receive_fifo(&mut self)
        ensures
            final(self)@ == (UartModel { rx_queue: Seq::<u8>::empty(), ..old(self)@ }),
    {
        self.rx_fifo.clear();
    }

    /// Flush the transmit FIFO; queued bytes are discarded, not sent.
    pub fn clear_transmit_fifo(&mut self)
        ensures
            final(self)@ == (UartModel { tx_queue: Seq::<u8>::empty(), ..old(self)@ }),
    {
        self.tx_fifo.clear();
    }

    /// Select 8-bit frames (bit 0 of the line-control cell).
    pub fn set_8bit_mode(&mut self)
        ensures
            final(self)@ == (UartModel { lcr: old(self)@.lcr | 1, ..old(self)@ }),
    {
        register_volatile_or(&mut self.lcr, 1);
    }

    /// Select 7-bit frames.
    pub fn set_7bit_mode(&mut self)
        ensures
            final(self)@ == (UartModel { lcr: old(self)@.lcr & !1u32, ..old(self)@ }),
    {
        register_volatile_and(&mut self.lcr, !1u32);
    }

    /// Clear the overrun condition; on the hardware this is the side effect
    /// of reading the line-status register.
    pub fn receive_overrun_clear(&mut self)
        ensures
            final(self)@ == (UartModel { overrun: false, ..old(self)@ }),
    {
        self.overrun = false;
    }

    /// Let the transmitter accept data (bit 1 of the extra-control cell).
    pub fn transmitter_enable(&mut self)
        ensures
            final(self)@ == (UartModel { cntl: old(self)@.cntl | 2, ..old(self)@ }),
    {
        register_volatile_or(&mut self.cntl, 2);
    }

    /// Let the receiver capture symbols (bit 0 of the extra-control cell).
    pub fn receiver_enable(&mut self)
        ensures
            final(self)@ == (UartModel { cntl: old(self)@.cntl | 1, ..old(self)@ }),
    {
        register_volatile_or(&mut self.cntl, 1);
    }

    /// Stop the transmitter from accepting new data.
    pub fn transmitter_disable(&mut self)
        ensures
            final(self)@ == (UartModel { cntl: old(self)@.cntl & !2u32, ..old(self)@ }),
    {
        register_volatile_and(&mut self.cntl, !2u32);
    }

    /// Stop the receiver from capturing symbols.
    pub fn receiver_disable(&mut self)
        ensures
            final(self)@ == (UartModel { cntl: old(self)@.cntl & !1u32, ..old(self)@ }),
    {
        register_volatile_and(&mut self.cntl, !1u32);
    }

    /// Program the baud-rate divisor for `baudrate`.
    pub fn set_baudrate(&mut self, baudrate: BaudRate)
        ensures
            final(self)@ == (UartModel { baud: final(self)@.baud, ..old(self)@ }),
            final(self)@.baud as int == baudrate.divisor_int(),
    {
        let d = baudrate.divisor();
        self.baud = d;
    }

    /// The stored baud divisor.
    pub fn baud_divisor(&self) -> (r: u32)
        ensures
            r == self@.baud,
    {
        self.baud
    }

    /// The extra-control cell as last written.
    pub fn control_register(&self) -> (r: u32)
        ensures
            r == self@.cntl,
    {
        self.cntl
    }

    /// The line-control cell as last written.
    pub fn line_control_register(&self) -> (r: u32)
        ensures
            r == self@.lcr,
    {
        self.lcr
    }

    /// The interrupt-enable cell as last written.
    pub fn interrupt_enable_register(&self) -> (r: u32)
        ensures
            r == self@.ier,
    {
        self.ier
    }

    /// The transcript of bytes shifted onto the line so far.
    pub fn transmitted(&self) -> (r: &Vec<u8>)
        ensures
            r@ == self@.sent,
    {
        &self.sent
    }

    /// Busy-wait until the receive line is idle.
    pub fn wait_receiver_idle(&mut self)
        ensures
            final(self)@ == old(self)@,
    {
        while !self.receiver_idle()
            invariant
                self@ == old(self)@,
            decreases 0int,
        {
        }
    }

    /// Busy-wait until the transmitter has shifted out everything it
    /// accepted; the queued bytes end up on the line in order.
    pub fn wait_transmitter_idle(&mut self)
        ensures
            final(self)@ == (UartModel {
                tx_queue: Seq::<u8>::empty(),
                sent: old(self)@.sent + old(self)@.tx_queue,
                ..old(self)@
            }),
    {
        while !self.tranmitter_idle()
            invariant
                self@.sent + self@.tx_queue == old(self)@.sent + old(self)@.tx_queue,
                self@ == (UartModel { tx_queue: self@.tx_queue, sent: self@.sent, ..old(self)@ }),
            decreases self@.tx_queue.len(),
        {
            let ghost pre = self@;
            self.tick();
            proof {
                lemma_shift_preserves_stream(pre, self@);
            }
        }
        proof {
            assert(self@.sent =~= old(self)@.sent + old(self)@.tx_queue);
            assert(self@ =~= (UartModel {
                tx_queue: Seq::<u8>::empty(),
                sent: old(self)@.sent + old(self)@.tx_queue,
                ..old(self)@
            }));
        }
    }

    /// Busy-wait until the transmit FIFO has a free slot; whatever was queued
    /// stays committed to the line, in order.
    pub fn wait_transmitter_space(&mut self)
        ensures
            final(self)@.tx_queue.len() < FIFO_DEPTH,
            final(self)@.sent + final(self)@.tx_queue == old(self)@.sent + old(self)@.tx_queue,
            final(self)@ == (UartModel {
                tx_queue: final(self)@.tx_queue,
                sent: final(self)@.sent,
                ..old(self)@
            }),
    {
        while !self.transmitter_space_avaliable()
            invariant
                self@.sent + self@.tx_queue == old(self)@.sent + old(self)@.tx_queue,
                self@ == (UartModel { tx_queue: self@.tx_queue, sent: self@.sent, ..old(self)@ }),
            decreases self@.tx_queue.len(),
        {
            let ghost pre = self@;
            self.tick();
            proof {
                lemma_shift_preserves_stream(pre, self@);
            }
        }
    }
}

/// Appending one element to the right-hand sequence of a concatenation is
/// the same as appending it to the concatenation.
proof fn lemma_push_concat<T>(a: Seq<T>, b: Seq<T>, x: T)
    ensures
        a + b.push(x) =~= (a + b).push(x),
{
}

/// Shifting one byte from the queue onto the line does not change the
/// committed byte stream `sent + tx_queue`.
proof fn lemma_shift_preserves_stream(pre: UartModel, post: UartModel)
    requires
        pre.tx_queue.len() > 0,
        post.tx_queue == pre.tx_queue.skip(1),
        post.sent == pre.sent.push(pre.tx_queue[0]),
    ensures
        post.sent + post.tx_queue =~= pre.sent + pre.tx_queue,
{
    assert(post.sent + post.tx_queue =~= pre.sent + pre.tx_queue);
}

/// Write one byte to the UART's data register.
pub fn putchar(uart: &mut MiniUart, ch: u8)
    ensures
        transmitter_enabled(old(uart)@) && old(uart)@.tx_queue.len() < FIFO_DEPTH
            ==> final(uart)@ == (UartModel {
                tx_queue: old(uart)@.tx_queue.push(ch),
                ..old(uart)@
            }),
        !(transmitter_enabled(old(uart)@) && old(uart)@.tx_queue.len() < FIFO_DEPTH)
            ==> final(uart)@ == old(uart)@,
{
    proof {
        assert(((ch as u32) & 0xff) as u8 == ch) by (bit_vector);
    }
    uart.transmit(ch as u32);
}

/// Send a whole byte string: poll for FIFO space before each byte, then
/// busy-wait on transmitter idle after the last one. Every byte reaches the
/// line, after whatever was already queued.
pub fn print(uart: &mut MiniUart, s: &Vec<u8>)
    requires
        transmitter_enabled(old(uart)@),
    ensures
        final(uart)@ == (UartModel {
            tx_queue: Seq::<u8>::empty(),
            sent: old(uart)@.sent + old(uart)@.tx_queue + s@,
            ..old(uart)@
        }),
{
    let mut i: usize = 0;
    while i < s.len()
        invariant
            i <= s.len(),
            transmitter_enabled(uart@),
            uart@.sent + uart@.tx_queue == old(uart)@.sent + old(uart)@.tx_queue + s@.take(
                i as int,
            ),
            uart@ == (UartModel { tx_queue: uart@.tx_queue, sent: uart@.sent, ..old(uart)@ }),
        decreases s.len() - i,
    {
        uart.wait_transmitter_space();
        let ghost pre = uart@;
        let b = s[i];
        proof {
            assert(((b as u32) & 0xff) as u8 == b) by (bit_vector);
        }
        uart.transmit(b as u32);
        proof {
            assert(s@.take(i as int + 1) =~= s@.take(i as int).push(s@[i as int]));
            lemma_push_concat(pre.sent, pre.tx_queue, s@[i as int]);
            lemma_push_concat(
                old(uart)@.sent + old(uart)@.tx_queue,
                s@.take(i as int),
                s@[i as int],
            );
            assert(uart@.sent + uart@.tx_queue =~= old(uart)@.sent + old(uart)@.tx_queue + s@.take(
                i as int + 1,
            ));
        }
        i += 1;
    }
    proof {
        assert(s@.take(s.len() as int) =~= s@);
    }
    uart.wait_transmitter_idle();
    proof {
        assert(uart@ =~= (UartModel {
            tx_queue: Seq::<u8>::empty(),
            sent: old(uart)@.sent + old(uart)@.tx_queue + s@,
            ..old(uart)@
        }));
    }
}

/// Bring up the mini UART in the hardware-mandated order: disable both
/// directions, wait for in-flight activity to drain, mask both interrupts,
/// clear the overrun condition, flush both FIFOs, program the default baud
/// rate and 8-bit frames, and re-enable both directions. Pins 14 and 15 are
/// multiplexed to alternate function 5, the mini UART's data lines.
pub fn init_mini_uart(uart: &mut MiniUart, gpio: &mut GPIO)
    ensures
        transmitter_enabled(final(uart)@),
        receiver_enabled(final(uart)@),
        final(uart)@.cntl == (((old(uart)@.cntl & !1u32) & !2u32) | 2) | 1,
        final(uart)@.ier & 3 == 0,
        final(uart)@.ier == (old(uart)@.ier & !1u32) & !2u32,
        final(uart)@.lcr & 1 == 1,
        final(uart)@.lcr == old(uart)@.lcr | 1,
        final(uart)@.baud as int == BaudRate::Baud115200.divisor_int(),
        final(uart)@.tx_queue == Seq::<u8>::empty(),
        final(uart)@.rx_queue == Seq::<u8>::empty(),
        !final(uart)@.overrun,
        final(uart)@.sent == old(uart)@.sent + old(uart)@.tx_queue,
        pin_function_of(final(gpio).regs(), 14) == GPIOFunction::ALT5@,
        pin_function_of(final(gpio).regs(), 15) == GPIOFunction::ALT5@,
        forall|q: int|
            0 <= q < 54 && q != 14 && q != 15 ==> pin_function_of(final(gpio).regs(), q)
                == pin_function_of(old(gpio).regs(), q),
        final(gpio).regs().gplev0 == old(gpio).regs().gplev0,
        final(gpio).regs().gplev1 == old(gpio).regs().gplev1,
{
    gpio.pin_function_set(GPIOPin::PIN14, GPIOFunction::ALT5);
    gpio.pin_function_set(GPIOPin::PIN15, GPIOFunction::ALT5);

    uart.receiver_disable();
    uart.transmitter_disable();

    uart.wait_receiver_idle();
    uart.wait_transmitter_idle();

    uart.disable_transmit_interrupt();
    uart.disable_receive_interrupt();
    uart.receive_overrun_clear();

    uart.clear_transmit_fifo();
    uart.clear_receive_fifo();

    uart.set_baudrate(BaudRate::Baud115200);
    uart.set_8bit_mode();

    uart.transmitter_enable();
    uart.receiver_enable();

    proof {
        let c0 = old(uart)@.cntl;
        let e0 = old(uart)@.ier;
        let l0 = old(uart)@.lcr;
        assert(((((c0 & !1u32) & !2u32) | 2) | 1) & 2 == 2) by (bit_vector);
        assert(((((c0 & !1u32) & !2u32) | 2) | 1) & 1 == 1) by (bit_vector);
        assert(((e0 & !1u32) & !2u32) & 3 == 0) by (bit_vector);
        assert((l0 | 1) & 1 == 1) by (bit_vector);
    }
}

} // verus!
