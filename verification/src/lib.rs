//! Driver core for a single-board computer's auxiliary peripheral block:
//! the mini UART serial channel and the GPIO pin multiplexer.
//!
//! Hardware registers are modelled as explicit register-file state, so that
//! every read, write and read-modify-write carries an exact contract. The
//! UART model keeps the transmit and receive FIFOs and the bytes already
//! shifted onto the line, which lets the bring-up protocol and the
//! send/receive discipline be verified end to end. A peripheral ownership
//! guard hands out at most one handle per peripheral at a time.

pub mod aux;
pub mod bits;
pub mod gpio;
pub mod uart;

pub use bits::{register_volatile_and, register_volatile_or};
