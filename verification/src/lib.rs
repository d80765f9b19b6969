//! Driver for the MAX17048 single-cell fuel gauge on a two-wire bus.
//!
//! The chip's registers are sixteen bits wide and travel high byte first.
//! `register` holds the register map and the arithmetic on raw values,
//! `bus` the record of what was asked of the transport, and `gauge` the
//! driver itself.

pub mod bus;
pub mod gauge;
pub mod register;

pub use bus::Transport;
pub use gauge::Max17048;
