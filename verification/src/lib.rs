//! Driver core for BMP5-class barometric pressure and temperature sensors on
//! an I2C bus.
//!
//! The driver is written without I/O of its own. It decides which bus
//! transaction or delay comes next and what each answer means; the caller
//! performs the transaction and hands the answer back. Every decision is
//! stated as a contract over the register-level protocol and proved.

pub mod bus;
pub mod config;
pub mod constants;
pub mod guarantees;
pub mod i2c;
pub mod measurement;

pub use config::{Config, IIRFilter, Oversampling, OutputDataRate};
pub use measurement::Measurement;
