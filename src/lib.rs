//! Driver for the ADS1115 16-bit analog-to-digital converter on an I2C bus.
//!
//! The library holds the device protocol: configuration bit-fields, register
//! framing, the uninitialized/initialized lifecycle and the single-shot
//! conversion sequence. Bus traffic itself is performed by the caller, which
//! hands each transaction's reply back to the driver.
pub mod config;
pub mod driver;
pub mod registers;

pub use config::{DataRate, DifferentialChannel, Gain, SingleEndedChannel};
pub use driver::{
    Ads1115, Ads1115Uninit, ClockSpeed, ErrorKind, InitStep, Initializing, ReadPhase, ReadStep,
    SingleRead, TimingSetting,
};
pub use registers::Transaction;
