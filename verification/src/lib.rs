//! Sans-I/O drivers for two I2C sensors that share one bus.
//!
//! Each driver is a state machine that neither performs I/O nor sleeps. It
//! tells its runner what to do next, one bus transaction or one delay at a
//! time, and is told how that ended.

pub mod icm42670p;
pub mod shtc3;
pub mod transport;
pub mod word;
