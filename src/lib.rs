//! Driver for the AD5328, an eight-channel 12-bit DAC written to over SPI.
//!
//! Every operation encodes one or more 16-bit command words and sends each as
//! a frame: control line low, two bytes big-endian on the bus, control line high.
use vstd::prelude::*;

pub mod encode;
pub mod device;

pub use encode::{Ad5328Config, Channel, BUF, GAIN, LDAC, VDD};
pub use device::{Ad5328, BusOp, ControlLine, Error, SpiWrite};
