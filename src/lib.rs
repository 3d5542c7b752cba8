//! Register access for the SGM41511 battery charger over I2C: typed codecs for its
//! registers and a driver that reads and writes them.
pub mod driver;
pub mod pd;
pub mod register;
pub mod types;

pub use driver::{device_revision, interrupt_masks, I2cBus, SGM41511};
pub use pd::{Current, SrcPdo, Voltage};
pub use register::{Access, Register, REGISTER_RESET, SGM41511_ADDR};
