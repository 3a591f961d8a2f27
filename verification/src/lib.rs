//! Hardware-independent logic of a small STM32 support library.
//!
//! Nothing in this crate touches a register.  Every handler takes the register
//! values that were read when the interrupt was taken and returns, in order,
//! the operations that the caller has to carry out on the hardware.  What the
//! handlers decide is stated in their contracts and proved.

pub mod debug;
pub mod i2c;
pub mod interrupt;
pub mod usb;
