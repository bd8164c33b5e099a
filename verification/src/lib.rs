//! Register-level drivers for the two APB peripherals of the AFTx06 SoC: the
//! general-purpose I/O block and the timer/counter block.
//!
//! A handle owns the contents of its peripheral's registers. Every operation
//! is a transaction on them: it reads the registers it needs, computes the new
//! values, and writes them back in a fixed order, touching only the bits it
//! owns. A handle also keeps a record of the writes it has issued, so that the
//! layer that talks to the device can replay them onto the hardware in the
//! same order: `refresh` before an operation, `take_writes` after it.
//!
//! Handles are constructed through a registry, [`apb::Peripherals`], which
//! grants each peripheral once. A mask that names more than the eight pins or
//! channels of a peripheral is refused before anything is written.

pub mod apb;
pub mod common;
