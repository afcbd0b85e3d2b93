//! A CHIP-8 / Super-CHIP interpreter core.
//!
//! The machine's behaviour is stated over a mathematical model,
//! [`model::MachineState`], and every function of the machine is proved to
//! do what the model says:
//!
//! - [`model`], [`display`] and [`semantics`] define the model: the state,
//!   the display operations pixel by pixel, and the effect of each
//!   instruction, key event and timer tick;
//! - [`instruction`] holds the instruction set and the decoder;
//! - [`raster`], [`low_res`] and [`high_res`] implement the bit-packed frame
//!   buffers;
//! - [`chip_core`] and [`interpreter`] implement the machine;
//! - [`laws`] proves properties of the model;
//! - [`entropy`] is the door to the random generator, the one part that is
//!   taken on trust.

pub mod chip_core;
pub mod display;
pub mod entropy;
pub mod font;
pub mod high_res;
pub mod instruction;
pub mod interpreter;
pub mod laws;
pub mod low_res;
pub mod model;
pub mod raster;
pub mod semantics;

pub use chip_core::ChipCore;
pub use instruction::Instruction;
pub use model::{DisplayMode, KeyWait};
