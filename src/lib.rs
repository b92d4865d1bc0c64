//! Binary instruction codec for a flash-loan arbitrage program: a one-byte
//! discriminant followed by a variant-specific payload of little-endian
//! integers and raw bytes.

pub mod instruction;
pub mod wire;

pub use instruction::{DecodeError, FlashloanArbitrageInstruction, InstructionView};
