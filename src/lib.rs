//! Transparent inputs and outputs of a Zcash transaction: their canonical
//! byte encoding, the address templates they pay to, the bundle that groups
//! them across authorization phases, and the final extraction step.

pub mod address;
pub mod bundle;
pub mod codec;
pub mod extract;
pub mod script;
pub mod test_vectors;
