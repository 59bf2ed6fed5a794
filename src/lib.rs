//! Marshaling of AssemblyScript strings across the WebAssembly host/guest
//! boundary: single-assignment binding of guest capabilities, bounds-checked
//! access to linear memory, and the `lift` / `lower` string conversions.

pub mod layout;
pub mod context;
pub mod guest;
pub mod marshal;
