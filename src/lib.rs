//! Reads the CLI metadata of a managed-code PE image and lowers its methods
//! into a WebAssembly module.
pub mod bytes;
pub mod cil;
pub mod compiler;
pub mod compressed;
pub mod error;
pub mod heap;
pub mod image;
pub mod indices;
pub mod lower;
pub mod metadata;
pub mod phases;
pub mod resolve;
pub mod signatures;
pub mod tables;
pub mod token;
pub mod wasm;
