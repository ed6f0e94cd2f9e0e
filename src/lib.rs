//! A verified single-hart RV64 (IMAFD) instruction-set emulator core.
//!
//! - [`fields`]: instruction-word field decoders and sign extension.
//! - [`machine`]: the hart's state, its abstract view, memory and the CSR file.
//! - [`alu`], [`integer`], [`atomic`], [`float`], [`system`]: instruction semantics, each
//!   stated as a function on the abstract state and proved of the executable code.
//! - [`step`]: fetch, dispatch and trap entry.
//! - [`laws`]: properties that hold of every state.
pub mod alu;
pub mod atomic;
pub mod fields;
pub mod float;
pub mod integer;
pub mod laws;
pub mod machine;
pub mod step;
pub mod system;
