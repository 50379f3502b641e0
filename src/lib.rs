//! Transaction assembly and signing core of a hardware-wallet application.
//!
//! The library holds the session state, decodes commands and their payloads,
//! and runs the transaction assembler as an explicit state machine. Curve
//! arithmetic, key derivation, signing and user confirmation are outside
//! work: the assembler asks for it through actions and takes the results
//! back through events.
pub mod buffer;
pub mod context;
pub mod error;
pub mod field;
pub mod hash;
pub mod instruction;
pub mod laws;
pub mod path;
pub mod signature;
pub mod tx;
