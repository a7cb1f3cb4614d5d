//! Driver logic for a programmable I/O coprocessor block: a 32-word shared
//! instruction memory with a first-fit allocator, register-level primitives
//! for four independent execution units, and a configuration builder that
//! turns a compiled program plus its tunable parameters into an ordered
//! sequence of register writes.
//!
//! Hardware registers are modeled as plain values ([`registers::RegisterBlock`]);
//! an unverified adapter outside this crate mirrors the model onto the
//! memory-mapped peripheral.

pub mod builder;
pub mod controller;
pub mod divisor;
pub mod memory;
pub mod program;
pub mod registers;

pub use builder::BuildError;
pub use builder::Buffers;
pub use builder::PIOBuilder;
pub use controller::Instance;
pub use controller::PIO;
pub use controller::StateMachine;
pub use divisor::ClockDivisor;
pub use program::Program;
pub use program::SideSet;
pub use registers::RegisterBlock;
