//! Control logic of a microwave oven as a finite-state machine: the model of
//! its configurations, the contract every oven implements, a conformance
//! suite over that contract, and three ovens that meet it.
pub mod conformance;
pub mod flags;
pub mod ops;
pub mod simple;
pub mod state;
pub mod typed;

pub use conformance::test_microwave;
pub use ops::MicrowaveOps;
pub use state::MicrowaveState;
