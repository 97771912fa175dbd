//! Control core of an electric-vehicle power-distribution controller.
//!
//! Frames from the bus are decoded by declarative bit-level rules into a
//! registry of timestamped parameters (`parameter`, `registry`, `bits`),
//! values that are not refreshed turn unknown, and a policy engine derives
//! the outputs and the outgoing frames from the registry at five cadences
//! (`engine` and the policies `power`, `outputs`, `charging`, `aircon`,
//! `heater`, `can_tx`, `logging`).
//!
//! The core does no input or output. One tick takes the readings of the
//! board as plain values (`hardware::Inputs`) and gives back the commands
//! for the board in their order (`hardware::Action`). Measurements are
//! fixed-point numbers (`value`), so that every rule is exact integer
//! arithmetic.
//!
//! What holds of the whole is stated and proved in `bit_laws`, `encode`,
//! `decode_laws`, `policy_laws`, `iteration_laws` and `output_laws`.

pub mod aircon;
pub mod bit_laws;
pub mod bits;
pub mod can_simulator;
pub mod can_tx;
pub mod command_accumulator;
pub mod charging;
pub mod console;
pub mod decode_laws;
pub mod encode;
pub mod engine;
pub mod frame;
pub mod hardware;
pub mod heater;
pub mod iteration_laws;
pub mod logging;
pub mod names;
pub mod output_laws;
pub mod outputs;
pub mod parameter;
pub mod parameters;
pub mod policy_laws;
pub mod power;
pub mod queue;
pub mod registry;
pub mod state;
pub mod text;
pub mod value;
