//! Simulation core of a terminal N-body simulator: the bounded diagnostic
//! log, the live settings panel, the engine's input and tick decisions, and
//! the integer parts of the physics step (which pairs interact, which bodies
//! the recentering averages over).
pub mod engine;
pub mod log;
pub mod physics;
pub mod settings;
pub mod text;
