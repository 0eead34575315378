//! The generation 2 engine's rules on the shared battle state.
pub mod state;
pub mod laws;
pub mod rules;
