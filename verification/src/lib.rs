use vstd::prelude::*;

pub mod choices;
pub mod volatile;
pub mod state;
pub mod instruction;
pub mod gen2;
pub mod gen_dispatch;

verus! {

/// Lowest generation the runtime generation facade accepts.
pub const MIN_GEN: u8 = 4;

/// Highest generation the runtime generation facade accepts.
pub const MAX_GEN: u8 = 9;

/// Generation used by entry points that are not given one.
pub const DEFAULT_GEN: u8 = 9;

/// Range guard for a generation given as a const parameter.
pub struct AssertGenInRange<const GEN: u8>;

impl<const GEN: u8> AssertGenInRange<GEN> {
    /// Whether `GEN` lies in `MIN_GEN..=MAX_GEN`.
    pub fn check() -> (r: bool)
        ensures
            r == (MIN_GEN <= GEN && GEN <= MAX_GEN),
    {
        MIN_GEN <= GEN && GEN <= MAX_GEN
    }
}

} // verus!
