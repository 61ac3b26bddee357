use vstd::prelude::*;

verus! {

/// What the trigger panel emits: a new delay in samples, or a new level in
/// millivolts.
#[derive(Clone, Copy, Debug, PartialEq, Eq, Structural)]
pub enum Signal {
    Delay(u16),
    Level(i32),
}

} // verus!
