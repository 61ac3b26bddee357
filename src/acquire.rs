use vstd::prelude::*;

verus! {

/// What the acquisition panel emits when its toggle is switched.
#[derive(Clone, Copy, Debug, PartialEq, Eq, Structural)]
pub enum Signal {
    Start,
    Stop,
}

/// The signal for the toggle's new state.
pub fn toggled(active: bool) -> (r: Signal)
    ensures
        r == (if active { Signal::Start } else { Signal::Stop }),
{
    if active {
        Signal::Start
    } else {
        Signal::Stop
    }
}

} // verus!
