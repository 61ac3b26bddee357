use vstd::prelude::*;

verus! {

/// One of the two generator outputs.
#[derive(Clone, Copy, Debug, PartialEq, Eq, Structural)]
pub enum Source {
    Out1,
    Out2,
}

/// Waveform shapes a generator output can produce.
#[derive(Clone, Copy, Debug, PartialEq, Eq, Structural)]
pub enum Form {
    Sine,
    Square,
    Triangle,
    SawUp,
    SawDown,
    Dc,
    Pwm,
    Arbitrary,
}

/// What the generator panel emits. Amplitude and offset are in millivolts,
/// the duty cycle in thousandths, the frequency in hertz.
#[derive(Clone, Copy, Debug, PartialEq, Eq, Structural)]
pub enum Signal {
    Amplitude(Source, i32),
    Offset(Source, i32),
    Frequency(Source, u32),
    DutyCycle(Source, i32),
    Start(Source),
    Stop(Source),
    Signal(Source, Form),
}

} // verus!
