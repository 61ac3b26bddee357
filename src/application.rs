use vstd::prelude::*;
use crate::acquire::Signal as AcquireSignal;
use crate::generator::{Form, Signal as GeneratorSignal, Source};
use crate::graph::{Signal as GraphSignal, Widget as GraphWidget};
use crate::level::clamp;
use crate::paint::{whole, whole_exec, Color, PaintOp};
use crate::scales::{Ratio, Scales};
use crate::trigger::Signal as TriggerSignal;

verus! {

/// The root coordinator's signals: every instrument action a panel can ask
/// for, a repaint after an acquisition tick, and quitting.
#[derive(Clone, Copy, Debug, PartialEq, Eq, Structural)]
pub enum Signal {
    AcquireStart,
    AcquireStop,
    GeneratorAmplitude(Source, i32),
    GeneratorOffset(Source, i32),
    GeneratorFrequency(Source, u32),
    GeneratorDutyCycle(Source, i32),
    GeneratorStart(Source),
    GeneratorStop(Source),
    GeneratorSignal(Source, Form),
    GraphDraw,
    TriggerDelay(u16),
    TriggerLevel(i32),
    Quit,
}

impl Signal {
    /// The variant's name, qualified by the type.
    pub open spec fn variant_name(self) -> Seq<char> {
        match self {
            Signal::AcquireStart => "Signal::AcquireStart"@,
            Signal::AcquireStop => "Signal::AcquireStop"@,
            Signal::GeneratorAmplitude(_, _) => "Signal::GeneratorAmplitude"@,
            Signal::GeneratorOffset(_, _) => "Signal::GeneratorOffset"@,
            Signal::GeneratorFrequency(_, _) => "Signal::GeneratorFrequency"@,
            Signal::GeneratorDutyCycle(_, _) => "Signal::GeneratorDutyCycle"@,
            Signal::GeneratorStart(_) => "Signal::GeneratorStart"@,
            Signal::GeneratorStop(_) => "Signal::GeneratorStop"@,
            Signal::GeneratorSignal(_, _) => "Signal::GeneratorSignal"@,
            Signal::GraphDraw => "Signal::GraphDraw"@,
            Signal::TriggerDelay(_) => "Signal::TriggerDelay"@,
            Signal::TriggerLevel(_) => "Signal::TriggerLevel"@,
            Signal::Quit => "Signal::Quit"@,
        }
    }

    /// The variant's name, for diagnostics.
    pub fn display_variant(&self) -> (r: &'static str)
        ensures
            r@ == self.variant_name(),
    {
        match *self {
            Signal::AcquireStart => "Signal::AcquireStart",
            Signal::AcquireStop => "Signal::AcquireStop",
            Signal::GeneratorAmplitude(_, _) => "Signal::GeneratorAmplitude",
            Signal::GeneratorOffset(_, _) => "Signal::GeneratorOffset",
            Signal::GeneratorFrequency(_, _) => "Signal::GeneratorFrequency",
            Signal::GeneratorDutyCycle(_, _) => "Signal::GeneratorDutyCycle",
            Signal::GeneratorStart(_) => "Signal::GeneratorStart",
            Signal::GeneratorStop(_) => "Signal::GeneratorStop",
            Signal::GeneratorSignal(_, _) => "Signal::GeneratorSignal",
            Signal::GraphDraw => "Signal::GraphDraw",
            Signal::TriggerDelay(_) => "Signal::TriggerDelay",
            Signal::TriggerLevel(_) => "Signal::TriggerLevel",
            Signal::Quit => "Signal::Quit",
        }
    }
}

/// A signal emitted by one of the root's child panels.
#[derive(Clone, Copy, Debug, PartialEq, Eq, Structural)]
pub enum Child {
    Acquire(AcquireSignal),
    Generator(GeneratorSignal),
    Graph(GraphSignal),
    Trigger(TriggerSignal),
}

/// An operation for the instrument or the event loop, carried out outside the
/// library in the order given.
#[derive(Clone, Copy, Debug, PartialEq, Eq, Structural)]
pub enum Command {
    AcquireStart,
    AcquireStop,
    GeneratorAmplitude(Source, i32),
    GeneratorOffset(Source, i32),
    GeneratorFrequency(Source, u32),
    GeneratorDutyCycle(Source, i32),
    GeneratorStart(Source),
    GeneratorStop(Source),
    GeneratorSignal(Source, Form),
    /// Read every sample of the first input and hand them to `on_samples`.
    ReadAll,
    TriggerDelay(u16),
    TriggerLevel(i32),
    /// End the event loop.
    Quit,
}

/// The parent signal for a child signal, or `None` when the root does not
/// listen to it.
pub open spec fn map_child(c: Child) -> Option<Signal> {
    match c {
        Child::Acquire(AcquireSignal::Start) => Some(Signal::AcquireStart),
        Child::Acquire(AcquireSignal::Stop) => Some(Signal::AcquireStop),
        Child::Generator(GeneratorSignal::Amplitude(s, v)) => Some(Signal::GeneratorAmplitude(s, v)),
        Child::Generator(GeneratorSignal::Offset(s, v)) => Some(Signal::GeneratorOffset(s, v)),
        Child::Generator(GeneratorSignal::Frequency(s, v)) => Some(Signal::GeneratorFrequency(s, v)),
        Child::Generator(GeneratorSignal::DutyCycle(s, v)) => Some(Signal::GeneratorDutyCycle(s, v)),
        Child::Generator(GeneratorSignal::Start(s)) => Some(Signal::GeneratorStart(s)),
        Child::Generator(GeneratorSignal::Stop(s)) => Some(Signal::GeneratorStop(s)),
        Child::Generator(GeneratorSignal::Signal(s, f)) => Some(Signal::GeneratorSignal(s, f)),
        Child::Graph(GraphSignal::Draw) => Some(Signal::GraphDraw),
        Child::Graph(GraphSignal::Level(_, _)) => None,
        Child::Trigger(TriggerSignal::Delay(v)) => Some(Signal::TriggerDelay(v)),
        Child::Trigger(TriggerSignal::Level(v)) => Some(Signal::TriggerLevel(v)),
    }
}

/// Maps a child signal to the root's signal.
pub fn map_child_exec(c: Child) -> (r: Option<Signal>)
    ensures
        r == map_child(c),
{
    match c {
        Child::Acquire(AcquireSignal::Start) => Some(Signal::AcquireStart),
        Child::Acquire(AcquireSignal::Stop) => Some(Signal::AcquireStop),
        Child::Generator(GeneratorSignal::Amplitude(s, v)) => Some(Signal::GeneratorAmplitude(s, v)),
        Child::Generator(GeneratorSignal::Offset(s, v)) => Some(Signal::GeneratorOffset(s, v)),
        Child::Generator(GeneratorSignal::Frequency(s, v)) => Some(Signal::GeneratorFrequency(s, v)),
        Child::Generator(GeneratorSignal::DutyCycle(s, v)) => Some(Signal::GeneratorDutyCycle(s, v)),
        Child::Generator(GeneratorSignal::Start(s)) => Some(Signal::GeneratorStart(s)),
        Child::Generator(GeneratorSignal::Stop(s)) => Some(Signal::GeneratorStop(s)),
        Child::Generator(GeneratorSignal::Signal(s, f)) => Some(Signal::GeneratorSignal(s, f)),
        Child::Graph(GraphSignal::Draw) => Some(Signal::GraphDraw),
        Child::Graph(GraphSignal::Level(_, _)) => None,
        Child::Trigger(TriggerSignal::Delay(v)) => Some(Signal::TriggerDelay(v)),
        Child::Trigger(TriggerSignal::Level(v)) => Some(Signal::TriggerLevel(v)),
    }
}

/// The commands a signal asks for while the loop runs.
pub open spec fn commands_for(s: Signal) -> Seq<Command> {
    match s {
        Signal::AcquireStart => seq![Command::AcquireStart],
        Signal::AcquireStop => seq![Command::AcquireStop],
        Signal::GeneratorAmplitude(src, v) => seq![Command::GeneratorAmplitude(src, v)],
        Signal::GeneratorOffset(src, v) => seq![Command::GeneratorOffset(src, v)],
        Signal::GeneratorFrequency(src, v) => seq![Command::GeneratorFrequency(src, v)],
        Signal::GeneratorDutyCycle(src, v) => seq![Command::GeneratorDutyCycle(src, v)],
        Signal::GeneratorStart(src) => seq![Command::GeneratorStart(src)],
        Signal::GeneratorStop(src) => seq![Command::GeneratorStop(src)],
        Signal::GeneratorSignal(src, f) => seq![Command::GeneratorSignal(src, f)],
        Signal::GraphDraw => seq![Command::ReadAll],
        Signal::TriggerDelay(v) => seq![Command::TriggerDelay(v)],
        Signal::TriggerLevel(v) => seq![Command::TriggerLevel(v)],
        Signal::Quit => seq![
            Command::AcquireStop,
            Command::GeneratorStop(Source::Out1),
            Command::GeneratorStop(Source::Out2),
            Command::Quit,
        ],
    }
}

/// Parts of the vertical range that the grid pass's line width is.
pub const FRAME_LINE_PARTS: i128 = 100;

/// Parts of the vertical range that the trace's line width is.
pub const TRACE_LINE_PARTS: i128 = 20;

/// Point `i` of the trace: sample index `i` against its value, the first
/// point starting the path.
pub open spec fn trace_point(data: Seq<i32>, i: int) -> PaintOp {
    if i == 0 {
        PaintOp::MoveTo(whole(i), whole(data[i] as int))
    } else {
        PaintOp::LineTo(whole(i), whole(data[i] as int))
    }
}

pub open spec fn trace_path(data: Seq<i32>) -> Seq<PaintOp> {
    Seq::new(data.len(), |i: int| trace_point(data, i))
}

/// The waveform layer: the samples as one connected polyline.
pub open spec fn trace_ops(data: Seq<i32>) -> Seq<PaintOp> {
    seq![
        PaintOp::SetLineWidth(Ratio { num: 1, den: TRACE_LINE_PARTS }),
        PaintOp::SetColor(Color::Trace),
    ] + trace_path(data) + seq![PaintOp::Stroke]
}

/// The trigger marker: a line across the sample range at the trigger level,
/// clipped to the value range.
pub open spec fn trigger_ops(s: Scales, level: i32) -> Seq<PaintOp> {
    let y = whole(clamp(level as int, s.v.min as int, s.v.max as int));
    seq![
        PaintOp::SetColor(Color::Trigger),
        PaintOp::MoveTo(whole(s.h.min as int), y),
        PaintOp::LineTo(whole(s.h.max as int), y),
        PaintOp::Stroke,
    ]
}

/// The layers that do not depend on the samples: transform, grid panel, and
/// trigger marker.
pub open spec fn base_ops(s: Scales, graph: GraphWidget, level: i32, width: u32, height: u32) -> Seq<PaintOp> {
    seq![
        PaintOp::SetMatrix(s.matrix_of(width, height)),
        PaintOp::SetLineWidth(Ratio { num: 1, den: FRAME_LINE_PARTS }),
    ] + graph.draw_spec(s) + trigger_ops(s, level)
}

fn trigger_exec(s: &Scales, level: i32) -> (r: Vec<PaintOp>)
    requires
        s.valid(),
    ensures
        r@ == trigger_ops(*s, level),
{
    let y = if level < s.v.min {
        s.v.min
    } else if level > s.v.max {
        s.v.max
    } else {
        level
    };
    let y = whole_exec(y as i64);
    let mut r: Vec<PaintOp> = Vec::new();
    r.push(PaintOp::SetColor(Color::Trigger));
    r.push(PaintOp::MoveTo(whole_exec(s.h.min as i64), y));
    r.push(PaintOp::LineTo(whole_exec(s.h.max as i64), y));
    r.push(PaintOp::Stroke);
    assert(r@ =~= trigger_ops(*s, level));
    r
}

fn trace_exec(data: &Vec<i32>) -> (r: Vec<PaintOp>)
    ensures
        r@ == trace_ops(data@),
{
    let mut r: Vec<PaintOp> = Vec::new();
    r.push(PaintOp::SetLineWidth(Ratio { num: 1, den: TRACE_LINE_PARTS }));
    r.push(PaintOp::SetColor(Color::Trace));
    let ghost head = r@;
    let mut i: usize = 0;
    while i < data.len()
        invariant
            i <= data@.len(),
            head == seq![
                PaintOp::SetLineWidth(Ratio { num: 1, den: TRACE_LINE_PARTS }),
                PaintOp::SetColor(Color::Trace),
            ],
            r@ == head + Seq::new(i as nat, |k: int| trace_point(data@, k)),
        decreases data@.len() - i,
    {
        let x = Ratio { num: i as i128, den: 1 };
        let y = whole_exec(data[i] as i64);
        if i == 0 {
            r.push(PaintOp::MoveTo(x, y));
        } else {
            r.push(PaintOp::LineTo(x, y));
        }
        assert(r@ =~= head + Seq::new((i + 1) as nat, |k: int| trace_point(data@, k)));
        i = i + 1;
    }
    r.push(PaintOp::Stroke);
    assert(r@ =~= trace_ops(data@));
    r
}

/// The root coordinator's state: the fixed ranges, the graph panel, the
/// latest samples, the trigger level, the pending signals in arrival order,
/// whether the loop still runs, whether the last instrument command failed,
/// and whether the instrument has confirmed that acquisition runs.
pub struct Application {
    pub scales: Scales,
    pub graph: GraphWidget,
    pub data: Vec<i32>,
    pub trigger_level: i32,
    pub queue: Vec<Signal>,
    pub running: bool,
    pub failed: bool,
    pub acquiring: bool,
}

impl Application {
    /// A whole frame for a surface of `width` by `height` pixels: nothing at
    /// all on a surface without area; else the base layers, then the
    /// waveform while acquisition runs.
    pub open spec fn frame(self, width: u32, height: u32) -> Seq<PaintOp> {
        if width == 0 || height == 0 {
            Seq::empty()
        } else if self.acquiring {
            base_ops(self.scales, self.graph, self.trigger_level, width, height) + trace_ops(self.data@)
        } else {
            base_ops(self.scales, self.graph, self.trigger_level, width, height)
        }
    }

    /// A running coordinator with empty buffer and queue over `scales`.
    pub fn new(scales: Scales) -> (r: Application)
        ensures
            r.scales == scales,
            r.graph == GraphWidget::new_spec(),
            r.data@.len() == 0,
            r.trigger_level == 0,
            r.queue@.len() == 0,
            r.running,
            !r.failed,
            !r.acquiring,
    {
        Application {
            scales,
            graph: GraphWidget::new(),
            data: Vec::new(),
            trigger_level: 0,
            queue: Vec::new(),
            running: true,
            failed: false,
            acquiring: false,
        }
    }

    /// Appends a signal at the end of the queue.
    pub fn emit(&mut self, s: Signal)
        ensures
            final(self).queue@ == old(self).queue@.push(s),
            final(self).scales == old(self).scales,
            final(self).graph == old(self).graph,
            final(self).data@ == old(self).data@,
            final(self).trigger_level == old(self).trigger_level,
            final(self).running == old(self).running,
            final(self).failed == old(self).failed,
            final(self).acquiring == old(self).acquiring,
    {
        self.queue.push(s);
    }

    /// Feeds a child's signal through its mapping: a mapped one joins the
    /// end of the queue, an unmapped one is dropped.
    pub fn route(&mut self, c: Child)
        ensures
            map_child(c) matches Some(s) ==> final(self).queue@ == old(self).queue@.push(s),
            map_child(c) is None ==> final(self).queue@ == old(self).queue@,
            final(self).scales == old(self).scales,
            final(self).graph == old(self).graph,
            final(self).data@ == old(self).data@,
            final(self).trigger_level == old(self).trigger_level,
            final(self).running == old(self).running,
            final(self).failed == old(self).failed,
            final(self).acquiring == old(self).acquiring,
    {
        match map_child_exec(c) {
            Some(s) => self.emit(s),
            None => {},
        }
    }

    /// Takes the oldest pending signal; once the loop has ended nothing is
    /// handed out and the queue is dropped.
    pub fn next(&mut self) -> (r: Option<Signal>)
        ensures
            !old(self).running ==> r.is_none() && final(self).queue@.len() == 0,
            old(self).running && old(self).queue@.len() == 0 ==> r.is_none() && final(self).queue@
                == old(self).queue@,
            old(self).running && old(self).queue@.len() > 0 ==> r == Some(old(self).queue@[0])
                && final(self).queue@ == old(self).queue@.drop_first(),
            final(self).scales == old(self).scales,
            final(self).graph == old(self).graph,
            final(self).data@ == old(self).data@,
            final(self).trigger_level == old(self).trigger_level,
            final(self).running == old(self).running,
            final(self).failed == old(self).failed,
            final(self).acquiring == old(self).acquiring,
    {
        if !self.running {
            self.queue.clear();
            return None;
        }
        if self.queue.len() == 0 {
            return None;
        }
        Some(self.queue.remove(0))
    }

    /// Handles one signal: the commands it asks for, in order. Quitting
    /// stops acquisition and both generator outputs before ending the loop;
    /// after that no signal asks for anything.
    pub fn update(&mut self, s: Signal) -> (r: Vec<Command>)
        ensures
            old(self).running ==> r@ == commands_for(s),
            !old(self).running ==> r@.len() == 0,
            final(self).running == (old(self).running && s != Signal::Quit),
            final(self).scales == old(self).scales,
            final(self).graph == old(self).graph,
            final(self).data@ == old(self).data@,
            final(self).trigger_level == old(self).trigger_level,
            final(self).queue@ == old(self).queue@,
            final(self).failed == old(self).failed,
            final(self).acquiring == old(self).acquiring,
    {
        let mut r: Vec<Command> = Vec::new();
        if !self.running {
            return r;
        }
        match s {
            Signal::AcquireStart => r.push(Command::AcquireStart),
            Signal::AcquireStop => r.push(Command::AcquireStop),
            Signal::GeneratorAmplitude(src, v) => r.push(Command::GeneratorAmplitude(src, v)),
            Signal::GeneratorOffset(src, v) => r.push(Command::GeneratorOffset(src, v)),
            Signal::GeneratorFrequency(src, v) => r.push(Command::GeneratorFrequency(src, v)),
            Signal::GeneratorDutyCycle(src, v) => r.push(Command::GeneratorDutyCycle(src, v)),
            Signal::GeneratorStart(src) => r.push(Command::GeneratorStart(src)),
            Signal::GeneratorStop(src) => r.push(Command::GeneratorStop(src)),
            Signal::GeneratorSignal(src, f) => r.push(Command::GeneratorSignal(src, f)),
            Signal::GraphDraw => r.push(Command::ReadAll),
            Signal::TriggerDelay(v) => r.push(Command::TriggerDelay(v)),
            Signal::TriggerLevel(v) => r.push(Command::TriggerLevel(v)),
            Signal::Quit => {
                r.push(Command::AcquireStop);
                r.push(Command::GeneratorStop(Source::Out1));
                r.push(Command::GeneratorStop(Source::Out2));
                r.push(Command::Quit);
                self.running = false;
            },
        }
        assert(r@ =~= commands_for(s));
        r
    }

    /// Records how a command went. A failure raises the failure indicator
    /// and changes nothing else; a success clears it, and a trigger level
    /// that the instrument accepted becomes the one drawn, as does a start
    /// or stop of acquisition.
    pub fn on_result(&mut self, c: Command, ok: bool)
        ensures
            final(self).failed == !ok,
            final(self).trigger_level == (match c {
                Command::TriggerLevel(v) if ok => v,
                _ => old(self).trigger_level,
            }),
            final(self).scales == old(self).scales,
            final(self).graph == old(self).graph,
            final(self).data@ == old(self).data@,
            final(self).queue@ == old(self).queue@,
            final(self).running == old(self).running,
            final(self).acquiring == (match c {
                Command::AcquireStart if ok => true,
                Command::AcquireStop if ok => false,
                _ => old(self).acquiring,
            }),
    {
        if ok {
            match c {
                Command::AcquireStart => self.acquiring = true,
                Command::AcquireStop => self.acquiring = false,
                _ => {},
            }
            if let Command::TriggerLevel(v) = c {
                self.trigger_level = v;
            }
        }
        self.failed = !ok;
    }

    /// Paints one whole frame, in order: transform, grid panel with its
    /// level meters, trigger marker, then the waveform while acquisition
    /// runs. A surface without area gets no paint operation at all.
    pub fn draw(&self, width: u32, height: u32) -> (r: Vec<PaintOp>)
        requires
            self.scales.valid(),
        ensures
            r@ == self.frame(width, height),
    {
        let mut r: Vec<PaintOp> = Vec::new();
        let m = match self.scales.transform(width, height) {
            Some(m) => m,
            None => return r,
        };
        r.push(PaintOp::SetMatrix(m));
        r.push(PaintOp::SetLineWidth(Ratio { num: 1, den: FRAME_LINE_PARTS }));
        let mut panel = self.graph.draw(&self.scales);
        r.append(&mut panel);
        let mut marker = trigger_exec(&self.scales, self.trigger_level);
        r.append(&mut marker);
        assert(r@ =~= base_ops(self.scales, self.graph, self.trigger_level, width, height));
        if self.acquiring {
            let mut trace = trace_exec(&self.data);
            r.append(&mut trace);
        }
        r
    }

    /// Replaces the sample buffer wholesale with a fresh read.
    pub fn on_samples(&mut self, samples: Vec<i32>)
        ensures
            final(self).data@ == samples@,
            final(self).scales == old(self).scales,
            final(self).graph == old(self).graph,
            final(self).trigger_level == old(self).trigger_level,
            final(self).queue@ == old(self).queue@,
            final(self).running == old(self).running,
            final(self).failed == old(self).failed,
            final(self).acquiring == old(self).acquiring,
    {
        self.data = samples;
    }
}

/// The source, number and waveform shape a signal carries, whichever of
/// them it has.
pub open spec fn signal_payload(s: Signal) -> (Option<Source>, Option<int>, Option<Form>) {
    match s {
        Signal::GeneratorAmplitude(src, v) => (Some(src), Some(v as int), None),
        Signal::GeneratorOffset(src, v) => (Some(src), Some(v as int), None),
        Signal::GeneratorFrequency(src, v) => (Some(src), Some(v as int), None),
        Signal::GeneratorDutyCycle(src, v) => (Some(src), Some(v as int), None),
        Signal::GeneratorStart(src) => (Some(src), None, None),
        Signal::GeneratorStop(src) => (Some(src), None, None),
        Signal::GeneratorSignal(src, f) => (Some(src), None, Some(f)),
        Signal::TriggerDelay(v) => (None, Some(v as int), None),
        Signal::TriggerLevel(v) => (None, Some(v as int), None),
        _ => (None, None, None),
    }
}

/// The source, number and waveform shape a child signal carries.
pub open spec fn child_payload(c: Child) -> (Option<Source>, Option<int>, Option<Form>) {
    match c {
        Child::Generator(GeneratorSignal::Amplitude(src, v)) => (Some(src), Some(v as int), None),
        Child::Generator(GeneratorSignal::Offset(src, v)) => (Some(src), Some(v as int), None),
        Child::Generator(GeneratorSignal::Frequency(src, v)) => (Some(src), Some(v as int), None),
        Child::Generator(GeneratorSignal::DutyCycle(src, v)) => (Some(src), Some(v as int), None),
        Child::Generator(GeneratorSignal::Start(src)) => (Some(src), None, None),
        Child::Generator(GeneratorSignal::Stop(src)) => (Some(src), None, None),
        Child::Generator(GeneratorSignal::Signal(src, f)) => (Some(src), None, Some(f)),
        Child::Trigger(TriggerSignal::Delay(v)) => (None, Some(v as int), None),
        Child::Trigger(TriggerSignal::Level(v)) => (None, Some(v as int), None),
        _ => (None, None, None),
    }
}

/// Routing a child signal yields at most one root signal, which carries the
/// child's payload unchanged; distinct child signals yield distinct root
/// signals; only the level meters' signals are left unmapped, and routing
/// one of those leaves the queue as it was.
pub proof fn lemma_routing(c: Child, d: Child, before: Seq<Signal>, after: Seq<Signal>)
    requires
        map_child(c) matches Some(s) ==> after == before.push(s),
        map_child(c) is None ==> after == before,
    ensures
        map_child(c) is None <==> (c matches Child::Graph(GraphSignal::Level(_, _))),
        map_child(c) matches Some(s) ==> signal_payload(s) == child_payload(c),
        map_child(c) is Some && map_child(c) == map_child(d) ==> c == d,
        map_child(c) matches Some(s) ==> after.len() == before.len() + 1 && after.last() == s,
        map_child(c) is None ==> after == before,
{
}

/// Drawing reads nothing but the ranges, the graph panel, the trigger level,
/// the samples, whether acquisition runs, and the surface size: with those
/// unchanged, a second draw paints the same frame as the first.
pub proof fn lemma_draw_repeatable(a: Application, b: Application, width: u32, height: u32)
    requires
        a.scales == b.scales,
        a.graph == b.graph,
        a.trigger_level == b.trigger_level,
        a.data@ == b.data@,
        a.acquiring == b.acquiring,
    ensures
        a.frame(width, height) == b.frame(width, height),
{
}

/// Once a read has replaced the buffer, the next frame drawn during
/// acquisition traces exactly the samples read, over the unchanged base
/// layers.
pub proof fn lemma_fresh_samples_drawn(
    before: Application,
    after: Application,
    samples: Seq<i32>,
    width: u32,
    height: u32,
)
    requires
        after.data@ == samples,
        after.scales == before.scales,
        after.graph == before.graph,
        after.trigger_level == before.trigger_level,
        after.acquiring,
        width > 0,
        height > 0,
    ensures
        after.frame(width, height) == base_ops(
            before.scales,
            before.graph,
            before.trigger_level,
            width,
            height,
        ) + trace_ops(samples),
        trace_path(samples).len() == samples.len(),
        forall|i: int|
            0 <= i < samples.len() ==> trace_path(samples)[i] == trace_point(samples, i),
{
}

} // verus!
