use redpitaya_gtk::acquire;
use redpitaya_gtk::application::{map_child_exec, Application, Child, Command, Signal};
use redpitaya_gtk::generator::{self, Form, Source};
use redpitaya_gtk::graph::{self, Invalidation, Widget as GraphWidget};
use redpitaya_gtk::grid::{axis_lines, grid};
use redpitaya_gtk::level::{Orientation, Signal as LevelSignal, Widget as LevelWidget};
use redpitaya_gtk::paint::{Color, PaintOp};
use redpitaya_gtk::palette::{Palette, Signal as PaletteSignal};
use redpitaya_gtk::scales::{Ratio, ScaleError, Scales};

fn value(r: Ratio) -> f64 {
    r.num as f64 / r.den as f64
}

fn instrument_scales() -> Scales {
    Scales::new((0, 16384), (-5, 5)).unwrap()
}

#[test]
fn transform_maps_scenario_points() {
    let s = instrument_scales();
    let m = s.transform(800, 400).unwrap();
    let (x, y) = m.apply(8192, 0);
    assert_eq!((value(x), value(y)), (400.0, 200.0));
    let (x, y) = m.apply(0, 5);
    assert_eq!((value(x), value(y)), (0.0, 0.0));
    let (x, y) = m.apply(16384, -5);
    assert_eq!((value(x), value(y)), (800.0, 400.0));
}

#[test]
fn transform_matrix_coefficients() {
    let s = Scales::new((100, 300), (-10, 30)).unwrap();
    let m = s.transform(400, 80).unwrap();
    assert_eq!(value(Ratio { num: m.x_scale, den: m.x_den }), 2.0);
    assert_eq!(value(Ratio { num: m.x_offset, den: m.x_den }), -200.0);
    assert_eq!(value(Ratio { num: m.y_scale, den: m.y_den }), -2.0);
    assert_eq!(value(Ratio { num: m.y_offset, den: m.y_den }), 60.0);
    let (x, y) = m.apply(200, 10);
    assert_eq!((value(x), value(y)), (200.0, 40.0));
}

#[test]
fn transform_skips_degenerate_surface() {
    let s = instrument_scales();
    assert!(s.transform(0, 0).is_none());
    assert!(s.transform(800, 0).is_none());
    assert!(s.transform(0, 400).is_none());
}

#[test]
fn invalid_scales_are_rejected() {
    assert_eq!(Scales::new((5, 5), (0, 1)), Err(ScaleError::InvalidScale));
    assert_eq!(Scales::new((0, 1), (3, -3)), Err(ScaleError::InvalidScale));
    let s = Scales::new((-4, 6), (1, 2)).unwrap();
    assert_eq!(s.get_width(), 10);
    assert_eq!(s.get_height(), 1);
}

#[test]
fn grid_has_one_main_midpoint_line() {
    let lines = axis_lines(0, 100, 10);
    assert_eq!(lines.len(), 11);
    let mains: Vec<usize> = (0..11).filter(|i| lines[*i].main).collect();
    assert_eq!(mains, vec![0, 5, 10]);
    assert_eq!(value(lines[3].at), 30.0);
    let odd = axis_lines(-5, 5, 3);
    assert_eq!(odd.len(), 4);
    assert!(odd[0].main && !odd[1].main && !odd[2].main && odd[3].main);
    let g = grid(&instrument_scales(), 10);
    assert_eq!(g.vertical.len(), 11);
    assert_eq!(g.horizontal.len(), 11);
    assert_eq!(value(g.horizontal[5].at), 0.0);
    assert_eq!(value(g.vertical[5].at), 8192.0);
}

#[test]
fn draw_on_degenerate_surface_paints_nothing() {
    let mut app = Application::new(instrument_scales());
    assert!(app.draw(0, 0).is_empty());
    app.on_result(Command::AcquireStart, true);
    assert!(app.draw(0, 0).is_empty());
}

#[test]
fn draw_is_repeatable() {
    let mut app = Application::new(instrument_scales());
    app.on_result(Command::AcquireStart, true);
    app.on_samples(vec![1, -2, 3]);
    let first = app.draw(800, 400);
    let second = app.draw(800, 400);
    assert_eq!(first, second);
    assert!(!first.is_empty());
}

#[test]
fn draw_layers_in_order() {
    let mut app = Application::new(instrument_scales());
    app.on_result(Command::AcquireStart, true);
    app.on_samples(vec![0, 4]);
    let ops = app.draw(800, 400);
    let m = instrument_scales().transform(800, 400).unwrap();
    assert_eq!(ops[0], PaintOp::SetMatrix(m));
    assert_eq!(ops[2], PaintOp::SetColor(Color::Background));
    let colors: Vec<Color> = ops
        .iter()
        .filter_map(|op| match op {
            PaintOp::SetColor(c) => Some(*c),
            _ => None,
        })
        .collect();
    let last_level = colors.iter().rposition(|c| *c == Color::Level).unwrap();
    let trigger_at = colors.iter().position(|c| *c == Color::Trigger).unwrap();
    let trace_at = colors.iter().position(|c| *c == Color::Trace).unwrap();
    assert!(last_level < trigger_at && trigger_at < trace_at);
    let n = ops.len();
    assert_eq!(ops[n - 1], PaintOp::Stroke);
    assert_eq!(ops[n - 2], PaintOp::LineTo(Ratio { num: 1, den: 1 }, Ratio { num: 4, den: 1 }));
    assert_eq!(ops[n - 3], PaintOp::MoveTo(Ratio { num: 0, den: 1 }, Ratio { num: 0, den: 1 }));
    app.on_result(Command::AcquireStop, true);
    let idle = app.draw(800, 400);
    assert_eq!(idle.len(), n - 5);
    assert!(!idle.iter().any(|op| *op == PaintOp::SetColor(Color::Trace)));
}

#[test]
fn fresh_samples_replace_buffer() {
    let mut app = Application::new(instrument_scales());
    app.on_samples(vec![7, 7, 7, 7]);
    app.on_samples(vec![2, 3]);
    assert_eq!(app.data, vec![2, 3]);
    app.on_result(Command::AcquireStart, true);
    let ops = app.draw(800, 400);
    let points: Vec<PaintOp> = ops
        .iter()
        .filter(|op| matches!(op, PaintOp::MoveTo(x, _) | PaintOp::LineTo(x, _) if x.den == 1 && x.num < 2))
        .cloned()
        .collect();
    assert!(points.contains(&PaintOp::LineTo(Ratio { num: 1, den: 1 }, Ratio { num: 3, den: 1 })));
    assert!(!ops.iter().any(|op| *op == PaintOp::LineTo(Ratio { num: 3, den: 1 }, Ratio { num: 7, den: 1 })));
}

#[test]
fn quit_stops_outputs_before_loop_ends() {
    let mut app = Application::new(instrument_scales());
    app.update(Signal::AcquireStart);
    let cmds = app.update(Signal::Quit);
    assert_eq!(
        cmds,
        vec![
            Command::AcquireStop,
            Command::GeneratorStop(Source::Out1),
            Command::GeneratorStop(Source::Out2),
            Command::Quit,
        ]
    );
    assert!(!app.running);
    assert!(app.update(Signal::AcquireStart).is_empty());
    app.emit(Signal::GraphDraw);
    assert_eq!(app.next(), None);
}

#[test]
fn routing_passes_payload_through() {
    let c = Child::Generator(generator::Signal::Amplitude(Source::Out2, 1500));
    assert_eq!(map_child_exec(c), Some(Signal::GeneratorAmplitude(Source::Out2, 1500)));
    let c = Child::Generator(generator::Signal::Signal(Source::Out1, Form::Square));
    assert_eq!(map_child_exec(c), Some(Signal::GeneratorSignal(Source::Out1, Form::Square)));
    let c = Child::Trigger(redpitaya_gtk::trigger::Signal::Delay(42));
    assert_eq!(map_child_exec(c), Some(Signal::TriggerDelay(42)));
    assert_eq!(map_child_exec(Child::Acquire(acquire::Signal::Stop)), Some(Signal::AcquireStop));
    assert_eq!(map_child_exec(Child::Graph(graph::Signal::Draw)), Some(Signal::GraphDraw));
    assert_eq!(map_child_exec(Child::Graph(graph::Signal::Level(Orientation::Left, 3))), None);
}

#[test]
fn queue_is_fifo_and_drops_unmapped() {
    let mut app = Application::new(instrument_scales());
    app.route(Child::Acquire(acquire::Signal::Start));
    app.route(Child::Graph(graph::Signal::Level(Orientation::Top, 9)));
    app.route(Child::Trigger(redpitaya_gtk::trigger::Signal::Level(-250)));
    assert_eq!(app.queue.len(), 2);
    assert_eq!(app.next(), Some(Signal::AcquireStart));
    assert_eq!(app.next(), Some(Signal::TriggerLevel(-250)));
    assert_eq!(app.next(), None);
}

#[test]
fn update_asks_for_matching_command() {
    let mut app = Application::new(instrument_scales());
    assert_eq!(app.update(Signal::GraphDraw), vec![Command::ReadAll]);
    assert_eq!(
        app.update(Signal::GeneratorFrequency(Source::Out1, 1000)),
        vec![Command::GeneratorFrequency(Source::Out1, 1000)]
    );
    assert!(app.running);
}

#[test]
fn failed_command_leaves_model_unchanged() {
    let mut app = Application::new(instrument_scales());
    app.on_result(Command::TriggerLevel(300), false);
    assert!(app.failed);
    assert_eq!(app.trigger_level, 0);
    app.on_result(Command::TriggerLevel(300), true);
    assert!(!app.failed);
    assert_eq!(app.trigger_level, 300);
    app.on_result(Command::AcquireStart, false);
    assert!(app.failed && !app.acquiring);
    app.on_result(Command::AcquireStart, true);
    assert!(!app.failed && app.acquiring);
}

#[test]
fn signal_names() {
    assert_eq!(Signal::GraphDraw.display_variant(), "Signal::GraphDraw");
    assert_eq!(Signal::TriggerLevel(3).display_variant(), "Signal::TriggerLevel");
    assert_eq!(Signal::GeneratorStop(Source::Out2).display_variant(), "Signal::GeneratorStop");
}

#[test]
fn level_meter_bar_is_clipped() {
    let s = instrument_scales();
    let mut left = LevelWidget::new(Orientation::Left);
    assert_eq!(left.set_level(9), LevelSignal::Level(Orientation::Left, 9));
    let ops = left.draw(&s);
    assert_eq!(ops.len(), 3);
    match ops[1] {
        PaintOp::Rectangle(x, y, w, h) => {
            assert_eq!(value(x), 0.0);
            assert_eq!(value(y), -5.0);
            assert_eq!(value(w), 16384.0 / 50.0);
            assert_eq!(value(h), 10.0);
        },
        _ => panic!("expected a rectangle"),
    }
    let mut top = LevelWidget::new(Orientation::Top);
    top.set_level(4096);
    match top.draw(&s)[1] {
        PaintOp::Rectangle(_, y, w, h) => {
            assert_eq!(value(y), 5.0 - 10.0 / 50.0);
            assert_eq!(value(w), 4096.0);
            assert_eq!(value(h), 10.0 / 50.0);
        },
        _ => panic!("expected a rectangle"),
    }
}

#[test]
fn graph_children_and_invalidation() {
    let g = GraphWidget::new();
    assert_eq!(g.level_left().orientation, Orientation::Left);
    assert_eq!(g.level_right().orientation, Orientation::Right);
    assert_eq!(g.level_top().orientation, Orientation::Top);
    assert_eq!(
        g.invalidate(640, 480),
        vec![
            Invalidation::Area(640, 480),
            Invalidation::Level(Orientation::Left),
            Invalidation::Level(Orientation::Right),
        ]
    );
    let ops = g.draw(&instrument_scales());
    assert_eq!(ops.len(), 6 + 11 * 9 + 3 + 3);
}

#[test]
fn palette_toggle_expands_and_folds() {
    let mut p = Palette::new();
    p.set_label("Channel 1");
    assert_eq!(p.label, "Channel 1");
    assert!(!p.get_active());
    let s = p.toggled(true);
    assert_eq!(s, PaletteSignal::Expand);
    assert!(p.get_active());
    p.update(s);
    assert!(p.expanded);
    let s = p.toggled(false);
    assert_eq!(s, PaletteSignal::Fold);
    p.update(s);
    assert!(!p.expanded);
}

#[test]
fn acquire_toggle_signal() {
    assert_eq!(acquire::toggled(true), acquire::Signal::Start);
    assert_eq!(acquire::toggled(false), acquire::Signal::Stop);
}
