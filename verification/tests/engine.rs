use std::sync::mpsc;
use std::sync::Arc;
use std::sync::Mutex;

use auto_clicker::controls::MainApp;
use auto_clicker::engine::Engine;
use auto_clicker::types::ClickInterval;
use auto_clicker::types::ClickOptions;
use auto_clicker::types::ClickPosition;
use auto_clicker::types::ClickType;
use auto_clicker::types::MouseButton;
use auto_clicker::types::MouseEvent;

fn harness() -> (MainApp, Engine, Arc<Mutex<bool>>) {
    let (tx_interval, rx_interval) = mpsc::channel::<ClickInterval>();
    let (tx_options, rx_options) = mpsc::channel::<ClickOptions>();
    let (tx_position, rx_position) = mpsc::channel::<ClickPosition>();
    let is_running = Arc::new(Mutex::new(false));
    let app = MainApp::new(
        is_running.clone(),
        tx_interval,
        tx_options,
        tx_position,
    );
    let engine = Engine::new(is_running.clone(), rx_interval, rx_options, rx_position);
    (app, engine, is_running)
}

fn count_moves(events: &[MouseEvent]) -> usize {
    events.iter().filter(|e| matches!(e, MouseEvent::MouseMove { .. })).count()
}

fn count_presses(events: &[MouseEvent]) -> usize {
    events.iter().filter(|e| matches!(e, MouseEvent::ButtonPress { .. })).count()
}

fn count_releases(events: &[MouseEvent]) -> usize {
    events.iter().filter(|e| matches!(e, MouseEvent::ButtonRelease { .. })).count()
}

#[test]
fn engine_starts_idle_with_defaults() {
    let (_app, engine, _cell) = harness();
    assert_eq!(engine.snapshot.delay.secs, 0);
    assert_eq!(engine.snapshot.delay.nanos, 0);
    assert_eq!(engine.snapshot.options.mouse_button, MouseButton::Left);
    assert_eq!(engine.snapshot.options.click_type, ClickType::Single);
    assert_eq!(engine.snapshot.position, ClickPosition::CurrentCursorPosition);
    assert!(!engine.snapshot.running);
}

#[test]
fn idle_cycles_emit_nothing() {
    let (mut app, mut engine, _cell) = harness();
    app.set_options(ClickOptions {
        mouse_button: MouseButton::Right,
        click_type: ClickType::Double,
    });
    app.set_position(ClickPosition::Custom { x: 3, y: 4 });
    for _ in 0..5 {
        let events = engine.cycle();
        assert!(events.is_empty());
    }
}

#[test]
fn double_arity_issues_two_pairs() {
    let (mut app, mut engine, _cell) = harness();
    app.start();
    app.set_options(ClickOptions {
        mouse_button: MouseButton::Left,
        click_type: ClickType::Double,
    });
    let events = engine.cycle();
    assert_eq!(count_presses(&events), 2);
    assert_eq!(count_releases(&events), 2);

    app.set_options(ClickOptions {
        mouse_button: MouseButton::Left,
        click_type: ClickType::Single,
    });
    let events = engine.cycle();
    assert_eq!(count_presses(&events), 1);
    assert_eq!(count_releases(&events), 1);
}

#[test]
fn each_press_is_followed_by_its_release() {
    let (mut app, mut engine, _cell) = harness();
    app.start();
    app.set_options(ClickOptions {
        mouse_button: MouseButton::Middle,
        click_type: ClickType::Double,
    });
    let events = engine.cycle();
    assert_eq!(
        events,
        vec![
            MouseEvent::ButtonPress { button: MouseButton::Middle },
            MouseEvent::ButtonRelease { button: MouseButton::Middle },
            MouseEvent::ButtonPress { button: MouseButton::Middle },
            MouseEvent::ButtonRelease { button: MouseButton::Middle },
        ]
    );
}

#[test]
fn fixed_position_moves_once_before_the_clicks() {
    let (mut app, mut engine, _cell) = harness();
    app.start();
    app.set_position(ClickPosition::Custom { x: 10, y: 20 });
    for _ in 0..3 {
        let events = engine.cycle();
        assert_eq!(events[0], MouseEvent::MouseMove { x: 10, y: 20 });
        assert_eq!(count_moves(&events), 1);
        assert_eq!(count_presses(&events), 1);
    }
}

#[test]
fn cursor_position_never_moves() {
    let (mut app, mut engine, _cell) = harness();
    app.start();
    app.set_position(ClickPosition::Custom { x: 10, y: 20 });
    let events = engine.cycle();
    assert_eq!(count_moves(&events), 1);

    app.set_position(ClickPosition::CurrentCursorPosition);
    let events = engine.cycle();
    assert_eq!(count_moves(&events), 0);
    assert_eq!(count_presses(&events), 1);
}

#[test]
fn interval_update_lands_within_one_cycle() {
    let (mut app, mut engine, _cell) = harness();
    app.set_interval(ClickInterval { hours: 0, minutes: 0, seconds: 2, milliseconds: 250 });
    engine.cycle();
    assert_eq!(engine.snapshot.delay.secs, 2);
    assert_eq!(engine.snapshot.delay.nanos, 250_000_000);
}

#[test]
fn later_message_supersedes_earlier_one() {
    let (mut app, mut engine, _cell) = harness();
    app.set_position(ClickPosition::Custom { x: 1, y: 1 });
    app.set_position(ClickPosition::Custom { x: 7, y: 9 });
    engine.cycle();
    engine.cycle();
    assert_eq!(engine.snapshot.position, ClickPosition::Custom { x: 7, y: 9 });
}

#[test]
fn disconnected_producer_keeps_last_snapshot() {
    let (app, mut engine, _cell) = harness();
    let mut app = app;
    app.start();
    app.set_options(ClickOptions {
        mouse_button: MouseButton::Right,
        click_type: ClickType::Double,
    });
    engine.cycle();
    drop(app);
    let events = engine.cycle();
    assert_eq!(count_presses(&events), 2);
    assert_eq!(engine.snapshot.options.mouse_button, MouseButton::Right);
}

#[test]
fn run_flag_gates_emission_each_cycle() {
    let (app, mut engine, _cell) = harness();
    app.start();
    let events = engine.cycle();
    assert_eq!(count_presses(&events), 1);
    app.stop();
    let events = engine.cycle();
    assert!(events.is_empty());
    app.start();
    let events = engine.cycle();
    assert_eq!(count_presses(&events), 1);
}
