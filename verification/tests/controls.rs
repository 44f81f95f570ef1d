use std::sync::mpsc;
use std::sync::Arc;
use std::sync::Mutex;

use auto_clicker::controls::toggled_value;
use auto_clicker::controls::MainApp;
use auto_clicker::types::ClickInterval;
use auto_clicker::types::ClickOptions;
use auto_clicker::types::ClickPosition;
use auto_clicker::types::ClickType;
use auto_clicker::types::MouseButton;

struct Harness {
    app: MainApp,
    cell: Arc<Mutex<bool>>,
    rx_interval: mpsc::Receiver<ClickInterval>,
    rx_options: mpsc::Receiver<ClickOptions>,
    rx_position: mpsc::Receiver<ClickPosition>,
}

fn harness() -> Harness {
    let (tx_interval, rx_interval) = mpsc::channel::<ClickInterval>();
    let (tx_options, rx_options) = mpsc::channel::<ClickOptions>();
    let (tx_position, rx_position) = mpsc::channel::<ClickPosition>();
    let cell = Arc::new(Mutex::new(false));
    let app = MainApp::new(cell.clone(), tx_interval, tx_options, tx_position);
    Harness { app, cell, rx_interval, rx_options, rx_position }
}

#[test]
fn new_app_holds_the_defaults() {
    let h = harness();
    assert_eq!(
        h.app.click_interval,
        ClickInterval { hours: 0, minutes: 0, seconds: 0, milliseconds: 0 }
    );
    assert_eq!(h.app.click_options.mouse_button, MouseButton::Left);
    assert_eq!(h.app.click_options.click_type, ClickType::Single);
    assert_eq!(h.app.click_position, ClickPosition::CurrentCursorPosition);
}

#[test]
fn every_change_sends_the_complete_value() {
    let mut h = harness();
    let interval = ClickInterval { hours: 0, minutes: 1, seconds: 30, milliseconds: 0 };
    assert!(h.app.set_interval(interval));
    assert_eq!(h.rx_interval.try_recv(), Ok(interval));
    assert_eq!(h.app.click_interval, interval);

    let options = ClickOptions { mouse_button: MouseButton::Middle, click_type: ClickType::Double };
    assert!(h.app.set_options(options));
    assert_eq!(h.rx_options.try_recv().unwrap().mouse_button, MouseButton::Middle);
    assert_eq!(h.app.click_options.click_type, ClickType::Double);

    let position = ClickPosition::Custom { x: 5, y: 6 };
    assert!(h.app.set_position(position));
    assert_eq!(h.rx_position.try_recv(), Ok(position));
    assert_eq!(h.app.click_position, position);
}

#[test]
fn sending_to_a_dropped_consumer_reports_it() {
    let mut h = harness();
    drop(h.rx_interval);
    let interval = ClickInterval { hours: 0, minutes: 0, seconds: 1, milliseconds: 0 };
    assert!(!h.app.set_interval(interval));
    assert_eq!(h.app.click_interval, interval);
}

#[test]
fn start_and_stop_write_the_flag() {
    let h = harness();
    assert!(h.app.start());
    assert!(*h.cell.lock().unwrap());
    assert!(h.app.stop());
    assert!(!*h.cell.lock().unwrap());
}

#[test]
fn toggle_twice_restores_the_flag() {
    let h = harness();
    assert_eq!(h.app.toggle(), Some(true));
    assert_eq!(h.app.toggle(), Some(false));
    assert!(!*h.cell.lock().unwrap());

    *h.cell.lock().unwrap() = true;
    assert_eq!(h.app.toggle(), Some(false));
    assert_eq!(h.app.toggle(), Some(true));
    assert!(*h.cell.lock().unwrap());
}

#[test]
fn toggled_value_inverts() {
    assert!(toggled_value(false));
    assert!(!toggled_value(true));
    assert_eq!(toggled_value(toggled_value(true)), true);
    assert_eq!(toggled_value(toggled_value(false)), false);
}
