//! The producing side of the engine's inputs: holds the latest values the
//! user chose, sends each change as a complete replacement value over its
//! channel, and drives the shared run flag.

use vstd::prelude::*;

use crate::channels::channel_send;
use crate::channels::run_flag_read;
use crate::channels::run_flag_write;
use crate::types::ClickInterval;
use crate::types::ClickOptions;
use crate::types::ClickPosition;
use crate::types::ClickType;
use crate::types::MouseButton;
use std::sync::mpsc::Sender;
use std::sync::Arc;
use std::sync::Mutex;

verus! {

/// What a toggle writes back: the inversion of the value it read at the
/// moment of toggling, not a separately tracked intention.
pub open spec fn toggled_spec(value: bool) -> bool {
    !value
}

/// Inverts a run-flag value read at the moment of toggling.
pub fn toggled_value(value: bool) -> (inverted: bool)
    ensures
        inverted == toggled_spec(value),
{
    !value
}

/// Toggling twice in succession restores the run flag to its pre-toggle
/// value.
pub proof fn lemma_toggle_twice_restores(value: bool)
    ensures
        toggled_spec(toggled_spec(value)) == value,
{
}

/// The state behind the control surface: the latest configuration the user
/// chose, the producing ends of the three configuration channels, and a
/// handle on the shared run flag.
pub struct MainApp {
    pub click_interval: ClickInterval,
    pub click_options: ClickOptions,
    pub click_position: ClickPosition,
    pub tx_click_interval: Sender<ClickInterval>,
    pub tx_click_options: Sender<ClickOptions>,
    pub tx_click_position: Sender<ClickPosition>,
    pub is_running: Arc<Mutex<bool>>,
}

impl MainApp {
    /// Builds the control state around its channel endpoints and run-flag
    /// handle, with every configuration field at its default.
    pub fn new(
        is_running: Arc<Mutex<bool>>,
        tx_click_interval: Sender<ClickInterval>,
        tx_click_options: Sender<ClickOptions>,
        tx_click_position: Sender<ClickPosition>,
    ) -> (app: Self)
        ensures
            app.click_interval == (ClickInterval {
                hours: 0,
                minutes: 0,
                seconds: 0,
                milliseconds: 0,
            }),
            app.click_options == (ClickOptions {
                mouse_button: MouseButton::Left,
                click_type: ClickType::Single,
            }),
            app.click_position == ClickPosition::CurrentCursorPosition,
    {
        let click_interval = ClickInterval::default();
        let click_options = ClickOptions::default();
        let click_position = ClickPosition::default();
        MainApp {
            click_interval,
            tx_click_interval,
            click_options,
            tx_click_options,
            click_position,
            tx_click_position,
            is_running,
        }
    }

    /// Records a new interval and sends it as a complete replacement value;
    /// reports whether the consuming end still listens.
    pub fn set_interval(&mut self, interval: ClickInterval) -> (delivered: bool)
        ensures
            final(self).click_interval == interval,
            final(self).click_options == old(self).click_options,
            final(self).click_position == old(self).click_position,
    {
        self.click_interval = interval;
        channel_send(&self.tx_click_interval, interval)
    }

    /// Records new options and sends them as a complete replacement value;
    /// reports whether the consuming end still listens.
    pub fn set_options(&mut self, options: ClickOptions) -> (delivered: bool)
        ensures
            final(self).click_options == options,
            final(self).click_interval == old(self).click_interval,
            final(self).click_position == old(self).click_position,
    {
        self.click_options = options;
        channel_send(&self.tx_click_options, options)
    }

    /// Records a new position and sends it as a complete replacement value;
    /// reports whether the consuming end still listens.
    pub fn set_position(&mut self, position: ClickPosition) -> (delivered: bool)
        ensures
            final(self).click_position == position,
            final(self).click_interval == old(self).click_interval,
            final(self).click_options == old(self).click_options,
    {
        self.click_position = position;
        channel_send(&self.tx_click_position, position)
    }

    /// Sets the shared run flag; reports whether the write happened (a
    /// poisoned lock refuses it).
    pub fn start(&self) -> (written: bool) {
        run_flag_write(&self.is_running, true)
    }

    /// Clears the shared run flag; reports whether the write happened (a
    /// poisoned lock refuses it).
    pub fn stop(&self) -> (written: bool) {
        run_flag_write(&self.is_running, false)
    }

    /// Inverts the run flag value read at the moment of toggling and writes
    /// it back; hands the new value over, or nothing when the lock refused
    /// the read or the write.
    pub fn toggle(&self) -> (toggled: Option<bool>) {
        match run_flag_read(&self.is_running) {
            Some(value) => {
                let inverted = toggled_value(value);
                if run_flag_write(&self.is_running, inverted) {
                    Some(inverted)
                } else {
                    None
                }
            },
            None => None,
        }
    }
}

} // verus!
