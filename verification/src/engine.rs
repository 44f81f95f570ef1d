//! The automation loop's state machine: a snapshot of the desired
//! configuration, one polling-and-merging cycle, and the plan of synthetic
//! events an active emission round issues.

use vstd::prelude::*;

use crate::channels::channel_try_recv;
use crate::channels::run_flag_read;
use crate::timing::convert_time_to_duration;
use crate::timing::converted_duration;
use crate::timing::ClickDuration;
use crate::types::click_count;
use crate::types::click_count_spec;
use crate::types::ClickInterval;
use crate::types::ClickOptions;
use crate::types::ClickPosition;
use crate::types::ClickType;
use crate::types::MouseButton;
use crate::types::MouseEvent;
use std::sync::mpsc::Receiver;
use std::sync::Arc;
use std::sync::Mutex;

verus! {

/// How long the loop parks between cycles, in milliseconds; this bounds the
/// reaction latency to configuration and run-state changes.
pub const POLL_INTERVAL_MS: u64 = 5;

/// How long the emitter lets the OS input subsystem settle after each
/// dispatch attempt, in milliseconds; layered beneath the configured
/// interval.
pub const SETTLE_DELAY_MS: u64 = 20;

/// The engine's authoritative copy of the configuration together with the
/// run flag as last polled. It is seeded once at engine start and updated
/// only by the engine's own cycles.
#[derive(Debug, Clone, Copy, PartialEq, Eq, Structural)]
pub struct EngineSnapshot {
    pub delay: ClickDuration,
    pub options: ClickOptions,
    pub position: ClickPosition,
    pub running: bool,
}

/// What one cycle observed: the run flag read under the lock (nothing when
/// the lock was poisoned) and at most one pending message per configuration
/// channel.
#[derive(Debug, Clone, Copy)]
pub struct CycleInput {
    pub run_state: Option<bool>,
    pub interval: Option<ClickInterval>,
    pub options: Option<ClickOptions>,
    pub position: Option<ClickPosition>,
}

/// The duration an interval message configures.
pub open spec fn interval_duration(interval: ClickInterval) -> ClickDuration {
    converted_duration(
        interval.hours as int,
        interval.minutes as int,
        interval.seconds as int,
        interval.milliseconds as int,
    )
}

/// The snapshot the engine seeds at start: zero interval, single left clicks
/// at the live cursor position, idle.
pub open spec fn initial_snapshot() -> EngineSnapshot {
    EngineSnapshot {
        delay: ClickDuration { secs: 0, nanos: 0 },
        options: ClickOptions { mouse_button: MouseButton::Left, click_type: ClickType::Single },
        position: ClickPosition::CurrentCursorPosition,
        running: false,
    }
}

/// The snapshot after one cycle merged what it observed: each delivered
/// message fully supersedes its field, a field without a pending message is
/// retained, the run flag is copied as read, and a poisoned lock leaves the
/// engine idle.
pub open spec fn snapshot_after(snap: EngineSnapshot, input: CycleInput) -> EngineSnapshot {
    EngineSnapshot {
        delay: match input.interval {
            Some(interval) => interval_duration(interval),
            None => snap.delay,
        },
        options: match input.options {
            Some(options) => options,
            None => snap.options,
        },
        position: match input.position {
            Some(position) => position,
            None => snap.position,
        },
        running: match input.run_state {
            Some(value) => value,
            None => false,
        },
    }
}

/// The move that opens a round: one event for a fixed target, none when the
/// click lands wherever the pointer already is.
pub open spec fn move_part(position: ClickPosition) -> Seq<MouseEvent> {
    match position {
        ClickPosition::CurrentCursorPosition => Seq::empty(),
        ClickPosition::Custom { x, y } => seq![MouseEvent::MouseMove { x, y }],
    }
}

/// A run of press/release pairs for one button, each press immediately
/// followed by its release.
pub open spec fn click_pairs(button: MouseButton, pairs: nat) -> Seq<MouseEvent>
    decreases pairs,
{
    if pairs == 0 {
        Seq::empty()
    } else {
        click_pairs(button, (pairs - 1) as nat) + seq![
            MouseEvent::ButtonPress { button },
            MouseEvent::ButtonRelease { button },
        ]
    }
}

/// The events one emission round issues for a snapshot: nothing while idle;
/// while active, the opening move (if any) followed by the arity-derived
/// number of press/release pairs for the configured button.
pub open spec fn round_events(snap: EngineSnapshot) -> Seq<MouseEvent> {
    if snap.running {
        move_part(snap.position) + click_pairs(
            snap.options.mouse_button,
            click_count_spec(snap.options.click_type),
        )
    } else {
        Seq::empty()
    }
}

/// Merges one cycle's observations into a snapshot.
pub fn apply_cycle(snap: EngineSnapshot, input: CycleInput) -> (merged: EngineSnapshot)
    ensures
        merged == snapshot_after(snap, input),
{
    EngineSnapshot {
        delay: match input.interval {
            Some(interval) => convert_time_to_duration(
                interval.hours,
                interval.minutes,
                interval.seconds,
                interval.milliseconds,
            ),
            None => snap.delay,
        },
        options: match input.options {
            Some(options) => options,
            None => snap.options,
        },
        position: match input.position {
            Some(position) => position,
            None => snap.position,
        },
        running: match input.run_state {
            Some(value) => value,
            None => false,
        },
    }
}

/// Plans the emission round for a snapshot, in dispatch order.
pub fn emission_events(snap: &EngineSnapshot) -> (events: Vec<MouseEvent>)
    ensures
        events@ == round_events(*snap),
{
    let mut events: Vec<MouseEvent> = Vec::new();
    if !snap.running {
        assert(events@ =~= round_events(*snap));
        return events;
    }
    if let ClickPosition::Custom { x, y } = snap.position {
        events.push(MouseEvent::MouseMove { x, y });
    }
    assert(events@ =~= move_part(snap.position));
    let button = snap.options.mouse_button;
    let pairs = click_count(snap.options.click_type);
    let mut issued: usize = 0;
    assert(events@ =~= move_part(snap.position) + click_pairs(button, 0));
    while issued < pairs
        invariant
            issued <= pairs,
            snap.running,
            button == snap.options.mouse_button,
            pairs == click_count_spec(snap.options.click_type),
            events@ == move_part(snap.position) + click_pairs(button, issued as nat),
        decreases pairs - issued,
    {
        events.push(MouseEvent::ButtonPress { button });
        events.push(MouseEvent::ButtonRelease { button });
        issued = issued + 1;
        assert(events@ =~= move_part(snap.position) + click_pairs(button, issued as nat));
    }
    events
}

/// How many move events a plan holds.
pub open spec fn count_moves(events: Seq<MouseEvent>) -> nat
    decreases events.len(),
{
    if events.len() == 0 {
        0
    } else {
        count_moves(events.drop_last()) + if events.last() is MouseMove {
            1nat
        } else {
            0nat
        }
    }
}

/// How many press events a plan holds.
pub open spec fn count_presses(events: Seq<MouseEvent>) -> nat
    decreases events.len(),
{
    if events.len() == 0 {
        0
    } else {
        count_presses(events.drop_last()) + if events.last() is ButtonPress {
            1nat
        } else {
            0nat
        }
    }
}

/// How many release events a plan holds.
pub open spec fn count_releases(events: Seq<MouseEvent>) -> nat
    decreases events.len(),
{
    if events.len() == 0 {
        0
    } else {
        count_releases(events.drop_last()) + if events.last() is ButtonRelease {
            1nat
        } else {
            0nat
        }
    }
}

/// Counting events distributes over concatenation of plans.
pub proof fn lemma_counts_append(left: Seq<MouseEvent>, right: Seq<MouseEvent>)
    ensures
        count_moves(left + right) == count_moves(left) + count_moves(right),
        count_presses(left + right) == count_presses(left) + count_presses(right),
        count_releases(left + right) == count_releases(left) + count_releases(right),
    decreases right.len(),
{
    if right.len() == 0 {
        assert(left + right =~= left);
    } else {
        lemma_counts_append(left, right.drop_last());
        assert((left + right).drop_last() =~= left + right.drop_last());
        assert((left + right).last() == right.last());
    }
}

/// A run of press/release pairs holds exactly as many presses as pairs, as
/// many releases, no moves, and two events per pair.
pub proof fn lemma_click_pairs_counts(button: MouseButton, pairs: nat)
    ensures
        count_presses(click_pairs(button, pairs)) == pairs,
        count_releases(click_pairs(button, pairs)) == pairs,
        count_moves(click_pairs(button, pairs)) == 0,
        click_pairs(button, pairs).len() == 2 * pairs,
    decreases pairs,
{
    if pairs > 0 {
        let press = MouseEvent::ButtonPress { button };
        let release = MouseEvent::ButtonRelease { button };
        let pair = seq![press, release];
        let single = seq![press];
        lemma_click_pairs_counts(button, (pairs - 1) as nat);
        lemma_counts_append(click_pairs(button, (pairs - 1) as nat), pair);
        assert(count_presses(Seq::<MouseEvent>::empty()) == 0);
        assert(count_releases(Seq::<MouseEvent>::empty()) == 0);
        assert(count_moves(Seq::<MouseEvent>::empty()) == 0);
        assert(single.last() == press);
        assert(single.drop_last() =~= Seq::<MouseEvent>::empty());
        assert(count_presses(single) == 1);
        assert(count_releases(single) == 0);
        assert(count_moves(single) == 0);
        assert(pair.last() == release);
        assert(pair.drop_last() =~= single);
        assert(count_presses(pair) == 1);
        assert(count_releases(pair) == 1);
        assert(count_moves(pair) == 0);
    }
}

/// The opening move of a plan: exactly one move event for a fixed target,
/// none at the live cursor position, and never a press or a release.
pub proof fn lemma_move_part_counts(position: ClickPosition)
    ensures
        position is Custom ==> count_moves(move_part(position)) == 1,
        position is CurrentCursorPosition ==> count_moves(move_part(position)) == 0,
        count_presses(move_part(position)) == 0,
        count_releases(move_part(position)) == 0,
{
    match position {
        ClickPosition::Custom { x, y } => {
            let opening = seq![MouseEvent::MouseMove { x, y }];
            assert(count_presses(Seq::<MouseEvent>::empty()) == 0);
            assert(count_releases(Seq::<MouseEvent>::empty()) == 0);
            assert(count_moves(Seq::<MouseEvent>::empty()) == 0);
            assert(move_part(position) == opening);
            assert(opening.last() == (MouseEvent::MouseMove { x, y }));
            assert(opening.drop_last() =~= Seq::<MouseEvent>::empty());
            assert(count_moves(opening) == 1);
            assert(count_presses(opening) == 0);
            assert(count_releases(opening) == 0);
        },
        ClickPosition::CurrentCursorPosition => {
        },
    }
}

/// An options message takes effect in the very next emission round: while
/// that round is active, it issues exactly the arity-derived number of
/// press/release pairs the message configured — two for double clicks, one
/// for single clicks.
pub proof fn lemma_options_govern_next_round(
    snap: EngineSnapshot,
    input: CycleInput,
    options: ClickOptions,
)
    requires
        input.options == Some(options),
        snapshot_after(snap, input).running,
    ensures
        count_presses(round_events(snapshot_after(snap, input))) == click_count_spec(
            options.click_type,
        ),
        count_releases(round_events(snapshot_after(snap, input))) == click_count_spec(
            options.click_type,
        ),
{
    let merged = snapshot_after(snap, input);
    lemma_counts_append(
        move_part(merged.position),
        click_pairs(merged.options.mouse_button, click_count_spec(merged.options.click_type)),
    );
    lemma_click_pairs_counts(
        merged.options.mouse_button,
        click_count_spec(merged.options.click_type),
    );
    lemma_move_part_counts(merged.position);
}

/// While a fixed target is configured, every active round opens with exactly
/// one move to that target, immediately before the press/release pairs; a
/// round at the live cursor position plans no move at all.
pub proof fn lemma_fixed_position_round(snap: EngineSnapshot, x: usize, y: usize)
    requires
        snap.running,
        snap.position == (ClickPosition::Custom { x, y }),
    ensures
        round_events(snap).len() == 1 + 2 * click_count_spec(snap.options.click_type),
        round_events(snap)[0] == (MouseEvent::MouseMove { x, y }),
        count_moves(round_events(snap)) == 1,
{
    lemma_counts_append(
        move_part(snap.position),
        click_pairs(snap.options.mouse_button, click_count_spec(snap.options.click_type)),
    );
    lemma_click_pairs_counts(
        snap.options.mouse_button,
        click_count_spec(snap.options.click_type),
    );
    lemma_move_part_counts(snap.position);
}

/// A round at the live cursor position never plans a move event.
pub proof fn lemma_cursor_position_round(snap: EngineSnapshot)
    requires
        snap.position is CurrentCursorPosition,
    ensures
        count_moves(round_events(snap)) == 0,
{
    if snap.running {
        lemma_counts_append(
            move_part(snap.position),
            click_pairs(snap.options.mouse_button, click_count_spec(snap.options.click_type)),
        );
        lemma_click_pairs_counts(
            snap.options.mouse_button,
            click_count_spec(snap.options.click_type),
        );
        lemma_move_part_counts(snap.position);
    }
}

/// All events the engine plans over a run of consecutive cycles, each cycle
/// first merging what it observed and then planning one round.
pub open spec fn trace_events(snap: EngineSnapshot, inputs: Seq<CycleInput>) -> Seq<MouseEvent>
    decreases inputs.len(),
{
    if inputs.len() == 0 {
        Seq::empty()
    } else {
        round_events(snapshot_after(snap, inputs.first())) + trace_events(
            snapshot_after(snap, inputs.first()),
            inputs.drop_first(),
        )
    }
}

/// The snapshot the engine holds after a run of consecutive cycles.
pub open spec fn trace_snapshot(snap: EngineSnapshot, inputs: Seq<CycleInput>) -> EngineSnapshot
    decreases inputs.len(),
{
    if inputs.len() == 0 {
        snap
    } else {
        trace_snapshot(snapshot_after(snap, inputs.first()), inputs.drop_first())
    }
}

/// A merged fixed target stays in the snapshot across every later cycle that
/// delivers no new position message: until a different position is sent,
/// each active round keeps opening with the same single move.
pub proof fn lemma_position_retained_over_trace(
    snap: EngineSnapshot,
    inputs: Seq<CycleInput>,
    x: usize,
    y: usize,
)
    requires
        snap.position == (ClickPosition::Custom { x, y }),
        forall|i: int| 0 <= i < inputs.len() ==> inputs[i].position is None,
    ensures
        trace_snapshot(snap, inputs).position == (ClickPosition::Custom { x, y }),
    decreases inputs.len(),
{
    if inputs.len() > 0 {
        let merged = snapshot_after(snap, inputs.first());
        assert(inputs[0].position is None);
        assert(merged.position == snap.position);
        assert forall|i: int|
            0 <= i < inputs.drop_first().len() implies inputs.drop_first()[i].position is None by {
            assert(inputs.drop_first()[i] == inputs[i + 1]);
        }
        lemma_position_retained_over_trace(merged, inputs.drop_first(), x, y);
    }
}

/// While every cycle of a run observes the run flag false, the engine plans
/// no event at all over the whole run: the emitter is never invoked.
pub proof fn lemma_idle_cycles_emit_nothing(snap: EngineSnapshot, inputs: Seq<CycleInput>)
    requires
        forall|i: int| 0 <= i < inputs.len() ==> inputs[i].run_state == Some(false),
    ensures
        trace_events(snap, inputs).len() == 0,
    decreases inputs.len(),
{
    if inputs.len() > 0 {
        let merged = snapshot_after(snap, inputs.first());
        assert(inputs[0].run_state == Some(false));
        assert(!merged.running);
        assert forall|i: int|
            0 <= i < inputs.drop_first().len() implies inputs.drop_first()[i].run_state == Some(
            false,
        ) by {
            assert(inputs.drop_first()[i] == inputs[i + 1]);
        }
        lemma_idle_cycles_emit_nothing(merged, inputs.drop_first());
    }
}

/// A configuration message delivered in a cycle is reflected in the snapshot
/// that same cycle, and a field with no pending message is retained
/// unchanged until a later message supersedes it.
pub proof fn lemma_config_applied_and_retained(snap: EngineSnapshot, input: CycleInput)
    ensures
        input.interval matches Some(interval) ==> snapshot_after(snap, input).delay
            == interval_duration(interval),
        input.interval is None ==> snapshot_after(snap, input).delay == snap.delay,
        input.options matches Some(options) ==> snapshot_after(snap, input).options == options,
        input.options is None ==> snapshot_after(snap, input).options == snap.options,
        input.position matches Some(position) ==> snapshot_after(snap, input).position == position,
        input.position is None ==> snapshot_after(snap, input).position == snap.position,
        input.run_state matches Some(value) ==> snapshot_after(snap, input).running == value,
        input.run_state is None ==> !snapshot_after(snap, input).running,
{
}

/// The background automation loop: owns the consuming ends of the three
/// configuration channels, a handle on the shared run flag, and the
/// authoritative snapshot.
pub struct Engine {
    pub snapshot: EngineSnapshot,
    pub rx_click_interval: Receiver<ClickInterval>,
    pub rx_click_options: Receiver<ClickOptions>,
    pub rx_click_position: Receiver<ClickPosition>,
    pub is_running: Arc<Mutex<bool>>,
}

impl Engine {
    /// Builds an engine around its channel endpoints and run-flag handle,
    /// seeded with the default snapshot.
    pub fn new(
        is_running: Arc<Mutex<bool>>,
        rx_click_interval: Receiver<ClickInterval>,
        rx_click_options: Receiver<ClickOptions>,
        rx_click_position: Receiver<ClickPosition>,
    ) -> (engine: Engine)
        ensures
            engine.snapshot == initial_snapshot(),
    {
        Engine {
            snapshot: EngineSnapshot {
                delay: ClickDuration { secs: 0, nanos: 0 },
                options: ClickOptions {
                    mouse_button: MouseButton::Left,
                    click_type: ClickType::Single,
                },
                position: ClickPosition::CurrentCursorPosition,
                running: false,
            },
            rx_click_interval,
            rx_click_options,
            rx_click_position,
            is_running,
        }
    }

    /// Runs one cycle: polls the run flag, drains each configuration channel
    /// non-blockingly, merges the observations into the snapshot, and plans
    /// the emission round. The caller dispatches the planned events and then
    /// sleeps the configured interval (after an active round) plus the poll
    /// interval.
    pub fn cycle(&mut self) -> (events: Vec<MouseEvent>)
        ensures
            exists|input: CycleInput|
                final(self).snapshot == snapshot_after(old(self).snapshot, input),
            events@ == round_events(final(self).snapshot),
            final(self).rx_click_interval == old(self).rx_click_interval,
            final(self).rx_click_options == old(self).rx_click_options,
            final(self).rx_click_position == old(self).rx_click_position,
            final(self).is_running == old(self).is_running,
    {
        let run_state = run_flag_read(&self.is_running);
        let interval = channel_try_recv(&self.rx_click_interval);
        let options = channel_try_recv(&self.rx_click_options);
        let position = channel_try_recv(&self.rx_click_position);
        let input = CycleInput { run_state, interval, options, position };
        self.snapshot = apply_cycle(self.snapshot, input);
        proof {
            assert(self.snapshot == snapshot_after(old(self).snapshot, input));
        }
        emission_events(&self.snapshot)
    }
}

} // verus!
