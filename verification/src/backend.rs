//! The thermostat's control state and the tick that advances it.

use vstd::prelude::*;
use vstd::string::*;
use crate::controller::{Controller, ControllerModel, Relay};
use crate::events::{BackendEvent, DiffStatus, FanStatus, ModeStatus, RestStatus, UiEvent};
use crate::text::{one_decimal, push_one_decimal, push_two_digits, two_digits};
use crate::units::{round_div, round_div_exec};

verus! {

/// How long a defrost rest lasts, in milliseconds: thirty minutes.
pub const REST_DURATION: u64 = 1_800_000;

/// How long the configuration must at least have been left alone before
/// pending messages are applied, in milliseconds: five seconds.
pub const DEBOUNCE_INTERVAL: u64 = 5_000;

/// What the system is doing.
#[derive(Debug, Clone, Copy, PartialEq, Eq, Structural)]
pub enum ThermostatRuntimeState {
    Waiting,
    Heating,
    Cooling,
    Resting,
    Idle,
}

/// The control state. Temperatures are in thousandths of a degree Celsius,
/// durations in milliseconds, and points in time are readings of one
/// monotonic clock in milliseconds.
pub struct ThermostatState {
    inbox: Vec<UiEvent>,
    current_temp_c: i32,
    target_temp_c: i32,
    mode: ModeStatus,
    diff_mode: DiffStatus,
    rest_mode: RestStatus,
    fan_mode: FanStatus,
    use_fahrenheit: bool,
    runtime_state: ThermostatRuntimeState,
    total_cooling_duration: u64,
    total_heating_duration: u64,
    last_resting_start_time: u64,
    last_user_interaction_time: u64,
    last_run_finished_time: u64,
}

/// What a `ThermostatState` stands for.
pub struct ThermostatModel {
    /// The configuration messages that were posted and not yet applied, oldest first.
    pub inbox: Seq<UiEvent>,
    pub current_temp_c: i32,
    pub target_temp_c: i32,
    pub mode: ModeStatus,
    pub diff_mode: DiffStatus,
    pub rest_mode: RestStatus,
    pub fan_mode: FanStatus,
    pub use_fahrenheit: bool,
    pub runtime_state: ThermostatRuntimeState,
    pub total_cooling_duration: u64,
    pub total_heating_duration: u64,
    pub last_resting_start_time: u64,
    pub last_user_interaction_time: u64,
    pub last_run_finished_time: u64,
}

/// The time from `since` to `now` on a monotonic clock; zero if `since` is later.
pub open spec fn elapsed_between(now: u64, since: u64) -> u64 {
    if now >= since {
        (now - since) as u64
    } else {
        0
    }
}

/// `total + more`, held at the largest value that a duration can take.
pub open spec fn accumulate(total: u64, more: u64) -> u64 {
    if total + more > u64::MAX {
        u64::MAX
    } else {
        (total + more) as u64
    }
}

/// The signed distance from the target at which waiting ends: below the
/// target when heating, above it when cooling.
pub open spec fn differential(mode: ModeStatus, diff_mode: DiffStatus) -> int {
    match mode {
        ModeStatus::Heat => match diff_mode {
            DiffStatus::Slow => -1000,
            DiffStatus::Normal => -400,
            DiffStatus::Fast => -300,
        },
        ModeStatus::Cool => match diff_mode {
            DiffStatus::Slow => 900,
            DiffStatus::Normal => 700,
            DiffStatus::Fast => 500,
        },
        ModeStatus::Off => 0,
    }
}

/// The total cooling time beyond which the compressor must rest, if the
/// tier sets one: 60, 90 or 120 minutes.
pub open spec fn rest_threshold(rest_mode: RestStatus) -> Option<u64> {
    match rest_mode {
        RestStatus::Short => Some(3_600_000u64),
        RestStatus::Medium => Some(5_400_000u64),
        RestStatus::Long => Some(7_200_000u64),
        RestStatus::Off => None,
    }
}

/// The active state that serves `mode`.
pub open spec fn dispatch(mode: ModeStatus) -> ThermostatRuntimeState {
    match mode {
        ModeStatus::Heat => ThermostatRuntimeState::Heating,
        ModeStatus::Cool => ThermostatRuntimeState::Cooling,
        ModeStatus::Off => ThermostatRuntimeState::Idle,
    }
}

/// The controller after the relay commands that entering `target` issues.
/// Idle and waiting leave the fan alone when it is set to run continuously;
/// resting forces it on.
pub open spec fn entered(
    controller: ControllerModel,
    target: ThermostatRuntimeState,
    fan_mode: FanStatus,
) -> ControllerModel {
    match target {
        ThermostatRuntimeState::Heating => controller.command(Relay::Heat, true).command(
            Relay::Cool,
            false,
        ).command(Relay::Fan, true),
        ThermostatRuntimeState::Cooling => controller.command(Relay::Cool, true).command(
            Relay::Heat,
            false,
        ).command(Relay::Fan, true),
        ThermostatRuntimeState::Resting => controller.command(Relay::Heat, false).command(
            Relay::Cool,
            false,
        ).command(Relay::Fan, true),
        ThermostatRuntimeState::Waiting | ThermostatRuntimeState::Idle => {
            let stopped = controller.command(Relay::Heat, false).command(Relay::Cool, false);
            if fan_mode == FanStatus::Auto {
                stopped.command(Relay::Fan, false)
            } else {
                stopped
            }
        },
    }
}

/// The tenths of a degree nearest to a temperature given in thousandths of
/// a degree Celsius, in Fahrenheit (`C * 9/5 + 32`) or in Celsius. The
/// conversion and the rounding are one step: the exact value is rounded once.
pub open spec fn display_tenths(temp_c: int, use_fahrenheit: bool) -> int {
    if use_fahrenheit {
        round_div(9 * temp_c + 160_000, 500)
    } else {
        round_div(temp_c, 100)
    }
}

/// A temperature as the user reads it: in the chosen unit, rounded to one
/// decimal place, and followed by the unit.
pub open spec fn temperature_text(temp_c: int, use_fahrenheit: bool) -> Seq<char> {
    if use_fahrenheit {
        one_decimal(display_tenths(temp_c, true)) + "°F"@
    } else {
        one_decimal(display_tenths(temp_c, false)) + "°C"@
    }
}

/// A duration as minutes and seconds, each with at least two digits.
pub open spec fn time_text(duration: u64) -> Seq<char> {
    let seconds = duration as nat / 1000;
    two_digits(seconds / 60) + ":"@ + two_digits(seconds % 60)
}

impl ThermostatModel {
    /// The state at start-up, at time `now`.
    pub open spec fn initial(now: u64) -> ThermostatModel {
        ThermostatModel {
            inbox: Seq::empty(),
            current_temp_c: 21_000,
            target_temp_c: 21_000,
            mode: ModeStatus::Off,
            diff_mode: DiffStatus::Normal,
            rest_mode: RestStatus::Off,
            fan_mode: FanStatus::Auto,
            use_fahrenheit: true,
            runtime_state: ThermostatRuntimeState::Waiting,
            total_cooling_duration: 0,
            total_heating_duration: 0,
            last_resting_start_time: now,
            last_user_interaction_time: now,
            last_run_finished_time: now,
        }
    }

    /// The state with `current_temp_c` as the current temperature.
    pub open spec fn with_reading(self, current_temp_c: i32) -> ThermostatModel {
        ThermostatModel { current_temp_c, ..self }
    }

    /// The temperature that must be crossed to leave the waiting state. With
    /// the mode off there is no threshold, and the current temperature stands in.
    pub open spec fn waiting_target(self) -> int {
        match self.mode {
            ModeStatus::Off => self.current_temp_c as int,
            _ => self.target_temp_c + differential(self.mode, self.diff_mode),
        }
    }

    /// Whether the compressor has run long enough to need a rest.
    pub open spec fn should_rest(self) -> bool {
        self.mode == ModeStatus::Cool && match rest_threshold(self.rest_mode) {
            Some(threshold) => self.total_cooling_duration > threshold,
            None => false,
        }
    }

    /// The state after one configuration message was applied.
    pub open spec fn apply(self, event: UiEvent) -> ThermostatModel {
        match event {
            UiEvent::ModeUpdate(mode) => ThermostatModel { mode, ..self },
            UiEvent::UseFahrenheitUpdate(use_fahrenheit) => ThermostatModel {
                use_fahrenheit,
                ..self
            },
            UiEvent::DiffUpdate(diff_mode) => ThermostatModel { diff_mode, ..self },
            UiEvent::RestUpdate(rest_mode) => ThermostatModel { rest_mode, ..self },
            UiEvent::FanUpdate(fan_mode) => ThermostatModel { fan_mode, ..self },
            UiEvent::TargetTempUpdate(target_temp_c) => ThermostatModel { target_temp_c, ..self },
        }
    }

    /// The state after the messages of `events` were applied, first to last.
    pub open spec fn apply_all(self, events: Seq<UiEvent>) -> ThermostatModel
        decreases events.len(),
    {
        if events.len() == 0 {
            self
        } else {
            self.apply_all(events.drop_last()).apply(events.last())
        }
    }

    /// Whether the configuration has been left alone long enough at `now`:
    /// for at least the debounce interval since the last intake.
    pub open spec fn drain_due(self, now: u64) -> bool {
        elapsed_between(now, self.last_user_interaction_time) >= DEBOUNCE_INTERVAL
    }

    /// The state after the intake of configuration messages at `now`: when it
    /// is due, every pending message is applied in order and the time is
    /// noted; else nothing changes and the messages stay pending.
    pub open spec fn after_receive(self, now: u64) -> ThermostatModel {
        if self.drain_due(now) {
            ThermostatModel {
                inbox: Seq::empty(),
                last_user_interaction_time: now,
                ..self.apply_all(self.inbox)
            }
        } else {
            self
        }
    }

    /// The state after the timers of the current runtime state were brought
    /// up to `now`: running time is added while heating or cooling, and the
    /// cooling total is cleared once a rest, or a wait as long as one, is over.
    pub open spec fn timed(self, now: u64) -> ThermostatModel {
        match self.runtime_state {
            ThermostatRuntimeState::Heating => ThermostatModel {
                total_heating_duration: accumulate(
                    self.total_heating_duration,
                    elapsed_between(now, self.last_run_finished_time),
                ),
                ..self
            },
            ThermostatRuntimeState::Cooling => ThermostatModel {
                total_cooling_duration: accumulate(
                    self.total_cooling_duration,
                    elapsed_between(now, self.last_run_finished_time),
                ),
                ..self
            },
            ThermostatRuntimeState::Waiting | ThermostatRuntimeState::Resting => {
                if elapsed_between(now, self.last_resting_start_time) > REST_DURATION {
                    ThermostatModel { total_cooling_duration: 0, ..self }
                } else {
                    self
                }
            },
            ThermostatRuntimeState::Idle => self,
        }
    }

    /// The runtime state that is entered at `now`, if any, once the timers
    /// are up to date.
    pub open spec fn transition(self, now: u64) -> Option<ThermostatRuntimeState> {
        match self.runtime_state {
            ThermostatRuntimeState::Waiting => match self.mode {
                ModeStatus::Heat => if self.current_temp_c < self.waiting_target() {
                    Some(ThermostatRuntimeState::Heating)
                } else {
                    None
                },
                ModeStatus::Cool => if self.current_temp_c > self.waiting_target() {
                    Some(ThermostatRuntimeState::Cooling)
                } else {
                    None
                },
                ModeStatus::Off => Some(ThermostatRuntimeState::Idle),
            },
            ThermostatRuntimeState::Heating => if self.current_temp_c >= self.target_temp_c {
                Some(ThermostatRuntimeState::Waiting)
            } else {
                None
            },
            ThermostatRuntimeState::Cooling => if self.should_rest() {
                Some(ThermostatRuntimeState::Resting)
            } else if self.current_temp_c <= self.target_temp_c {
                Some(ThermostatRuntimeState::Waiting)
            } else {
                None
            },
            ThermostatRuntimeState::Resting => if elapsed_between(
                now,
                self.last_resting_start_time,
            ) > REST_DURATION {
                Some(dispatch(self.mode))
            } else {
                None
            },
            ThermostatRuntimeState::Idle => Some(dispatch(self.mode)),
        }
    }

    /// The state after `target` was entered at `now`. Entering the resting
    /// or the waiting state starts the rest clock.
    pub open spec fn entering(self, target: ThermostatRuntimeState, now: u64) -> ThermostatModel {
        match target {
            ThermostatRuntimeState::Resting | ThermostatRuntimeState::Waiting => ThermostatModel {
                runtime_state: target,
                last_resting_start_time: now,
                ..self
            },
            _ => ThermostatModel { runtime_state: target, ..self },
        }
    }

    /// The state after one tick at `now`: intake, timers, at most one
    /// transition, and the time of the tick noted.
    pub open spec fn after_run(self, now: u64) -> ThermostatModel {
        let timed = self.after_receive(now).timed(now);
        let moved = match timed.transition(now) {
            Some(target) => timed.entering(target, now),
            None => timed,
        };
        ThermostatModel { last_run_finished_time: now, ..moved }
    }

    /// The controller after one tick at `now`: the commands of the state
    /// that was entered, or none.
    pub open spec fn controller_after_run(
        self,
        controller: ControllerModel,
        now: u64,
    ) -> ControllerModel {
        let timed = self.after_receive(now).timed(now);
        match timed.transition(now) {
            Some(target) => entered(controller, target, timed.fan_mode),
            None => controller,
        }
    }

    /// How much of the rest is left at `now`; zero once it is over.
    pub open spec fn remaining_rest(self, now: u64) -> u64 {
        let elapsed = elapsed_between(now, self.last_resting_start_time);
        if elapsed >= REST_DURATION {
            0
        } else {
            (REST_DURATION - elapsed) as u64
        }
    }

    /// The status line at `now`.
    pub open spec fn status_text(self, now: u64) -> Seq<char> {
        match self.runtime_state {
            ThermostatRuntimeState::Waiting => "Waiting for "@ + temperature_text(
                self.waiting_target(),
                self.use_fahrenheit,
            ),
            ThermostatRuntimeState::Heating => "Heating"@,
            ThermostatRuntimeState::Cooling => "Cooling"@,
            ThermostatRuntimeState::Resting => "Defrosting for "@ + time_text(
                self.remaining_rest(now),
            ),
            ThermostatRuntimeState::Idle => "Idling"@,
        }
    }
}

impl View for ThermostatState {
    type V = ThermostatModel;

    closed spec fn view(&self) -> ThermostatModel {
        ThermostatModel {
            inbox: self.inbox@,
            current_temp_c: self.current_temp_c,
            target_temp_c: self.target_temp_c,
            mode: self.mode,
            diff_mode: self.diff_mode,
            rest_mode: self.rest_mode,
            fan_mode: self.fan_mode,
            use_fahrenheit: self.use_fahrenheit,
            runtime_state: self.runtime_state,
            total_cooling_duration: self.total_cooling_duration,
            total_heating_duration: self.total_heating_duration,
            last_resting_start_time: self.last_resting_start_time,
            last_user_interaction_time: self.last_user_interaction_time,
            last_run_finished_time: self.last_run_finished_time,
        }
    }
}

fn elapsed(now: u64, since: u64) -> (duration: u64)
    ensures
        duration == elapsed_between(now, since),
{
    if now >= since {
        now - since
    } else {
        0
    }
}

fn add_duration(total: u64, more: u64) -> (sum: u64)
    ensures
        sum == accumulate(total, more),
{
    if total > u64::MAX - more {
        u64::MAX
    } else {
        total + more
    }
}

impl ThermostatState {
    /// Creates the state at start-up: mode off, target and current
    /// temperature 21 °C, Fahrenheit display, waiting, every clock at `now`.
    pub fn new(now: u64) -> (state: ThermostatState)
        ensures
            state@ == ThermostatModel::initial(now),
    {
        ThermostatState {
            inbox: Vec::new(),
            current_temp_c: 21_000,
            target_temp_c: 21_000,
            mode: ModeStatus::Off,
            diff_mode: DiffStatus::Normal,
            rest_mode: RestStatus::Off,
            fan_mode: FanStatus::Auto,
            use_fahrenheit: true,
            runtime_state: ThermostatRuntimeState::Waiting,
            total_cooling_duration: 0,
            total_heating_duration: 0,
            last_resting_start_time: now,
            last_user_interaction_time: now,
            last_run_finished_time: now,
        }
    }

    /// The temperature that must be crossed to leave the waiting state.
    pub fn get_waiting_target_temp(&self) -> (threshold: i64)
        ensures
            threshold == self@.waiting_target(),
    {
        let target: i64 = self.target_temp_c as i64;
        match self.mode {
            ModeStatus::Heat => match self.diff_mode {
                DiffStatus::Slow => target - 1000,
                DiffStatus::Normal => target - 400,
                DiffStatus::Fast => target - 300,
            },
            ModeStatus::Cool => match self.diff_mode {
                DiffStatus::Slow => target + 900,
                DiffStatus::Normal => target + 700,
                DiffStatus::Fast => target + 500,
            },
            ModeStatus::Off => self.current_temp_c as i64,
        }
    }

    /// Whether the compressor has run long enough to need a rest.
    pub fn should_rest(&self) -> (rest: bool)
        ensures
            rest == self@.should_rest(),
    {
        if let ModeStatus::Cool = self.mode {
            return match self.rest_mode {
                RestStatus::Short => self.total_cooling_duration > 3_600_000,
                RestStatus::Medium => self.total_cooling_duration > 5_400_000,
                RestStatus::Long => self.total_cooling_duration > 7_200_000,
                RestStatus::Off => false,
            };
        }
        false
    }

    /// Formats a Celsius temperature in the unit that the user prefers.
    pub fn format_temp(&self, temp_c: i64) -> (text: String)
        ensures
            text@ == temperature_text(temp_c as int, self@.use_fahrenheit),
    {
        let mut text = String::new();
        if self.use_fahrenheit {
            let tenths = round_div_exec(9 * (temp_c as i128) + 160_000, 500);
            push_one_decimal(&mut text, tenths);
            text.append("°F");
        } else {
            let tenths = round_div_exec(temp_c as i128, 100);
            push_one_decimal(&mut text, tenths);
            text.append("°C");
        }
        assert(text@ =~= temperature_text(temp_c as int, self@.use_fahrenheit));
        text
    }

    /// Formats a duration as minutes and seconds.
    pub fn format_time(duration: u64) -> (text: String)
        ensures
            text@ == time_text(duration),
    {
        let seconds: u64 = duration / 1000;
        let mut text = String::new();
        push_two_digits(&mut text, (seconds / 60) as u128);
        text.append(":");
        push_two_digits(&mut text, (seconds % 60) as u128);
        assert(text@ =~= time_text(duration));
        text
    }

    /// The waiting threshold as the user reads it.
    pub fn get_waiting_temp_formatted(&self) -> (text: String)
        ensures
            text@ == temperature_text(self@.waiting_target(), self@.use_fahrenheit),
    {
        self.format_temp(self.get_waiting_target_temp())
    }

    /// What is left of the rest at `now`, as minutes and seconds.
    pub fn get_remaining_resting_duration_formatted(&self, now: u64) -> (text: String)
        ensures
            text@ == time_text(self@.remaining_rest(now)),
    {
        let elapsed = elapsed(now, self.last_resting_start_time);
        let remaining: u64 = if elapsed >= REST_DURATION {
            0
        } else {
            REST_DURATION - elapsed
        };
        Self::format_time(remaining)
    }

    /// The status line at `now`.
    pub fn get_status_message(&self, now: u64) -> (text: String)
        ensures
            text@ == self@.status_text(now),
    {
        match self.runtime_state {
            ThermostatRuntimeState::Waiting => {
                let mut text = String::from_str("Waiting for ");
                let threshold = self.get_waiting_temp_formatted();
                text.append(threshold.as_str());
                text
            },
            ThermostatRuntimeState::Heating => String::from_str("Heating"),
            ThermostatRuntimeState::Cooling => String::from_str("Cooling"),
            ThermostatRuntimeState::Resting => {
                let mut text = String::from_str("Defrosting for ");
                let remaining = self.get_remaining_resting_duration_formatted(now);
                text.append(remaining.as_str());
                text
            },
            ThermostatRuntimeState::Idle => String::from_str("Idling"),
        }
    }

    /// Sets the HVAC mode at once, without waiting for the next intake.
    pub fn set_mode(&mut self, mode: ModeStatus)
        ensures
            final(self)@ == (ThermostatModel { mode, ..old(self)@ }),
    {
        self.mode = mode;
    }

    /// Sets the defrost tier at once.
    pub fn set_rest_mode(&mut self, rest_mode: RestStatus)
        ensures
            final(self)@ == (ThermostatModel { rest_mode, ..old(self)@ }),
    {
        self.rest_mode = rest_mode;
    }

    /// Sets the fan mode at once.
    pub fn set_fan_mode(&mut self, fan_mode: FanStatus)
        ensures
            final(self)@ == (ThermostatModel { fan_mode, ..old(self)@ }),
    {
        self.fan_mode = fan_mode;
    }

    /// Sets the target temperature at once.
    pub fn set_target_temp(&mut self, target_temp_c: i32)
        ensures
            final(self)@ == (ThermostatModel { target_temp_c, ..old(self)@ }),
    {
        self.target_temp_c = target_temp_c;
    }

    /// Records the latest sensor reading.
    pub fn set_current_temp(&mut self, current_temp_c: i32)
        ensures
            final(self)@ == old(self)@.with_reading(current_temp_c),
    {
        self.current_temp_c = current_temp_c;
    }

    /// Posts a configuration message; it is applied at the next intake.
    pub fn push_event(&mut self, event: UiEvent)
        ensures
            final(self)@ == (ThermostatModel { inbox: old(self)@.inbox.push(event), ..old(self)@ }),
    {
        self.inbox.push(event);
    }

    fn apply_event(&mut self, event: UiEvent)
        ensures
            final(self)@ == old(self)@.apply(event),
    {
        match event {
            UiEvent::ModeUpdate(mode) => self.mode = mode,
            UiEvent::UseFahrenheitUpdate(use_fahrenheit) => self.use_fahrenheit = use_fahrenheit,
            UiEvent::DiffUpdate(diff_mode) => self.diff_mode = diff_mode,
            UiEvent::RestUpdate(rest_mode) => self.rest_mode = rest_mode,
            UiEvent::FanUpdate(fan_mode) => self.fan_mode = fan_mode,
            UiEvent::TargetTempUpdate(target_temp_c) => self.target_temp_c = target_temp_c,
        }
    }

    /// Takes in the pending configuration messages, if the configuration has
    /// been left alone for at least the debounce interval.
    pub fn receive_events(&mut self, now: u64)
        ensures
            final(self)@ == old(self)@.after_receive(now),
    {
        if elapsed(now, self.last_user_interaction_time) < DEBOUNCE_INTERVAL {
            return;
        }
        let mut events: Vec<UiEvent> = Vec::new();
        std::mem::swap(&mut events, &mut self.inbox);
        let mut index: usize = 0;
        while index < events.len()
            invariant
                index <= events.len(),
                events@ == old(self)@.inbox,
                self@ == (ThermostatModel {
                    inbox: Seq::empty(),
                    ..old(self)@.apply_all(events@.subrange(0, index as int))
                }),
            decreases events.len() - index,
        {
            let event = events[index];
            proof {
                let taken = events@.subrange(0, index + 1);
                assert(taken.drop_last() =~= events@.subrange(0, index as int));
                assert(taken.last() == event);
            }
            self.apply_event(event);
            index += 1;
        }
        assert(events@.subrange(0, index as int) =~= events@);
        self.last_user_interaction_time = now;
    }

    fn start_heating(&mut self, controller: &mut Controller)
        ensures
            final(self)@ == (ThermostatModel {
                runtime_state: ThermostatRuntimeState::Heating,
                ..old(self)@
            }),
            final(controller)@ == entered(
                old(controller)@,
                ThermostatRuntimeState::Heating,
                old(self)@.fan_mode,
            ),
    {
        self.runtime_state = ThermostatRuntimeState::Heating;
        controller.set_heating(true);
        controller.set_cooling(false);
        controller.set_fan(true);
    }

    fn start_cooling(&mut self, controller: &mut Controller)
        ensures
            final(self)@ == (ThermostatModel {
                runtime_state: ThermostatRuntimeState::Cooling,
                ..old(self)@
            }),
            final(controller)@ == entered(
                old(controller)@,
                ThermostatRuntimeState::Cooling,
                old(self)@.fan_mode,
            ),
    {
        self.runtime_state = ThermostatRuntimeState::Cooling;
        controller.set_cooling(true);
        controller.set_heating(false);
        controller.set_fan(true);
    }

    fn start_idle(&mut self, controller: &mut Controller)
        ensures
            final(self)@ == (ThermostatModel {
                runtime_state: ThermostatRuntimeState::Idle,
                ..old(self)@
            }),
            final(controller)@ == entered(
                old(controller)@,
                ThermostatRuntimeState::Idle,
                old(self)@.fan_mode,
            ),
    {
        self.runtime_state = ThermostatRuntimeState::Idle;
        controller.set_heating(false);
        controller.set_cooling(false);
        if self.fan_mode == FanStatus::Auto {
            controller.set_fan(false);
        }
    }

    fn start_resting(&mut self, controller: &mut Controller, now: u64)
        ensures
            final(self)@ == old(self)@.entering(ThermostatRuntimeState::Resting, now),
            final(controller)@ == entered(
                old(controller)@,
                ThermostatRuntimeState::Resting,
                old(self)@.fan_mode,
            ),
    {
        self.runtime_state = ThermostatRuntimeState::Resting;
        self.last_resting_start_time = now;
        controller.set_heating(false);
        controller.set_cooling(false);
        controller.set_fan(true);
    }

    fn start_waiting(&mut self, controller: &mut Controller, now: u64)
        ensures
            final(self)@ == old(self)@.entering(ThermostatRuntimeState::Waiting, now),
            final(controller)@ == entered(
                old(controller)@,
                ThermostatRuntimeState::Waiting,
                old(self)@.fan_mode,
            ),
    {
        self.runtime_state = ThermostatRuntimeState::Waiting;
        self.last_resting_start_time = now;
        controller.set_heating(false);
        controller.set_cooling(false);
        if self.fan_mode == FanStatus::Auto {
            controller.set_fan(false);
        }
    }

    fn start_for_mode(&mut self, controller: &mut Controller)
        ensures
            final(self)@ == (ThermostatModel {
                runtime_state: dispatch(old(self)@.mode),
                ..old(self)@
            }),
            final(controller)@ == entered(
                old(controller)@,
                dispatch(old(self)@.mode),
                old(self)@.fan_mode,
            ),
    {
        match self.mode {
            ModeStatus::Heat => self.start_heating(controller),
            ModeStatus::Cool => self.start_cooling(controller),
            ModeStatus::Off => self.start_idle(controller),
        }
    }

    /// Runs one tick at `now`: takes in pending configuration, brings the
    /// timers up to date, makes at most one transition with its relay
    /// commands, and returns the status line to report.
    pub fn run(&mut self, controller: &mut Controller, now: u64) -> (report: BackendEvent)
        ensures
            final(self)@ == old(self)@.after_run(now),
            final(controller)@ == old(self)@.controller_after_run(old(controller)@, now),
            report matches BackendEvent::CurrentStateMessage(text)
                && text@ == final(self)@.status_text(now),
    {
        self.receive_events(now);
        match self.runtime_state {
            ThermostatRuntimeState::Waiting => {
                if elapsed(now, self.last_resting_start_time) > REST_DURATION {
                    self.total_cooling_duration = 0;
                }
                match self.mode {
                    ModeStatus::Heat => {
                        if (self.current_temp_c as i64) < self.get_waiting_target_temp() {
                            self.start_heating(controller);
                        }
                    },
                    ModeStatus::Cool => {
                        if (self.current_temp_c as i64) > self.get_waiting_target_temp() {
                            self.start_cooling(controller);
                        }
                    },
                    ModeStatus::Off => {
                        self.start_idle(controller);
                    },
                }
            },
            ThermostatRuntimeState::Heating => {
                self.total_heating_duration = add_duration(
                    self.total_heating_duration,
                    elapsed(now, self.last_run_finished_time),
                );
                if self.current_temp_c >= self.target_temp_c {
                    self.start_waiting(controller, now);
                }
            },
            ThermostatRuntimeState::Cooling => {
                self.total_cooling_duration = add_duration(
                    self.total_cooling_duration,
                    elapsed(now, self.last_run_finished_time),
                );
                if self.should_rest() {
                    self.start_resting(controller, now);
                } else if self.current_temp_c <= self.target_temp_c {
                    self.start_waiting(controller, now);
                }
            },
            ThermostatRuntimeState::Resting => {
                if elapsed(now, self.last_resting_start_time) > REST_DURATION {
                    self.total_cooling_duration = 0;
                    self.start_for_mode(controller);
                }
            },
            ThermostatRuntimeState::Idle => {
                self.start_for_mode(controller);
            },
        }
        self.last_run_finished_time = now;
        BackendEvent::CurrentStateMessage(self.get_status_message(now))
    }

    /// Runs one tick on this tick's sensor reading: takes in the outcome of
    /// the measurement (`None` when it failed), decides on the temperature
    /// that the controller then reports, and returns that temperature and
    /// the status line to report.
    pub fn tick(
        &mut self,
        controller: &mut Controller,
        measurement: Option<i32>,
        now: u64,
    ) -> (reports: (BackendEvent, BackendEvent))
        ensures
            final(self)@ == old(self)@.with_reading(
                old(controller)@.temperature_c(measurement),
            ).after_run(now),
            final(controller)@ == old(self)@.with_reading(
                old(controller)@.temperature_c(measurement),
            ).controller_after_run(old(controller)@.after_reading(measurement), now),
            reports.0 matches BackendEvent::CurrentTempCUpdate(temperature)
                && temperature == old(controller)@.temperature_c(measurement),
            reports.1 matches BackendEvent::CurrentStateMessage(text)
                && text@ == final(self)@.status_text(now),
    {
        let temperature = controller.get_temperature_c(measurement);
        self.set_current_temp(temperature);
        let report = self.run(controller, now);
        (BackendEvent::CurrentTempCUpdate(temperature), report)
    }

    /// What the system is doing.
    pub fn runtime_state(&self) -> (state: ThermostatRuntimeState)
        ensures
            state == self@.runtime_state,
    {
        self.runtime_state
    }

    /// The HVAC mode in force.
    pub fn mode(&self) -> (mode: ModeStatus)
        ensures
            mode == self@.mode,
    {
        self.mode
    }

    /// The hysteresis speed in force.
    pub fn diff_mode(&self) -> (diff_mode: DiffStatus)
        ensures
            diff_mode == self@.diff_mode,
    {
        self.diff_mode
    }

    /// The defrost tier in force.
    pub fn rest_mode(&self) -> (rest_mode: RestStatus)
        ensures
            rest_mode == self@.rest_mode,
    {
        self.rest_mode
    }

    /// The fan mode in force.
    pub fn fan_mode(&self) -> (fan_mode: FanStatus)
        ensures
            fan_mode == self@.fan_mode,
    {
        self.fan_mode
    }

    /// Whether temperatures are shown in Fahrenheit.
    pub fn use_fahrenheit(&self) -> (use_fahrenheit: bool)
        ensures
            use_fahrenheit == self@.use_fahrenheit,
    {
        self.use_fahrenheit
    }

    /// The last sensor reading that was recorded.
    pub fn current_temp_c(&self) -> (temperature: i32)
        ensures
            temperature == self@.current_temp_c,
    {
        self.current_temp_c
    }

    /// The target temperature in force.
    pub fn target_temp_c(&self) -> (temperature: i32)
        ensures
            temperature == self@.target_temp_c,
    {
        self.target_temp_c
    }

    /// The cooling time accumulated since the last completed rest.
    pub fn total_cooling_duration(&self) -> (duration: u64)
        ensures
            duration == self@.total_cooling_duration,
    {
        self.total_cooling_duration
    }

    /// The heating time accumulated since start-up.
    pub fn total_heating_duration(&self) -> (duration: u64)
        ensures
            duration == self@.total_heating_duration,
    {
        self.total_heating_duration
    }

    /// When the rest clock was last started.
    pub fn last_resting_start_time(&self) -> (time: u64)
        ensures
            time == self@.last_resting_start_time,
    {
        self.last_resting_start_time
    }

    /// The number of configuration messages that are still pending.
    pub fn pending_events(&self) -> (count: usize)
        ensures
            count == self@.inbox.len(),
    {
        self.inbox.len()
    }
}

} // verus!
