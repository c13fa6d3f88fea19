//! Laws of the control core, proved over the models of its state and of the
//! controller.

use vstd::prelude::*;
use crate::backend::{
    accumulate, differential, elapsed_between, entered, rest_threshold, ThermostatModel,
    ThermostatRuntimeState, DEBOUNCE_INTERVAL, REST_DURATION,
};
use crate::controller::{ControllerModel, Relay, RelayWrite};
use crate::events::{FanStatus, ModeStatus, UiEvent};
use crate::units::{celsius_of, fahrenheit_of};

verus! {

/// Whether two states carry the same configuration.
pub open spec fn same_configuration(a: ThermostatModel, b: ThermostatModel) -> bool {
    &&& a.mode == b.mode
    &&& a.diff_mode == b.diff_mode
    &&& a.rest_mode == b.rest_mode
    &&& a.fan_mode == b.fan_mode
    &&& a.use_fahrenheit == b.use_fahrenheit
    &&& a.target_temp_c == b.target_temp_c
}

/// The write that switches `relay` to `on`, if it is not in that state already.
pub open spec fn change(controller: ControllerModel, relay: Relay, on: bool) -> Seq<RelayWrite> {
    if controller.relay(relay) == on {
        seq![]
    } else {
        seq![RelayWrite { relay, on }]
    }
}

/// While heating or cooling is selected, the waiting threshold is the target
/// plus a distance that mode and hysteresis speed alone determine, so it
/// rises and falls with the target.
pub proof fn waiting_target_follows_target(a: ThermostatModel, b: ThermostatModel)
    requires
        a.mode == b.mode,
        a.diff_mode == b.diff_mode,
        a.mode != ModeStatus::Off,
    ensures
        a.waiting_target() == a.target_temp_c + differential(a.mode, a.diff_mode),
        b.waiting_target() == b.target_temp_c + differential(a.mode, a.diff_mode),
        a.target_temp_c <= b.target_temp_c ==> a.waiting_target() <= b.waiting_target(),
        a.target_temp_c < b.target_temp_c ==> a.waiting_target() < b.waiting_target(),
{
}

/// With the mode off, the waiting threshold is the current temperature.
pub proof fn waiting_target_when_off(state: ThermostatModel)
    requires
        state.mode == ModeStatus::Off,
    ensures
        state.waiting_target() == state.current_temp_c,
{
}

/// Entering the heating state changes the runtime state and nothing else
/// of the control state. It commands heat on, cooling off and the fan on,
/// in this order, and each relay that was not in that state already is
/// written once.
pub proof fn heating_entry_commands(
    state: ThermostatModel,
    controller: ControllerModel,
    fan_mode: FanStatus,
    now: u64,
)
    ensures
        state.entering(ThermostatRuntimeState::Heating, now) == (ThermostatModel {
            runtime_state: ThermostatRuntimeState::Heating,
            ..state
        }),
        entered(controller, ThermostatRuntimeState::Heating, fan_mode) == (ControllerModel {
            heating: true,
            cooling: false,
            fan: true,
            writes: controller.writes + change(controller, Relay::Heat, true) + change(
                controller,
                Relay::Cool,
                false,
            ) + change(controller, Relay::Fan, true),
            ..controller
        }),
{
    let after = entered(controller, ThermostatRuntimeState::Heating, fan_mode);
    assert(after.writes =~= controller.writes + change(controller, Relay::Heat, true) + change(
        controller,
        Relay::Cool,
        false,
    ) + change(controller, Relay::Fan, true));
}

/// Entering the resting state starts the rest clock at the time of entry
/// and leaves the cooling total, and everything but the runtime state, as
/// it was. It commands heat off, cooling off and the fan on whatever the
/// fan mode is, in this order, and each relay that was not in that state
/// already is written once.
pub proof fn resting_entry_forces_fan(
    state: ThermostatModel,
    controller: ControllerModel,
    fan_mode: FanStatus,
    now: u64,
)
    ensures
        state.entering(ThermostatRuntimeState::Resting, now) == (ThermostatModel {
            runtime_state: ThermostatRuntimeState::Resting,
            last_resting_start_time: now,
            ..state
        }),
        state.entering(ThermostatRuntimeState::Resting, now).remaining_rest(now) == REST_DURATION,
        entered(controller, ThermostatRuntimeState::Resting, fan_mode) == (ControllerModel {
            heating: false,
            cooling: false,
            fan: true,
            writes: controller.writes + change(controller, Relay::Heat, false) + change(
                controller,
                Relay::Cool,
                false,
            ) + change(controller, Relay::Fan, true),
            ..controller
        }),
{
    let after = entered(controller, ThermostatRuntimeState::Resting, fan_mode);
    assert(after.writes =~= controller.writes + change(controller, Relay::Heat, false) + change(
        controller,
        Relay::Cool,
        false,
    ) + change(controller, Relay::Fan, true));
}

/// A tick that finds the system waiting, with heating selected and the
/// current temperature below the waiting threshold, enters the heating
/// state. Afterwards heat is on, cooling off and the fan on, and each relay
/// that was not in that state already was written once, in this order.
pub proof fn waiting_turns_to_heating(
    state: ThermostatModel,
    controller: ControllerModel,
    now: u64,
)
    requires
        state.runtime_state == ThermostatRuntimeState::Waiting,
        state.after_receive(now).mode == ModeStatus::Heat,
        state.after_receive(now).current_temp_c < state.after_receive(now).waiting_target(),
    ensures
        state.after_run(now).runtime_state == ThermostatRuntimeState::Heating,
        state.controller_after_run(controller, now).heating,
        !state.controller_after_run(controller, now).cooling,
        state.controller_after_run(controller, now).fan,
        state.controller_after_run(controller, now).writes == controller.writes + change(
            controller,
            Relay::Heat,
            true,
        ) + change(controller, Relay::Cool, false) + change(controller, Relay::Fan, true),
{
    intake_keeps_the_rest(state, now);
    let after = state.controller_after_run(controller, now);
    assert(after.writes =~= controller.writes + change(controller, Relay::Heat, true) + change(
        controller,
        Relay::Cool,
        false,
    ) + change(controller, Relay::Fan, true));
}

/// A tick that finds the system cooling in cool mode, with the cooling total
/// of this tick beyond the threshold of the defrost tier in force, enters
/// the resting state whatever the temperatures are: heat and cooling go
/// off, the fan on, and the rest clock starts at the tick. The total of the
/// tick is the stored one plus the time since the last tick, so a stored
/// total beyond the threshold is enough.
pub proof fn long_cooling_turns_to_resting(
    state: ThermostatModel,
    controller: ControllerModel,
    now: u64,
    threshold: u64,
)
    requires
        state.runtime_state == ThermostatRuntimeState::Cooling,
        state.after_receive(now).mode == ModeStatus::Cool,
        rest_threshold(state.after_receive(now).rest_mode) == Some(threshold),
        state.total_cooling_duration > threshold || accumulate(
            state.total_cooling_duration,
            elapsed_between(now, state.last_run_finished_time),
        ) > threshold,
    ensures
        state.after_run(now).runtime_state == ThermostatRuntimeState::Resting,
        state.after_run(now).last_resting_start_time == now,
        !state.controller_after_run(controller, now).heating,
        !state.controller_after_run(controller, now).cooling,
        state.controller_after_run(controller, now).fan,
{
    intake_keeps_the_rest(state, now);
}

/// A tick that finds the system resting leaves it resting, and the relays
/// alone, until more than the rest duration has passed since the rest began;
/// a tick on which the rest ends clears the cooling total.
pub proof fn resting_lasts_the_rest_duration(
    state: ThermostatModel,
    controller: ControllerModel,
    now: u64,
)
    requires
        state.runtime_state == ThermostatRuntimeState::Resting,
    ensures
        elapsed_between(now, state.last_resting_start_time) <= REST_DURATION ==> {
            &&& state.after_run(now).runtime_state == ThermostatRuntimeState::Resting
            &&& state.after_run(now).last_resting_start_time == state.last_resting_start_time
            &&& state.controller_after_run(controller, now) == controller
        },
        state.after_run(now).runtime_state != ThermostatRuntimeState::Resting ==> {
            &&& elapsed_between(now, state.last_resting_start_time) > REST_DURATION
            &&& state.after_run(now).total_cooling_duration == 0
        },
{
    intake_keeps_the_rest(state, now);
}

/// The intake changes nothing but the configuration, the list of pending
/// messages and the time of the last intake.
pub proof fn intake_keeps_the_rest(state: ThermostatModel, now: u64)
    ensures
        state.after_receive(now).current_temp_c == state.current_temp_c,
        state.after_receive(now).runtime_state == state.runtime_state,
        state.after_receive(now).total_cooling_duration == state.total_cooling_duration,
        state.after_receive(now).total_heating_duration == state.total_heating_duration,
        state.after_receive(now).last_resting_start_time == state.last_resting_start_time,
        state.after_receive(now).last_run_finished_time == state.last_run_finished_time,
{
    applying_keeps_the_rest(state, state.inbox);
}

/// Applying messages changes nothing but the configuration.
pub proof fn applying_keeps_the_rest(state: ThermostatModel, events: Seq<UiEvent>)
    ensures
        state.apply_all(events).inbox == state.inbox,
        state.apply_all(events).current_temp_c == state.current_temp_c,
        state.apply_all(events).runtime_state == state.runtime_state,
        state.apply_all(events).total_cooling_duration == state.total_cooling_duration,
        state.apply_all(events).total_heating_duration == state.total_heating_duration,
        state.apply_all(events).last_resting_start_time == state.last_resting_start_time,
        state.apply_all(events).last_user_interaction_time == state.last_user_interaction_time,
        state.apply_all(events).last_run_finished_time == state.last_run_finished_time,
    decreases events.len(),
{
    if events.len() > 0 {
        applying_keeps_the_rest(state, events.drop_last());
    }
}

/// A tick less than the debounce interval after the last intake leaves the
/// configuration as it was and every pending message pending.
pub proof fn early_tick_holds_messages_back(state: ThermostatModel, now: u64)
    requires
        elapsed_between(now, state.last_user_interaction_time) < DEBOUNCE_INTERVAL,
    ensures
        state.after_receive(now) == state,
        same_configuration(state.after_run(now), state),
        state.after_run(now).inbox == state.inbox,
        state.after_run(now).last_user_interaction_time == state.last_user_interaction_time,
{
}

/// A tick at least the debounce interval after the last intake applies
/// every pending message, in the order of arrival, empties the list and
/// notes the time.
pub proof fn late_tick_applies_messages(state: ThermostatModel, now: u64)
    requires
        elapsed_between(now, state.last_user_interaction_time) >= DEBOUNCE_INTERVAL,
    ensures
        same_configuration(state.after_run(now), state.apply_all(state.inbox)),
        state.after_run(now).inbox == Seq::<UiEvent>::empty(),
        state.after_run(now).last_user_interaction_time == now,
{
}

/// Two messages, the second of which arrives after the tick that took in
/// the first: a tick less than the debounce interval after that intake
/// shows the first message only and keeps the second pending; a tick once
/// the interval has passed shows both.
pub proof fn debounce_delays_second_message(
    state: ThermostatModel,
    first: UiEvent,
    second: UiEvent,
    intake: u64,
    early: u64,
    late: u64,
)
    requires
        state.inbox == seq![first],
        elapsed_between(intake, state.last_user_interaction_time) >= DEBOUNCE_INTERVAL,
        elapsed_between(early, intake) < DEBOUNCE_INTERVAL,
        elapsed_between(late, intake) >= DEBOUNCE_INTERVAL,
    ensures
        ({
            let taken = state.after_run(intake);
            let posted = ThermostatModel { inbox: taken.inbox.push(second), ..taken };
            let held = posted.after_run(early);
            let shown = held.after_run(late);
            &&& same_configuration(taken, state.apply(first))
            &&& same_configuration(held, state.apply(first))
            &&& held.inbox == seq![second]
            &&& same_configuration(shown, state.apply(first).apply(second))
            &&& shown.inbox == Seq::<UiEvent>::empty()
        }),
{
    let taken = state.after_run(intake);
    let posted = ThermostatModel { inbox: taken.inbox.push(second), ..taken };
    let held = posted.after_run(early);
    assert(state.inbox.drop_last() =~= Seq::<UiEvent>::empty());
    assert(state.apply_all(state.inbox) == state.apply(first)) by {
        assert(state.apply_all(state.inbox.drop_last()) == state);
        assert(state.inbox.last() == first);
    }
    assert(taken.inbox =~= Seq::<UiEvent>::empty());
    assert(posted.inbox =~= seq![second]);
    early_tick_holds_messages_back(posted, early);
    assert(held.inbox.drop_last() =~= Seq::<UiEvent>::empty());
    assert(held.apply_all(held.inbox) == held.apply(second)) by {
        assert(held.apply_all(held.inbox.drop_last()) == held);
        assert(held.inbox.last() == second);
    }
    late_tick_applies_messages(held, late);
}

/// Celsius to Fahrenheit and back returns the temperature it started from.
pub proof fn celsius_round_trip(celsius: int)
    ensures
        celsius_of(fahrenheit_of(celsius)) == celsius,
{
    let scaled = (18 * celsius + 5) / 10;
    assert(fahrenheit_of(celsius) == scaled + 32_000);
    assert(celsius_of(scaled + 32_000) == (10 * scaled + 9) / 18);
}

/// Fahrenheit to Celsius and back returns the temperature it started from
/// to within one thousandth of a degree.
pub proof fn fahrenheit_round_trip(fahrenheit: int)
    ensures
        -1 <= fahrenheit_of(celsius_of(fahrenheit)) - fahrenheit <= 1,
{
    let celsius = (10 * (fahrenheit - 32_000) + 9) / 18;
    assert(celsius_of(fahrenheit) == celsius);
    assert(fahrenheit_of(celsius) == (18 * celsius + 5) / 10 + 32_000);
}

/// A tick never leaves heat and cooling on together, if they were not
/// before it.
pub proof fn heat_and_cooling_exclude_each_other(
    state: ThermostatModel,
    controller: ControllerModel,
    now: u64,
)
    requires
        !(controller.heating && controller.cooling),
    ensures
        !(state.controller_after_run(controller, now).heating && state.controller_after_run(
            controller,
            now,
        ).cooling),
{
}

/// The cooling total grows only on a tick that finds the system cooling,
/// and then by no more than the time since the last tick.
pub proof fn cooling_total_grows_only_while_cooling(state: ThermostatModel, now: u64)
    ensures
        state.runtime_state != ThermostatRuntimeState::Cooling ==> state.after_run(
            now,
        ).total_cooling_duration <= state.total_cooling_duration,
        state.runtime_state == ThermostatRuntimeState::Cooling ==> state.after_run(
            now,
        ).total_cooling_duration == accumulate(
            state.total_cooling_duration,
            elapsed_between(now, state.last_run_finished_time),
        ),
{
    intake_keeps_the_rest(state, now);
}

/// The display unit steers nothing: two states that differ in it alone
/// differ in it alone after a tick, and command the relays alike.
pub proof fn display_unit_steers_nothing(
    a: ThermostatModel,
    b: ThermostatModel,
    controller: ControllerModel,
    now: u64,
)
    requires
        a == (ThermostatModel { use_fahrenheit: a.use_fahrenheit, ..b }),
    ensures
        a.after_run(now) == (ThermostatModel {
            use_fahrenheit: a.after_run(now).use_fahrenheit,
            ..b.after_run(now)
        }),
        a.controller_after_run(controller, now) == b.controller_after_run(controller, now),
{
    display_unit_survives_messages(a, b, a.inbox);
}

/// Two states that differ in the display unit alone still do so after the
/// same messages were applied to both.
pub proof fn display_unit_survives_messages(
    a: ThermostatModel,
    b: ThermostatModel,
    events: Seq<UiEvent>,
)
    requires
        a == (ThermostatModel { use_fahrenheit: a.use_fahrenheit, ..b }),
    ensures
        a.apply_all(events) == (ThermostatModel {
            use_fahrenheit: a.apply_all(events).use_fahrenheit,
            ..b.apply_all(events)
        }),
    decreases events.len(),
{
    if events.len() > 0 {
        display_unit_survives_messages(a, b, events.drop_last());
    }
}

} // verus!
