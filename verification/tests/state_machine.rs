use esp_thermostat::backend::{ThermostatRuntimeState, ThermostatState};
use esp_thermostat::controller::{Controller, Relay, RelayWrite};
use esp_thermostat::events::{
    BackendEvent, DiffStatus, FanStatus, ModeStatus, RestStatus, UiEvent,
};

const MINUTE: u64 = 60_000;

fn controller_without_sensor() -> Controller {
    let mut controller = Controller::new(&Vec::new());
    controller.take_writes();
    controller
}

fn status(event: BackendEvent) -> String {
    match event {
        BackendEvent::CurrentStateMessage(text) => text,
        BackendEvent::CurrentTempCUpdate(_) => panic!("a tick reports a status line"),
    }
}

fn write(relay: Relay, on: bool) -> RelayWrite {
    RelayWrite { relay, on }
}

#[test]
fn starts_waiting_with_defaults() {
    let state = ThermostatState::new(42);
    assert_eq!(state.runtime_state(), ThermostatRuntimeState::Waiting);
    assert_eq!(state.mode(), ModeStatus::Off);
    assert_eq!(state.diff_mode(), DiffStatus::Normal);
    assert_eq!(state.rest_mode(), RestStatus::Off);
    assert_eq!(state.fan_mode(), FanStatus::Auto);
    assert!(state.use_fahrenheit());
    assert_eq!(state.current_temp_c(), 21_000);
    assert_eq!(state.target_temp_c(), 21_000);
    assert_eq!(state.total_cooling_duration(), 0);
    assert_eq!(state.total_heating_duration(), 0);
    assert_eq!(state.last_resting_start_time(), 42);
    assert_eq!(state.pending_events(), 0);
}

#[test]
fn waiting_target_uses_fixed_offsets() {
    let mut state = ThermostatState::new(0);
    state.set_target_temp(20_000);
    let cases = [
        (ModeStatus::Heat, DiffStatus::Slow, 19_000),
        (ModeStatus::Heat, DiffStatus::Normal, 19_600),
        (ModeStatus::Heat, DiffStatus::Fast, 19_700),
        (ModeStatus::Cool, DiffStatus::Slow, 20_900),
        (ModeStatus::Cool, DiffStatus::Normal, 20_700),
        (ModeStatus::Cool, DiffStatus::Fast, 20_500),
    ];
    for (mode, diff, expected) in cases {
        state.push_event(UiEvent::ModeUpdate(mode));
        state.push_event(UiEvent::DiffUpdate(diff));
    }
    // The intake applies the messages in order, so the last pair is in force.
    state.receive_events(10_000);
    assert_eq!(state.get_waiting_target_temp(), 20_500);
    let mut now = 10_000;
    for (mode, diff, expected) in cases {
        now += 6_000;
        state.push_event(UiEvent::ModeUpdate(mode));
        state.push_event(UiEvent::DiffUpdate(diff));
        state.receive_events(now);
        assert_eq!(state.get_waiting_target_temp(), expected);
    }
}

#[test]
fn waiting_target_moves_with_target() {
    let mut state = ThermostatState::new(0);
    state.set_mode(ModeStatus::Heat);
    let mut previous = i64::MIN;
    for target in [-5_000, 0, 18_500, 21_000, 30_250] {
        state.set_target_temp(target);
        let threshold = state.get_waiting_target_temp();
        assert_eq!(threshold, target as i64 - 400);
        assert!(threshold > previous);
        previous = threshold;
    }
    state.set_target_temp(i32::MIN);
    assert_eq!(state.get_waiting_target_temp(), i32::MIN as i64 - 400);
    state.set_mode(ModeStatus::Cool);
    state.set_target_temp(i32::MAX);
    assert_eq!(state.get_waiting_target_temp(), i32::MAX as i64 + 700);
}

#[test]
fn waiting_target_is_current_temperature_when_off() {
    let mut state = ThermostatState::new(0);
    state.set_target_temp(30_000);
    state.set_current_temp(17_250);
    assert_eq!(state.get_waiting_target_temp(), 17_250);
    state.set_current_temp(-3_000);
    assert_eq!(state.get_waiting_target_temp(), -3_000);
}

#[test]
fn waiting_starts_heating_below_threshold() {
    let mut state = ThermostatState::new(0);
    let mut controller = controller_without_sensor();
    state.set_mode(ModeStatus::Heat);
    state.set_target_temp(21_000);
    state.set_current_temp(20_599);
    let report = state.run(&mut controller, 1_000);
    assert_eq!(state.runtime_state(), ThermostatRuntimeState::Heating);
    assert_eq!(status(report), "Heating");
    assert!(controller.is_heating());
    assert!(!controller.is_cooling());
    assert!(controller.is_fan());
    assert_eq!(
        controller.take_writes(),
        vec![write(Relay::Heat, true), write(Relay::Fan, true)]
    );
    // The next tick stays in the heating state and writes nothing again.
    state.run(&mut controller, 2_000);
    assert_eq!(state.runtime_state(), ThermostatRuntimeState::Heating);
    assert_eq!(controller.take_writes(), vec![]);
}

#[test]
fn waiting_does_not_start_heating_at_threshold() {
    let mut state = ThermostatState::new(0);
    let mut controller = controller_without_sensor();
    state.set_mode(ModeStatus::Heat);
    state.set_target_temp(21_000);
    state.set_current_temp(20_600);
    state.run(&mut controller, 1_000);
    assert_eq!(state.runtime_state(), ThermostatRuntimeState::Waiting);
    assert_eq!(controller.take_writes(), vec![]);
}

#[test]
fn heating_stops_at_target() {
    let mut state = ThermostatState::new(0);
    let mut controller = controller_without_sensor();
    state.set_mode(ModeStatus::Heat);
    state.set_target_temp(21_000);
    state.set_current_temp(20_000);
    state.run(&mut controller, 1_000);
    controller.take_writes();
    state.set_current_temp(20_999);
    state.run(&mut controller, 2_000);
    assert_eq!(state.runtime_state(), ThermostatRuntimeState::Heating);
    state.set_current_temp(21_000);
    let report = state.run(&mut controller, 4_000);
    assert_eq!(state.runtime_state(), ThermostatRuntimeState::Waiting);
    assert_eq!(state.total_heating_duration(), 3_000);
    assert_eq!(state.last_resting_start_time(), 4_000);
    assert_eq!(status(report), "Waiting for 69.1°F");
    assert_eq!(
        controller.take_writes(),
        vec![write(Relay::Heat, false), write(Relay::Fan, false)]
    );
}

#[test]
fn waiting_keeps_fan_running_when_fan_is_on() {
    let mut state = ThermostatState::new(0);
    let mut controller = controller_without_sensor();
    state.set_mode(ModeStatus::Heat);
    state.set_fan_mode(FanStatus::On);
    state.set_current_temp(20_000);
    state.run(&mut controller, 1_000);
    controller.take_writes();
    state.set_current_temp(22_000);
    state.run(&mut controller, 2_000);
    assert_eq!(state.runtime_state(), ThermostatRuntimeState::Waiting);
    assert!(controller.is_fan());
    assert_eq!(controller.take_writes(), vec![write(Relay::Heat, false)]);
}

#[test]
fn waiting_goes_idle_when_off() {
    let mut state = ThermostatState::new(0);
    let mut controller = controller_without_sensor();
    let report = state.run(&mut controller, 1_000);
    assert_eq!(state.runtime_state(), ThermostatRuntimeState::Idle);
    assert_eq!(status(report), "Idling");
    assert_eq!(controller.take_writes(), vec![]);
    state.set_mode(ModeStatus::Cool);
    state.run(&mut controller, 2_000);
    assert_eq!(state.runtime_state(), ThermostatRuntimeState::Cooling);
    assert_eq!(
        controller.take_writes(),
        vec![write(Relay::Cool, true), write(Relay::Fan, true)]
    );
}

#[test]
fn idle_turns_fan_off_once_fan_is_auto_again() {
    let mut state = ThermostatState::new(0);
    let mut controller = controller_without_sensor();
    controller.set_fan(true);
    controller.take_writes();
    state.set_fan_mode(FanStatus::On);
    state.run(&mut controller, 1_000);
    assert_eq!(state.runtime_state(), ThermostatRuntimeState::Idle);
    assert!(controller.is_fan());
    state.set_fan_mode(FanStatus::Auto);
    state.run(&mut controller, 2_000);
    assert_eq!(state.runtime_state(), ThermostatRuntimeState::Idle);
    assert_eq!(controller.take_writes(), vec![write(Relay::Fan, false)]);
}

#[test]
fn cooling_rests_after_threshold_whatever_the_temperature() {
    for (rest_mode, minutes) in [
        (RestStatus::Short, 60),
        (RestStatus::Medium, 90),
        (RestStatus::Long, 120),
    ] {
        let mut state = ThermostatState::new(0);
        let mut controller = controller_without_sensor();
        state.set_mode(ModeStatus::Cool);
        state.set_rest_mode(rest_mode);
        state.set_fan_mode(FanStatus::On);
        state.set_target_temp(22_000);
        state.set_current_temp(30_000);
        state.run(&mut controller, 1_000);
        assert_eq!(state.runtime_state(), ThermostatRuntimeState::Cooling);
        controller.take_writes();
        // Exactly the threshold is not beyond it.
        state.run(&mut controller, 1_000 + minutes * MINUTE);
        assert_eq!(state.runtime_state(), ThermostatRuntimeState::Cooling);
        assert_eq!(state.total_cooling_duration(), minutes * MINUTE);
        assert!(!state.should_rest());
        // One millisecond more is, even at a temperature below the target.
        state.set_current_temp(10_000);
        let now = 1_001 + minutes * MINUTE;
        let report = state.run(&mut controller, now);
        assert_eq!(state.runtime_state(), ThermostatRuntimeState::Resting);
        assert_eq!(state.last_resting_start_time(), now);
        assert!(controller.is_fan());
        assert!(!controller.is_cooling());
        assert!(!controller.is_heating());
        assert_eq!(controller.take_writes(), vec![write(Relay::Cool, false)]);
        assert_eq!(status(report), "Defrosting for 30:00");
    }
}

#[test]
fn cooling_never_rests_with_rest_off() {
    let mut state = ThermostatState::new(0);
    let mut controller = controller_without_sensor();
    state.set_mode(ModeStatus::Cool);
    state.set_current_temp(30_000);
    state.run(&mut controller, 1_000);
    state.run(&mut controller, 1_000 + 500 * MINUTE);
    assert_eq!(state.runtime_state(), ThermostatRuntimeState::Cooling);
    assert_eq!(state.total_cooling_duration(), 500 * MINUTE);
    assert!(!state.should_rest());
    state.set_current_temp(21_000);
    state.run(&mut controller, 2_000 + 500 * MINUTE);
    assert_eq!(state.runtime_state(), ThermostatRuntimeState::Waiting);
}

#[test]
fn cooling_total_saturates() {
    let mut state = ThermostatState::new(0);
    let mut controller = controller_without_sensor();
    state.set_mode(ModeStatus::Cool);
    state.set_current_temp(30_000);
    state.run(&mut controller, 0);
    state.run(&mut controller, u64::MAX - 5);
    assert_eq!(state.total_cooling_duration(), u64::MAX - 5);
    state.run(&mut controller, 10);
    assert_eq!(state.total_cooling_duration(), u64::MAX - 5);
    state.run(&mut controller, 100);
    assert_eq!(state.total_cooling_duration(), u64::MAX);
    assert_eq!(state.runtime_state(), ThermostatRuntimeState::Cooling);
}

#[test]
fn resting_lasts_thirty_minutes_and_clears_total() {
    let mut state = ThermostatState::new(0);
    let mut controller = controller_without_sensor();
    state.set_mode(ModeStatus::Cool);
    state.set_rest_mode(RestStatus::Short);
    state.set_current_temp(30_000);
    state.run(&mut controller, 0);
    let rest_start = 61 * MINUTE;
    state.run(&mut controller, rest_start);
    assert_eq!(state.runtime_state(), ThermostatRuntimeState::Resting);
    controller.take_writes();
    // Neither a cold room nor a change of mode ends the rest early.
    state.set_current_temp(0);
    state.set_mode(ModeStatus::Heat);
    let report = state.run(&mut controller, rest_start + 10 * MINUTE + 15_999);
    assert_eq!(state.runtime_state(), ThermostatRuntimeState::Resting);
    assert_eq!(status(report), "Defrosting for 19:44");
    let report = state.run(&mut controller, rest_start + 30 * MINUTE);
    assert_eq!(state.runtime_state(), ThermostatRuntimeState::Resting);
    assert_eq!(status(report), "Defrosting for 00:00");
    assert_eq!(state.total_cooling_duration(), 61 * MINUTE);
    assert_eq!(controller.take_writes(), vec![]);
    state.run(&mut controller, rest_start + 30 * MINUTE + 1);
    assert_eq!(state.runtime_state(), ThermostatRuntimeState::Heating);
    assert_eq!(state.total_cooling_duration(), 0);
    assert_eq!(controller.take_writes(), vec![write(Relay::Heat, true)]);
}

#[test]
fn resting_ends_in_idle_when_off() {
    let mut state = ThermostatState::new(0);
    let mut controller = controller_without_sensor();
    state.set_mode(ModeStatus::Cool);
    state.set_rest_mode(RestStatus::Short);
    state.set_current_temp(30_000);
    state.run(&mut controller, 0);
    state.run(&mut controller, 61 * MINUTE);
    controller.take_writes();
    state.set_mode(ModeStatus::Off);
    state.run(&mut controller, 92 * MINUTE);
    assert_eq!(state.runtime_state(), ThermostatRuntimeState::Idle);
    assert_eq!(state.total_cooling_duration(), 0);
    assert_eq!(controller.take_writes(), vec![write(Relay::Fan, false)]);
}

#[test]
fn long_wait_clears_cooling_total() {
    let mut state = ThermostatState::new(0);
    let mut controller = controller_without_sensor();
    state.set_mode(ModeStatus::Cool);
    state.set_rest_mode(RestStatus::Long);
    state.set_target_temp(22_000);
    state.set_current_temp(30_000);
    state.run(&mut controller, 0);
    state.set_current_temp(22_000);
    state.run(&mut controller, 20 * MINUTE);
    assert_eq!(state.runtime_state(), ThermostatRuntimeState::Waiting);
    assert_eq!(state.total_cooling_duration(), 20 * MINUTE);
    state.run(&mut controller, 50 * MINUTE);
    assert_eq!(state.total_cooling_duration(), 20 * MINUTE);
    state.run(&mut controller, 50 * MINUTE + 1);
    assert_eq!(state.total_cooling_duration(), 0);
    assert_eq!(state.runtime_state(), ThermostatRuntimeState::Waiting);
}

#[test]
fn clock_that_steps_back_counts_as_no_time() {
    let mut state = ThermostatState::new(10_000);
    let mut controller = controller_without_sensor();
    state.set_mode(ModeStatus::Heat);
    state.set_current_temp(10_000);
    state.run(&mut controller, 10_000);
    state.run(&mut controller, 4_000);
    assert_eq!(state.runtime_state(), ThermostatRuntimeState::Heating);
    assert_eq!(state.total_heating_duration(), 0);
}

#[test]
fn debounce_holds_messages_until_interval_has_passed() {
    let mut state = ThermostatState::new(0);
    let mut controller = controller_without_sensor();
    state.push_event(UiEvent::ModeUpdate(ModeStatus::Heat));
    state.run(&mut controller, 4_999);
    assert_eq!(state.mode(), ModeStatus::Off);
    assert_eq!(state.pending_events(), 1);
    state.run(&mut controller, 5_000);
    assert_eq!(state.mode(), ModeStatus::Heat);
    assert_eq!(state.pending_events(), 0);
    // A second message within the window of that intake waits.
    state.push_event(UiEvent::TargetTempUpdate(25_000));
    state.run(&mut controller, 7_000);
    assert_eq!(state.mode(), ModeStatus::Heat);
    assert_eq!(state.target_temp_c(), 21_000);
    assert_eq!(state.pending_events(), 1);
    state.run(&mut controller, 9_999);
    assert_eq!(state.target_temp_c(), 21_000);
    assert_eq!(state.pending_events(), 1);
    state.run(&mut controller, 10_000);
    assert_eq!(state.mode(), ModeStatus::Heat);
    assert_eq!(state.target_temp_c(), 25_000);
    assert_eq!(state.pending_events(), 0);
}

#[test]
fn intake_opens_at_exactly_the_interval() {
    let mut state = ThermostatState::new(1_000);
    state.push_event(UiEvent::RestUpdate(RestStatus::Long));
    state.receive_events(5_999);
    assert_eq!(state.rest_mode(), RestStatus::Off);
    assert_eq!(state.pending_events(), 1);
    state.receive_events(6_000);
    assert_eq!(state.rest_mode(), RestStatus::Long);
    assert_eq!(state.pending_events(), 0);
    // The intake at 6 s is noted: the next one is due at 11 s.
    state.push_event(UiEvent::RestUpdate(RestStatus::Short));
    state.receive_events(10_999);
    assert_eq!(state.rest_mode(), RestStatus::Long);
    state.receive_events(11_000);
    assert_eq!(state.rest_mode(), RestStatus::Short);
}

#[test]
fn debounce_clock_restarts_only_on_intake() {
    let mut state = ThermostatState::new(0);
    state.receive_events(6_000);
    state.push_event(UiEvent::FanUpdate(FanStatus::On));
    state.receive_events(8_000);
    state.receive_events(10_000);
    state.receive_events(10_999);
    assert_eq!(state.fan_mode(), FanStatus::Auto);
    // Eleven seconds is five after the intake at six, whatever happened between.
    state.receive_events(11_000);
    assert_eq!(state.fan_mode(), FanStatus::On);
}

#[test]
fn intake_applies_messages_in_order() {
    let mut state = ThermostatState::new(0);
    state.push_event(UiEvent::TargetTempUpdate(18_000));
    state.push_event(UiEvent::ModeUpdate(ModeStatus::Cool));
    state.push_event(UiEvent::UseFahrenheitUpdate(false));
    state.push_event(UiEvent::DiffUpdate(DiffStatus::Slow));
    state.push_event(UiEvent::RestUpdate(RestStatus::Medium));
    state.push_event(UiEvent::FanUpdate(FanStatus::On));
    state.push_event(UiEvent::TargetTempUpdate(19_000));
    state.push_event(UiEvent::ModeUpdate(ModeStatus::Heat));
    state.receive_events(5_000);
    assert_eq!(state.mode(), ModeStatus::Heat);
    assert_eq!(state.target_temp_c(), 19_000);
    assert!(!state.use_fahrenheit());
    assert_eq!(state.diff_mode(), DiffStatus::Slow);
    assert_eq!(state.rest_mode(), RestStatus::Medium);
    assert_eq!(state.fan_mode(), FanStatus::On);
    assert_eq!(state.pending_events(), 0);
}

#[test]
fn display_unit_does_not_change_decisions() {
    for use_fahrenheit in [true, false] {
        let mut state = ThermostatState::new(0);
        let mut controller = controller_without_sensor();
        state.push_event(UiEvent::UseFahrenheitUpdate(use_fahrenheit));
        state.push_event(UiEvent::ModeUpdate(ModeStatus::Cool));
        state.set_current_temp(21_701);
        state.run(&mut controller, 6_000);
        assert_eq!(state.runtime_state(), ThermostatRuntimeState::Cooling);
        assert_eq!(state.use_fahrenheit(), use_fahrenheit);
    }
}

#[test]
fn cooling_cycle_with_defrost() {
    let mut state = ThermostatState::new(0);
    let mut controller = controller_without_sensor();
    state.push_event(UiEvent::ModeUpdate(ModeStatus::Cool));
    state.push_event(UiEvent::RestUpdate(RestStatus::Short));
    state.push_event(UiEvent::TargetTempUpdate(22_000));
    state.push_event(UiEvent::DiffUpdate(DiffStatus::Normal));
    state.push_event(UiEvent::UseFahrenheitUpdate(false));
    state.set_current_temp(23_000);
    state.receive_events(6_000);
    assert_eq!(state.get_waiting_target_temp(), 22_700);
    assert_eq!(state.get_status_message(6_000), "Waiting for 22.7°C");

    let start = 7_000;
    let report = state.run(&mut controller, start);
    assert_eq!(state.runtime_state(), ThermostatRuntimeState::Cooling);
    assert_eq!(status(report), "Cooling");
    assert_eq!(
        controller.take_writes(),
        vec![write(Relay::Cool, true), write(Relay::Fan, true)]
    );

    let rest_start = start + 61 * MINUTE;
    let report = state.run(&mut controller, rest_start);
    assert_eq!(state.runtime_state(), ThermostatRuntimeState::Resting);
    assert_eq!(state.total_cooling_duration(), 61 * MINUTE);
    assert!(controller.is_fan());
    assert!(!controller.is_cooling());
    assert_eq!(status(report), "Defrosting for 30:00");
    assert_eq!(controller.take_writes(), vec![write(Relay::Cool, false)]);

    let report = state.run(&mut controller, rest_start + 31 * MINUTE);
    assert_eq!(state.runtime_state(), ThermostatRuntimeState::Cooling);
    assert_eq!(state.mode(), ModeStatus::Cool);
    assert_eq!(state.total_cooling_duration(), 0);
    assert_eq!(status(report), "Cooling");
    assert_eq!(controller.take_writes(), vec![write(Relay::Cool, true)]);
}

fn temperature(event: BackendEvent) -> i32 {
    match event {
        BackendEvent::CurrentTempCUpdate(temperature) => temperature,
        BackendEvent::CurrentStateMessage(_) => panic!("a tick reports the temperature first"),
    }
}

#[test]
fn tick_decides_on_the_reading_of_the_tick() {
    let mut state = ThermostatState::new(0);
    let mut controller = Controller::new(&vec![0x28]);
    controller.take_writes();
    state.set_mode(ModeStatus::Heat);
    state.set_target_temp(21_000);
    // 21 degrees is remembered from start-up; the reading of this tick is colder.
    let (reading, report) = state.tick(&mut controller, Some(20_599), 1_000);
    assert_eq!(temperature(reading), 20_599);
    assert_eq!(status(report), "Heating");
    assert_eq!(state.current_temp_c(), 20_599);
    assert_eq!(state.runtime_state(), ThermostatRuntimeState::Heating);
    assert_eq!(controller.last_temperature_c(), Some(20_599));
    assert_eq!(
        controller.take_writes(),
        vec![write(Relay::Heat, true), write(Relay::Fan, true)]
    );
    let (reading, report) = state.tick(&mut controller, Some(21_000), 2_000);
    assert_eq!(temperature(reading), 21_000);
    assert_eq!(status(report), "Waiting for 69.1°F");
    assert_eq!(state.runtime_state(), ThermostatRuntimeState::Waiting);
}

#[test]
fn tick_keeps_last_reading_when_measurement_fails() {
    let mut state = ThermostatState::new(0);
    let mut controller = Controller::new(&vec![0x28]);
    state.set_mode(ModeStatus::Cool);
    state.set_target_temp(22_000);
    let (reading, _) = state.tick(&mut controller, Some(22_701), 1_000);
    assert_eq!(temperature(reading), 22_701);
    assert_eq!(state.runtime_state(), ThermostatRuntimeState::Cooling);
    let (reading, report) = state.tick(&mut controller, None, 2_000);
    assert_eq!(temperature(reading), 22_701);
    assert_eq!(status(report), "Cooling");
    assert_eq!(state.current_temp_c(), 22_701);
    assert_eq!(state.runtime_state(), ThermostatRuntimeState::Cooling);
    let (reading, _) = state.tick(&mut controller, Some(22_000), 3_000);
    assert_eq!(temperature(reading), 22_000);
    assert_eq!(state.runtime_state(), ThermostatRuntimeState::Waiting);
}

#[test]
fn tick_uses_default_temperature_without_any_reading() {
    let mut state = ThermostatState::new(0);
    let mut controller = Controller::new(&vec![0x28]);
    state.set_mode(ModeStatus::Cool);
    state.set_target_temp(24_000);
    let (reading, _) = state.tick(&mut controller, None, 1_000);
    assert_eq!(temperature(reading), 25_000);
    assert_eq!(state.current_temp_c(), 25_000);
    assert_eq!(state.runtime_state(), ThermostatRuntimeState::Cooling);
    // Without a sensor a measurement handed in is not believed.
    let mut state = ThermostatState::new(0);
    let mut controller = controller_without_sensor();
    state.set_mode(ModeStatus::Heat);
    state.set_target_temp(24_000);
    let (reading, _) = state.tick(&mut controller, Some(10_000), 1_000);
    assert_eq!(temperature(reading), 25_000);
    assert_eq!(state.runtime_state(), ThermostatRuntimeState::Waiting);
}
