//! Timed user flows over the whole stack: reducer, effect planner, staged power
//! executor, protection cadence.

use benchvolt_poc::app::{
    Action, AppState, AwgConfig, AwgStatus, AwgWaveform, ControlFocus, Fault, Measurement,
    OutputTransition, RegulationMode, Screen, TemperatureUnit,
};
use benchvolt_poc::dispatch::dispatch_app;
use benchvolt_poc::input_policy::{
    clamp_adjustment, encoder_action, ButtonTracker, EncoderAccumulator,
};
use benchvolt_poc::limits::{
    CH4_MAX_VOLTAGE_MV, CH4_MIN_VOLTAGE_MV, CH5_MAX_VOLTAGE_MV, CH5_MIN_VOLTAGE_MV,
};
use benchvolt_poc::monitoring::ProtectionService;
use benchvolt_poc::pd::Contract;
use benchvolt_poc::power::{DriverOperation, PowerDriver, PowerExecutor, Rail};
use benchvolt_poc::settings::PersistentSettings;

enum FailureMode {
    Never,
    FailMatching(fn(&DriverOperation) -> bool),
}

struct Bench {
    calls: Vec<DriverOperation>,
    failures: FailureMode,
    gates: [bool; 4],
    rail_enabled: [bool; 2],
    rail_configured: [bool; 2],
    ch5_enable: bool,
    ch5_configured: bool,
    ch5_oe: bool,
}

fn rail_index(rail: Rail) -> usize {
    match rail {
        Rail::Dc1 => 0,
        Rail::Dc2 => 1,
    }
}

impl Bench {
    fn new() -> Self {
        Bench {
            calls: Vec::new(),
            failures: FailureMode::Never,
            gates: [false; 4],
            rail_enabled: [false; 2],
            rail_configured: [false; 2],
            ch5_enable: false,
            ch5_configured: false,
            ch5_oe: false,
        }
    }

    fn physically_energized(&self) -> bool {
        (0..4).any(|channel| self.gates[channel] && self.rail_enabled[channel / 2])
            || self.ch5_enable && self.ch5_oe
    }

    fn safe(&self) -> bool {
        (0..4).all(|channel| {
            !self.gates[channel]
                || !self.rail_enabled[channel / 2]
                || self.rail_configured[channel / 2]
        }) && (!self.ch5_oe || !self.ch5_enable || self.ch5_configured)
    }

    fn dac_writes(&self) -> Vec<u16> {
        self.calls
            .iter()
            .filter_map(|operation| match operation {
                DriverOperation::SetAdjustableDac { millivolts } => Some(*millivolts),
                _ => None,
            })
            .collect()
    }
}

impl PowerDriver for Bench {
    type Error = ();

    fn apply(&mut self, operation: DriverOperation) -> Result<(), ()> {
        self.calls.push(operation);
        if let FailureMode::FailMatching(matching) = self.failures {
            if matching(&operation) {
                return Err(());
            }
        }
        match operation {
            DriverOperation::ChannelGate { channel, enabled } => {
                self.gates[usize::from(channel)] = enabled
            }
            DriverOperation::RailEnable { rail, enabled } => {
                self.rail_enabled[rail_index(rail)] = enabled;
                if !enabled {
                    self.rail_configured[rail_index(rail)] = false;
                }
            }
            DriverOperation::ConfigureRail { rail, .. } => {
                self.rail_configured[rail_index(rail)] = true
            }
            DriverOperation::Ch5Enable(enabled) => {
                self.ch5_enable = enabled;
                if !enabled {
                    self.ch5_configured = false;
                    self.ch5_oe = false;
                }
            }
            DriverOperation::ConfigureCh5 { .. } => self.ch5_configured = true,
            DriverOperation::Ch5OutputEnable(enabled) => self.ch5_oe = enabled,
            _ => {}
        }
        Ok(())
    }

    fn cancel_pending(&mut self) {}
}

struct Harness {
    state: AppState,
    executor: PowerExecutor<Bench>,
    protection: ProtectionService,
    encoder: EncoderAccumulator,
    button: ButtonTracker,
    load_ma: [u16; 5],
    now: u16,
}

impl Harness {
    fn new() -> Self {
        let mut harness = Harness {
            state: AppState::new(true, Some(25 * 16)),
            executor: PowerExecutor::new(Bench::new(), 0),
            protection: ProtectionService::default(),
            encoder: EncoderAccumulator::default(),
            button: ButtonTracker::new(true),
            load_ma: [0; 5],
            now: 0,
        };
        harness.dispatch(Action::PdNegotiated(Contract {
            source_position: 4,
            millivolts: 20_000,
            operating_milliamps: 5_000,
            maximum_milliamps: 5_000,
        }));
        let measurements = harness.measurements();
        harness.dispatch(Action::Measurements(measurements));
        harness
    }

    fn state(&self) -> &AppState {
        &self.state
    }

    fn driver(&self) -> &Bench {
        &self.executor.driver
    }

    fn driver_mut(&mut self) -> &mut Bench {
        &mut self.executor.driver
    }

    fn dispatch(&mut self, action: Action) {
        dispatch_app(&mut self.state, &mut self.executor, action);
    }

    fn measurements(&self) -> [Measurement; 5] {
        core::array::from_fn(|channel| {
            let output = &self.state.channels[channel];
            Measurement {
                millivolts: if output.physical_enabled { output.drive_mv } else { 0 },
                milliamps: if output.physical_enabled { self.load_ma[channel] } else { 0 },
                valid: true,
            }
        })
    }

    /// Lets time pass: the executor runs every millisecond, protection and
    /// regulation every 20 ms.
    fn tick(&mut self, milliseconds: u16) {
        for _ in 0..milliseconds {
            self.now = self.now.wrapping_add(1);
            if let Some(action) = self.executor.service(self.now, &self.state) {
                self.dispatch(action);
            }
            if self.now % 20 == 0 {
                let measurements = self.measurements();
                for channel in 0..5u8 {
                    let measurement = measurements[usize::from(channel)];
                    if let Some(action) =
                        self.protection.observe_channel(&self.state, channel, measurement)
                    {
                        self.dispatch(action);
                    }
                }
                for channel in 3..=4u8 {
                    let measurement = measurements[usize::from(channel)];
                    self.dispatch(Action::RegulateChannel { channel, measurement });
                }
            }
        }
    }

    fn enable_channel(&mut self, channel: u8) {
        self.dispatch(Action::SetOutputRequested { channel, enabled: true });
        self.tick(400);
        assert!(self.state.channels[usize::from(channel)].physical_enabled);
    }

    fn detent(&mut self, direction: i8) {
        self.now = self.now.wrapping_add(200);
        let (raw, accelerated) = self.encoder.step(direction, self.now);
        let (raw, accelerated) = clamp_adjustment(raw, accelerated);
        if let Some(action) = encoder_action(&self.state, raw, accelerated) {
            self.dispatch(action);
        }
    }

    fn click(&mut self) {
        self.now = self.now.wrapping_add(400);
        assert!(self.button.sample(self.now, false).is_none());
        self.now = self.now.wrapping_add(100);
        let action = self.button.sample(self.now, true).unwrap();
        self.dispatch(action);
    }

    /// Goes to the screen of a channel, then clicks through its controls.
    fn focus_channel_control(&mut self, channel: u8, clicks: usize) {
        self.dispatch(Action::GoOverview);
        for _ in 0..=channel {
            self.dispatch(Action::NextScreen);
        }
        assert!(self.state.screen == Screen::Channel(channel));
        for _ in 0..clicks {
            self.click();
        }
    }

    /// With a driver that works again everything can be switched off.
    fn quiesce(&mut self) {
        self.driver_mut().failures = FailureMode::Never;
        self.dispatch(Action::GoMainMenu);
        self.tick(200);
        assert!(self.state.outputs_physically_off());
        assert!(!self.driver().physically_energized());
    }
}

fn assert_invariants(harness: &Harness) {
    assert!(harness.driver().safe());
    for output in &harness.state().channels {
        assert!(output.current_limit_ma <= 3_000);
    }
}

fn de_energizing(operation: &DriverOperation) -> bool {
    matches!(
        operation,
        DriverOperation::ChannelGate { enabled: false, .. }
            | DriverOperation::RailEnable { enabled: false, .. }
            | DriverOperation::Ch5Enable(false)
            | DriverOperation::Ch5OutputEnable(false)
    )
}

#[test]
fn encoder_flow_enables_a_channel_through_the_staged_executor() {
    let mut harness = Harness::new();
    assert!(harness.state().screen == Screen::MainMenu);

    // Click activates "Overview", a detent moves to CH1, a click focuses the
    // output control, and a detent toggles the enable request.
    harness.click();
    assert!(harness.state().screen == Screen::Overview);
    harness.detent(1);
    assert!(harness.state().screen == Screen::Channel(0));
    harness.click();
    assert!(harness.state().focus == ControlFocus::Output);
    harness.detent(1);
    assert!(harness.state().channels[0].requested_enabled);
    assert!(!harness.state().channels[0].physical_enabled);

    // The staged plan needs two 50 ms settle windows before OutputApplied.
    harness.tick(200);
    let output = &harness.state().channels[0];
    assert!(output.physical_enabled);
    assert!(output.transition == OutputTransition::Stable);
    assert!(output.fault == Fault::Clear);
    assert!(harness.driver().gates[0]);
    assert!(harness.driver().rail_enabled[0]);
    assert!(harness.driver().physically_energized());
    assert!(harness.driver().safe());
    assert_invariants(&harness);
}

#[test]
fn voltage_edit_while_enabled_slews_in_bounded_steps() {
    let mut harness = Harness::new();
    harness.enable_channel(3);
    assert_eq!(harness.state().channels[3].drive_mv, 5_000);

    // Downward edit: the drive must walk to the setpoint through
    // RegulateChannel ticks, never jumping more than 200 mV per DAC write.
    harness.dispatch(Action::SetVoltage {
        channel: 3,
        millivolts: 3_000,
    });
    assert_eq!(harness.state().channels[3].drive_mv, 5_000);
    harness.tick(400);
    assert_eq!(harness.state().channels[3].drive_mv, 3_000);

    // Upward CV edit slews the same way.
    harness.dispatch(Action::SetVoltage {
        channel: 3,
        millivolts: 4_200,
    });
    harness.tick(400);
    assert_eq!(harness.state().channels[3].drive_mv, 4_200);

    let writes = harness.driver().dac_writes();
    assert!(writes.len() > 15, "expected many slew steps, got {writes:?}");
    for pair in writes.windows(2) {
        let step = pair[1].abs_diff(pair[0]);
        assert!(
            step <= 200,
            "hardware voltage write jumped {step} mV in {writes:?}"
        );
    }
    assert_eq!(*writes.last().unwrap(), 4_200);
}

#[test]
fn regulation_mode_toggle_while_enabled_does_not_jump_the_drive() {
    let mut harness = Harness::new();
    harness.enable_channel(3);
    // Freeze mid-slew: setpoint far below the current drive.
    harness.dispatch(Action::SetVoltage {
        channel: 3,
        millivolts: 3_000,
    });
    assert_eq!(harness.state().channels[3].drive_mv, 5_000);
    let dac_writes_before = harness.driver().dac_writes().len();

    harness.focus_channel_control(3, 3);
    assert!(harness.state().focus == ControlFocus::RegulationMode);
    harness.detent(1);
    assert!(harness.state().channels[3].regulation_mode == RegulationMode::Cc);

    // Regression for the reducer fix: the toggle must not snap drive_mv to
    // the setpoint while physically enabled, and must not emit any hardware
    // voltage write of its own.
    assert_eq!(harness.state().channels[3].drive_mv, 5_000);
    assert_eq!(harness.driver().dac_writes().len(), dac_writes_before);

    harness.detent(1);
    assert!(harness.state().channels[3].regulation_mode == RegulationMode::Cv);
    assert_eq!(harness.state().channels[3].drive_mv, 5_000);
    assert_eq!(harness.driver().dac_writes().len(), dac_writes_before);
}

#[test]
fn overcurrent_trips_only_after_three_confirmed_samples() {
    let mut harness = Harness::new();
    harness.enable_channel(0);
    // Move well past the 10-sample startup grace window.
    harness.tick(300);

    // Above the 3 A limit but below the 3.3 A hard ceiling.
    harness.load_ma[0] = 3_200;
    harness.tick(40); // two 20 ms protection samples
    assert!(harness.state().channels[0].fault == Fault::Clear);
    assert!(harness.state().channels[0].physical_enabled);

    harness.tick(20); // third consecutive violating sample
    let output = &harness.state().channels[0];
    assert!(output.fault == Fault::OverCurrent);
    assert!(!output.requested_enabled);
    harness.load_ma[0] = 0;
    harness.tick(100);
    assert!(!harness.state().channels[0].physical_enabled);
    assert!(!harness.driver().physically_energized());
    assert!(harness.driver().safe());
}

#[test]
fn overcurrent_below_confirmation_count_does_not_trip() {
    let mut harness = Harness::new();
    harness.enable_channel(0);
    harness.tick(300);

    // Two violating samples, then back in range: the counter must reset.
    harness.load_ma[0] = 3_200;
    harness.tick(40);
    harness.load_ma[0] = 1_000;
    harness.tick(100);
    harness.load_ma[0] = 3_200;
    harness.tick(40);
    assert!(harness.state().channels[0].fault == Fault::Clear);
    assert!(harness.state().channels[0].physical_enabled);
}

#[test]
fn startup_grace_suppresses_moderate_but_not_gross_overcurrent() {
    let mut harness = Harness::new();
    harness.dispatch(Action::SetOutputRequested {
        channel: 0,
        enabled: true,
    });
    harness.tick(120);
    assert!(harness.state().channels[0].physical_enabled);

    // Moderate overcurrent within the grace window is tolerated.
    harness.load_ma[0] = 3_200;
    harness.tick(100); // five samples, still inside the 10-sample grace
    assert!(harness.state().channels[0].fault == Fault::Clear);

    // A gross excursion beyond the physical envelope trips immediately.
    harness.load_ma[0] = 3_400;
    harness.tick(20);
    assert!(harness.state().channels[0].fault == Fault::OverCurrent);
    harness.load_ma[0] = 0;
    harness.tick(100);
    assert!(!harness.state().channels[0].physical_enabled);
    assert!(!harness.driver().physically_energized());
}

#[test]
fn failed_global_shutdown_never_claims_outputs_are_off() {
    let mut harness = Harness::new();
    harness.enable_channel(0);
    assert!(harness.driver().physically_energized());

    // Every de-energizing driver command fails, then entering the AWG screen
    // triggers the planner's global-shutdown boundary.
    harness.driver_mut().failures = FailureMode::FailMatching(de_energizing);
    harness.dispatch(Action::NavigateMenu(1));
    harness.dispatch(Action::ActivateMenu);
    assert!(harness.state().screen == Screen::Awg);

    // The fix under test: GlobalShutdownFailed must not clear
    // physical_enabled while the hardware is still energized.
    assert!(harness.driver().physically_energized());
    assert!(!harness.state().outputs_physically_off());
    assert!(harness.state().channels[0].physical_enabled);
    for output in &harness.state().channels {
        assert!(output.fault == Fault::Hardware);
        assert!(!output.requested_enabled);
    }
    assert!(harness.state().awg_status == AwgStatus::Fault);

    // Once the driver recovers, the system reaches a fully-off state.
    harness.quiesce();
}

#[test]
fn hostile_persisted_settings_are_sanitized_before_reaching_state() {
    let mut state = AppState::new(true, Some(25 * 16));
    let hostile = PersistentSettings {
        current_limits_ma: [u16::MAX; 5],
        ch4_voltage_mv: 60_000,
        ch5_voltage_mv: 1,
        ch4_regulation_mode: RegulationMode::Cc,
        ch5_regulation_mode: RegulationMode::Cc,
        sink_current_limit_ma: u16::MAX,
        temperature_unit: TemperatureUnit::Fahrenheit,
        awg: AwgConfig {
            channel: 7, // would index out of bounds if used raw
            waveform: AwgWaveform::Square,
            frequency_millihz: u32::MAX,
            duty_percent: 0,
            low_mv: 60_000,
            high_mv: 0,
        },
    };
    hostile.apply_to(&mut state);

    for output in &state.channels {
        assert!(output.current_limit_ma <= 3_000);
    }
    assert!((CH4_MIN_VOLTAGE_MV..=CH4_MAX_VOLTAGE_MV).contains(&state.channels[3].setpoint_mv));
    assert!((CH5_MIN_VOLTAGE_MV..=CH5_MAX_VOLTAGE_MV).contains(&state.channels[4].setpoint_mv));
    assert_eq!(state.channels[3].drive_mv, state.channels[3].setpoint_mv);
    assert_eq!(state.channels[4].drive_mv, state.channels[4].setpoint_mv);
    assert!(state.sink_current_limit_ma <= 5_000);
    // An out-of-range AWG channel falls back to the safe default config.
    assert!(state.awg == AwgConfig::default());

    // A valid channel with inverted bounds is clamped rather than replaced.
    let mut inverted = hostile;
    inverted.awg.channel = 4;
    inverted.apply_to(&mut state);
    let awg = state.awg;
    assert!(matches!(awg.channel, 3 | 4));
    assert!((CH5_MIN_VOLTAGE_MV..=CH5_MAX_VOLTAGE_MV).contains(&awg.low_mv));
    assert!(awg.low_mv <= awg.high_mv && awg.high_mv <= CH5_MAX_VOLTAGE_MV);
    assert!((1..=99).contains(&awg.duty_percent));
    assert!(awg.frequency_millihz <= awg.waveform.max_frequency_millihz());
}
