//! Application state and the actions that change it.

pub use crate::reducer::AppReducer;

use crate::limits::{
    max_voltage, min_voltage, AWG_MIN_FREQUENCY_MILLIHZ, CHANNEL_MAX_CURRENT_MA,
    SINK_MAX_CURRENT_MA,
};
use crate::pd::{Contract, PdError};
use crate::settings::PersistentSettings;
use crate::ui_content::{
    AWG_ITEM_COUNT, HELP_MAX_SCROLL, MAIN_MENU_ITEM_COUNT, PROFILE_ITEM_COUNT, SETTINGS_ITEM_COUNT,
};
use vstd::prelude::*;

verus! {

#[derive(Clone, Copy, Debug, PartialEq, Eq, Structural)]
pub enum Screen {
    MainMenu,
    Overview,
    Channel(u8),
    UsbPdInput,
    Awg,
    Settings,
    ProfileSave,
    ProfileLoad,
    System,
    Help,
}

#[derive(Clone, Copy, Debug, PartialEq, Eq, Structural)]
pub enum ControlFocus {
    Unfocused,
    OverviewOutput(u8),
    Output,
    Voltage,
    CurrentLimit,
    RegulationMode,
}

#[derive(Clone, Copy, Debug, PartialEq, Eq, Structural)]
pub enum RegulationMode {
    Cv,
    Cc,
}

#[derive(Clone, Copy, Debug, PartialEq, Eq, Structural)]
pub enum Fault {
    Clear,
    OverCurrent,
    OverTemperature,
    Sensor,
    Hardware,
}

#[derive(Clone, Copy, Debug, PartialEq, Eq, Structural)]
pub enum OutputTransition {
    Stable,
    Enabling(u16),
    Disabling(u16),
}

#[derive(Clone, Copy, Debug, PartialEq, Eq, Structural)]
pub struct Measurement {
    pub millivolts: u16,
    pub milliamps: u16,
    pub valid: bool,
}

#[derive(Clone, Copy, Debug, PartialEq, Eq, Structural)]
pub enum TemperatureUnit {
    Celsius,
    Fahrenheit,
}

#[derive(Clone, Copy, Debug, PartialEq, Eq, Structural)]
pub enum AwgStatus {
    Stopped,
    StartRequested,
    Starting,
    Running,
    StopRequested,
    Fault,
}

/// Who generates the samples of a running waveform.
#[derive(Clone, Copy, Debug, PartialEq, Eq, Structural)]
pub enum AwgSource {
    Builtin,
    Arbitrary,
}

#[derive(Clone, Copy, Debug, PartialEq, Eq, Structural)]
pub enum AwgWaveform {
    Square,
    Triangle,
    Ramp,
    Sine,
}

#[derive(Clone, Copy, Debug, PartialEq, Eq, Structural)]
pub struct AwgConfig {
    pub channel: u8,
    pub waveform: AwgWaveform,
    pub frequency_millihz: u32,
    pub duty_percent: u8,
    pub low_mv: u16,
    pub high_mv: u16,
}

/// Channel and voltage envelope of an uploaded waveform.
#[derive(Clone, Copy, Debug, PartialEq, Eq, Structural)]
pub struct ArbRun {
    pub channel: u8,
    pub initial_mv: u16,
    pub low_mv: u16,
    pub high_mv: u16,
}

#[derive(Clone, Copy, Debug, PartialEq, Eq, Structural)]
pub struct LoadMeasurement {
    pub milliamps_rms: u16,
    pub milliwatts_average: u32,
    pub valid: bool,
}

/// Storage work the firmware loop has to carry out for the user interface.
#[derive(Clone, Copy, Debug, PartialEq, Eq, Structural)]
pub enum ProfileRequest {
    Idle,
    Save(u8),
    Load(u8),
    FactoryDefaults,
}

#[derive(Clone, Copy, Debug, PartialEq, Eq, Structural)]
pub enum ProfileStatus {
    Idle,
    ConfirmSave(u8),
    ConfirmLoad(u8),
    ConfirmDefaults,
    Working,
    Saved(u8),
    Loaded(u8),
    Empty(u8),
    Failed,
    DefaultsLoaded,
}

#[derive(Clone, Copy, Debug, PartialEq, Eq, Structural)]
pub struct ChannelSnapshot {
    pub setpoint_mv: u16,
    pub drive_mv: u16,
    pub current_limit_ma: u16,
    pub requested_enabled: bool,
    pub physical_enabled: bool,
    pub operation: u16,
    pub transition: OutputTransition,
    pub fault: Fault,
    pub measurement: Measurement,
    pub regulation_mode: RegulationMode,
}

#[derive(Clone, Copy, Debug, PartialEq, Eq)]
pub struct AppState {
    pub version: u32,
    pub screen: Screen,
    pub focus: ControlFocus,
    pub channels: [ChannelSnapshot; 5],
    pub sink: Measurement,
    pub sink_current_limit_ma: u16,
    pub sink_fault: Fault,
    pub pd_contract: Option<Contract>,
    pub pd_error: Option<PdError>,
    pub pd_negotiating: bool,
    pub temp_sixteenths_c: i16,
    pub temp_valid: bool,
    pub temperature_unit: TemperatureUnit,
    pub recovery_armed: bool,
    pub reboot_requested: bool,
    pub menu_selection: u8,
    pub help_scroll: u8,
    pub awg: AwgConfig,
    pub awg_status: AwgStatus,
    pub awg_source: AwgSource,
    pub awg_editing: bool,
    pub awg_load: LoadMeasurement,
    pub arb_run: ArbRun,
    pub profile_request: ProfileRequest,
    pub profile_status: ProfileStatus,
    pub profile_present: [bool; 3],
}

#[derive(Clone, Copy, Debug, PartialEq, Eq)]
pub enum Action {
    NextScreen,
    PreviousScreen,
    GoOverview,
    GoMainMenu,
    NavigateMenu(i8),
    ActivateMenu,
    RequestReboot,
    NextControl,
    AdjustFocused(i8),
    AdjustAwg(i8),
    ToggleOutputRequested { channel: u8 },
    SetVoltage { channel: u8, millivolts: u16 },
    SetCurrentLimit { channel: u8, milliamps: u16 },
    SetRegulationMode { channel: u8, mode: RegulationMode },
    RegulateChannel { channel: u8, measurement: Measurement },
    SetSinkCurrentLimit(u16),
    SetOutputRequested { channel: u8, enabled: bool },
    OutputEnergized { channel: u8, operation: u16 },
    OutputApplied { channel: u8, operation: u16, enabled: bool },
    OutputFailed { channel: u8, operation: u16, fault: Fault },
    ProtectionTrip { channel: u8, fault: Fault },
    HardwareSettingApplied,
    HardwareSettingFailed { channel: u8, fault: Fault },
    GlobalShutdownApplied,
    GlobalShutdownFailed,
    PdNegotiationStarted,
    PdNegotiated(Contract),
    PdFailed(PdError),
    SinkProtectionTrip(Fault),
    SinkProtectionRecovered,
    RequestArbStart { channel: u8, initial_mv: u16, low_mv: u16, high_mv: u16 },
    AwgStartPrepared,
    AwgSample(u16),
    AwgStopped,
    AwgLoadMeasurement(LoadMeasurement),
    ApplyProfile(PersistentSettings, ProfileStatus),
    ProfileOperationFinished(ProfileStatus),
    Temperature(Option<i16>),
    Measurements([Measurement; 5]),
    SinkMeasurement(Measurement),
}

/// A measurement that no sensor has delivered.
pub open spec fn invalid_measurement() -> Measurement {
    Measurement { millivolts: 0, milliamps: 0, valid: false }
}

impl Measurement {
    /// The reading of a sensor that has not answered.
    pub fn invalid() -> (measurement: Self)
        ensures
            measurement == invalid_measurement(),
    {
        Measurement { millivolts: 0, milliamps: 0, valid: false }
    }
}

impl ControlFocus {
    /// The control that a click moves to on the detail screen of `channel`.
    pub open spec fn after(self, channel: u8) -> Self {
        match self {
            ControlFocus::Unfocused => ControlFocus::Output,
            ControlFocus::Output => if channel == 3 || channel == 4 {
                ControlFocus::Voltage
            } else {
                ControlFocus::CurrentLimit
            },
            ControlFocus::Voltage => if channel == 3 || channel == 4 {
                ControlFocus::RegulationMode
            } else {
                ControlFocus::CurrentLimit
            },
            ControlFocus::RegulationMode => if channel == 3 || channel == 4 {
                ControlFocus::CurrentLimit
            } else {
                ControlFocus::Unfocused
            },
            ControlFocus::CurrentLimit => ControlFocus::Unfocused,
            ControlFocus::OverviewOutput(_) => ControlFocus::Unfocused,
        }
    }

    /// Moves the focus to the next control of `channel`.
    pub fn next(self, channel: u8) -> (next: Self)
        ensures
            next == self.after(channel),
    {
        match (self, channel) {
            (ControlFocus::Unfocused, _) => ControlFocus::Output,
            (ControlFocus::Output, 3 | 4) => ControlFocus::Voltage,
            (ControlFocus::Output, _) => ControlFocus::CurrentLimit,
            (ControlFocus::Voltage, 3 | 4) => ControlFocus::RegulationMode,
            (ControlFocus::Voltage, _) => ControlFocus::CurrentLimit,
            (ControlFocus::RegulationMode, 3 | 4) => ControlFocus::CurrentLimit,
            _ => ControlFocus::Unfocused,
        }
    }
}

impl Screen {
    /// True of the screens that hold power controls.
    pub open spec fn is_power(self) -> bool {
        self is Overview || self is Channel || self is UsbPdInput
    }

    /// True unless the screen names a channel that does not exist.
    pub open spec fn in_range(self) -> bool {
        self matches Screen::Channel(index) ==> index < 5
    }

    /// The screen after `self` on the ring of power screens.
    pub open spec fn after(self) -> Self {
        match self {
            Screen::Overview => Screen::Channel(0),
            Screen::Channel(index) => if index < 4 {
                Screen::Channel((index + 1) as u8)
            } else {
                Screen::UsbPdInput
            },
            Screen::UsbPdInput => Screen::Overview,
            other => other,
        }
    }

    /// The screen before `self` on the ring of power screens.
    pub open spec fn before(self) -> Self {
        match self {
            Screen::Overview => Screen::UsbPdInput,
            Screen::Channel(index) => if index > 0 {
                Screen::Channel((index - 1) as u8)
            } else {
                Screen::Overview
            },
            Screen::UsbPdInput => Screen::Channel(4),
            other => other,
        }
    }

    /// Number of selectable rows; zero where the encoder does not select.
    pub open spec fn items(self) -> u8 {
        match self {
            Screen::MainMenu => MAIN_MENU_ITEM_COUNT,
            Screen::Settings => SETTINGS_ITEM_COUNT,
            Screen::ProfileSave => PROFILE_ITEM_COUNT,
            Screen::ProfileLoad => PROFILE_ITEM_COUNT,
            Screen::Awg => AWG_ITEM_COUNT,
            Screen::System => 1,
            _ => 0,
        }
    }

    /// Steps forward on the ring of power screens.
    pub fn next(self) -> (next: Self)
        ensures
            next == self.after(),
    {
        match self {
            Screen::Overview => Screen::Channel(0),
            Screen::Channel(index) => if index < 4 {
                Screen::Channel(index + 1)
            } else {
                Screen::UsbPdInput
            },
            Screen::UsbPdInput => Screen::Overview,
            other => other,
        }
    }

    /// Steps backward on the ring of power screens.
    pub fn previous(self) -> (previous: Self)
        ensures
            previous == self.before(),
    {
        match self {
            Screen::Overview => Screen::UsbPdInput,
            Screen::Channel(index) => if index > 0 {
                Screen::Channel(index - 1)
            } else {
                Screen::Overview
            },
            Screen::UsbPdInput => Screen::Channel(4),
            other => other,
        }
    }

    /// Number of selectable rows; zero where the encoder does not select.
    pub fn item_count(self) -> (count: u8)
        ensures
            count == self.items(),
    {
        match self {
            Screen::MainMenu => MAIN_MENU_ITEM_COUNT,
            Screen::Settings => SETTINGS_ITEM_COUNT,
            Screen::ProfileSave => PROFILE_ITEM_COUNT,
            Screen::ProfileLoad => PROFILE_ITEM_COUNT,
            Screen::Awg => AWG_ITEM_COUNT,
            Screen::System => 1,
            _ => 0,
        }
    }
}

impl AwgWaveform {
    /// Highest frequency at which the shape is generated.
    pub open spec fn frequency_limit(self) -> u32 {
        120_000
    }

    /// Highest frequency at which the shape is generated.
    pub fn max_frequency_millihz(self) -> (limit: u32)
        ensures
            limit == self.frequency_limit(),
    {
        120_000
    }
}

impl AwgConfig {
    /// The configuration of a device that was never configured.
    pub open spec fn initial() -> Self {
        AwgConfig {
            channel: 3,
            waveform: AwgWaveform::Square,
            frequency_millihz: 1_000,
            duty_percent: 50,
            low_mv: 1_000,
            high_mv: 5_000,
        }
    }

    /// True when a waveform with this configuration stays inside the
    /// envelope of an adjustable channel.
    pub open spec fn wf(self) -> bool {
        &&& self.channel == 3 || self.channel == 4
        &&& min_voltage(self.channel as int) <= self.low_mv <= self.high_mv <= max_voltage(
            self.channel as int,
        )
        &&& 1 <= self.duty_percent <= 99
        &&& AWG_MIN_FREQUENCY_MILLIHZ <= self.frequency_millihz <= self.waveform.frequency_limit()
    }
}

impl Default for AwgConfig {
    fn default() -> (config: Self)
        ensures
            config == AwgConfig::initial(),
    {
        AwgConfig {
            channel: 3,
            waveform: AwgWaveform::Square,
            frequency_millihz: 1_000,
            duty_percent: 50,
            low_mv: 1_000,
            high_mv: 5_000,
        }
    }
}

impl ChannelSnapshot {
    /// A channel that was never switched on.
    pub open spec fn off_at(setpoint_mv: u16) -> Self {
        ChannelSnapshot {
            setpoint_mv,
            drive_mv: setpoint_mv,
            current_limit_ma: CHANNEL_MAX_CURRENT_MA,
            requested_enabled: false,
            physical_enabled: false,
            operation: 0,
            transition: OutputTransition::Stable,
            fault: Fault::Clear,
            measurement: invalid_measurement(),
            regulation_mode: RegulationMode::Cv,
        }
    }

    /// True when the channel is on or has been asked to go on.
    pub open spec fn active(self) -> bool {
        self.requested_enabled || self.physical_enabled
    }

    /// True while the channel is being switched on.
    pub open spec fn enabling(self) -> bool {
        self.transition is Enabling
    }

    /// A channel that is off at `setpoint_mv` with the factory limits.
    pub fn disabled(setpoint_mv: u16) -> (snapshot: Self)
        ensures
            snapshot == ChannelSnapshot::off_at(setpoint_mv),
    {
        ChannelSnapshot {
            setpoint_mv,
            drive_mv: setpoint_mv,
            current_limit_ma: CHANNEL_MAX_CURRENT_MA,
            requested_enabled: false,
            physical_enabled: false,
            operation: 0,
            transition: OutputTransition::Stable,
            fault: Fault::Clear,
            measurement: Measurement::invalid(),
            regulation_mode: RegulationMode::Cv,
        }
    }

    /// True when the channel is on or has been asked to go on.
    pub fn is_active(&self) -> (active: bool)
        ensures
            active == self.active(),
    {
        self.requested_enabled || self.physical_enabled
    }
}

impl AppState {
    /// Every setting lies inside its limits, and every index names an item
    /// that exists.
    pub open spec fn wf(self) -> bool {
        &&& self.screen.in_range()
        &&& (self.focus matches ControlFocus::OverviewOutput(channel) ==> channel < 5)
        &&& (self.screen.items() > 0 ==> self.menu_selection < self.screen.items())
        &&& self.help_scroll <= HELP_MAX_SCROLL
        &&& forall|i: int| 0 <= i < 5 ==> (#[trigger] self.channels[i]).current_limit_ma
            <= CHANNEL_MAX_CURRENT_MA
        &&& forall|i: int|
            3 <= i < 5 ==> min_voltage(i) <= (#[trigger] self.channels[i]).setpoint_mv
                <= max_voltage(i)
        &&& self.sink_current_limit_ma <= SINK_MAX_CURRENT_MA
        &&& self.awg.wf()
        &&& self.arb_run.channel == 3 || self.arb_run.channel == 4
    }

    /// The channel that generates the selected waveform.
    pub open spec fn awg_channel(self) -> u8 {
        match self.awg_source {
            AwgSource::Builtin => self.awg.channel,
            AwgSource::Arbitrary => self.arb_run.channel,
        }
    }

    /// True when some output is on or has been asked to go on.
    pub open spec fn any_active(self) -> bool {
        exists|i: int| 0 <= i < 5 && (#[trigger] self.channels[i]).active()
    }

    /// True when every output is known to be off.
    pub open spec fn all_off(self) -> bool {
        forall|i: int| 0 <= i < 5 ==> !(#[trigger] self.channels[i]).physical_enabled
    }

    /// True when no output is being switched.
    pub open spec fn all_stable(self) -> bool {
        forall|i: int|
            0 <= i < 5 ==> (#[trigger] self.channels[i]).transition == OutputTransition::Stable
    }

    /// `self` with channel `index` replaced.
    pub open spec fn with_channel(self, index: int, snapshot: ChannelSnapshot) -> Self {
        AppState {
            channels: vstd::array::spec_array_update(self.channels, index, snapshot),
            ..self
        }
    }

    /// `self` with every channel replaced by what `change` makes of it.
    #[verifier::opaque]
    pub open spec fn map_channels(
        self,
        change: spec_fn(int, ChannelSnapshot) -> ChannelSnapshot,
    ) -> Self {
        self.with_channel(0, change(0, self.channels[0])).with_channel(
            1,
            change(1, self.channels[1]),
        ).with_channel(2, change(2, self.channels[2])).with_channel(
            3,
            change(3, self.channels[3]),
        ).with_channel(4, change(4, self.channels[4]))
    }

    /// The state of a freshly started device.
    pub fn new(recovery_armed: bool, temperature: Option<i16>) -> (state: Self)
        ensures
            state.wf(),
            state.version == 0,
            state.screen == Screen::MainMenu,
            state.focus == ControlFocus::Unfocused,
            state.channels@ == seq![
                ChannelSnapshot::off_at(1_800),
                ChannelSnapshot::off_at(2_500),
                ChannelSnapshot::off_at(3_300),
                ChannelSnapshot::off_at(5_000),
                ChannelSnapshot::off_at(12_000),
            ],
            state.sink == invalid_measurement(),
            state.sink_current_limit_ma == SINK_MAX_CURRENT_MA,
            state.sink_fault == Fault::Clear,
            state.pd_contract is None,
            state.pd_error is None,
            !state.pd_negotiating,
            state.temp_valid == temperature is Some,
            state.temp_sixteenths_c == (match temperature {
                Some(raw) => raw,
                None => 0,
            }),
            state.temperature_unit == TemperatureUnit::Celsius,
            state.recovery_armed == recovery_armed,
            !state.reboot_requested,
            state.menu_selection == 0,
            state.help_scroll == 0,
            state.awg == AwgConfig::initial(),
            state.awg_status == AwgStatus::Stopped,
            state.awg_source == AwgSource::Builtin,
            !state.awg_editing,
            state.awg_load == (LoadMeasurement {
                milliamps_rms: 0,
                milliwatts_average: 0,
                valid: false,
            }),
            state.arb_run == (ArbRun { channel: 3, initial_mv: 500, low_mv: 500, high_mv: 500 }),
            state.profile_request == ProfileRequest::Idle,
            state.profile_status == ProfileStatus::Idle,
            state.profile_present@ == seq![false, false, false],
    {
        let (temp_sixteenths_c, temp_valid) = match temperature {
            Some(raw) => (raw, true),
            None => (0, false),
        };
        let state = AppState {
            version: 0,
            screen: Screen::MainMenu,
            focus: ControlFocus::Unfocused,
            channels: [
                ChannelSnapshot::disabled(1_800),
                ChannelSnapshot::disabled(2_500),
                ChannelSnapshot::disabled(3_300),
                ChannelSnapshot::disabled(5_000),
                ChannelSnapshot::disabled(12_000),
            ],
            sink: Measurement::invalid(),
            sink_current_limit_ma: SINK_MAX_CURRENT_MA,
            sink_fault: Fault::Clear,
            pd_contract: None,
            pd_error: None,
            pd_negotiating: false,
            temp_sixteenths_c,
            temp_valid,
            temperature_unit: TemperatureUnit::Celsius,
            recovery_armed,
            reboot_requested: false,
            menu_selection: 0,
            help_scroll: 0,
            awg: AwgConfig::default(),
            awg_status: AwgStatus::Stopped,
            awg_source: AwgSource::Builtin,
            awg_editing: false,
            awg_load: LoadMeasurement { milliamps_rms: 0, milliwatts_average: 0, valid: false },
            arb_run: ArbRun { channel: 3, initial_mv: 500, low_mv: 500, high_mv: 500 },
            profile_request: ProfileRequest::Idle,
            profile_status: ProfileStatus::Idle,
            profile_present: [false, false, false],
        };
        assert(state.channels@ =~= seq![
            ChannelSnapshot::off_at(1_800),
            ChannelSnapshot::off_at(2_500),
            ChannelSnapshot::off_at(3_300),
            ChannelSnapshot::off_at(5_000),
            ChannelSnapshot::off_at(12_000),
        ]);
        assert(state.profile_present@ =~= seq![false, false, false]);
        state
    }

    /// The number of changes this state has been through, modulo 2^32.
    pub fn version(&self) -> (version: u32)
        ensures
            version == self.version,
    {
        self.version
    }

    /// The channel that generates the selected waveform.
    pub fn active_awg_channel(&self) -> (channel: u8)
        ensures
            channel == self.awg_channel(),
    {
        match self.awg_source {
            AwgSource::Builtin => self.awg.channel,
            AwgSource::Arbitrary => self.arb_run.channel,
        }
    }

    /// True when some output is on or has been asked to go on.
    pub fn any_output_active(&self) -> (active: bool)
        ensures
            active == self.any_active(),
    {
        let mut index: usize = 0;
        while index < 5
            invariant
                index <= 5,
                forall|i: int| 0 <= i < index ==> !(#[trigger] self.channels[i]).active(),
            decreases 5 - index,
        {
            if self.channels[index].is_active() {
                assert(self.channels[index as int].active());
                return true;
            }
            index = index + 1;
        }
        false
    }

    /// True when every output is known to be off.
    pub fn outputs_physically_off(&self) -> (off: bool)
        ensures
            off == self.all_off(),
    {
        let mut index: usize = 0;
        while index < 5
            invariant
                index <= 5,
                forall|i: int| 0 <= i < index ==> !(#[trigger] self.channels[i]).physical_enabled,
            decreases 5 - index,
        {
            if self.channels[index].physical_enabled {
                assert(self.channels[index as int].physical_enabled);
                return false;
            }
            index = index + 1;
        }
        true
    }

    /// True when no output is being switched.
    pub fn outputs_stable(&self) -> (stable: bool)
        ensures
            stable == self.all_stable(),
    {
        let mut index: usize = 0;
        while index < 5
            invariant
                index <= 5,
                forall|i: int|
                    0 <= i < index ==> (#[trigger] self.channels[i]).transition
                        == OutputTransition::Stable,
            decreases 5 - index,
        {
            if self.channels[index].transition != OutputTransition::Stable {
                assert(self.channels[index as int].transition != OutputTransition::Stable);
                return false;
            }
            index = index + 1;
        }
        true
    }
}

/// `map_channels` changes channel `index` to `change(index, ..)`.
pub broadcast proof fn lemma_map_channels(
    state: AppState,
    change: spec_fn(int, ChannelSnapshot) -> ChannelSnapshot,
    index: int,
)
    requires
        0 <= index < 5,
    ensures
        (#[trigger] state.map_channels(change).channels[index]) == change(
            index,
            state.channels[index],
        ),
{
    reveal(AppState::map_channels);
}

/// `map_channels` changes nothing but the channels.
pub broadcast proof fn lemma_map_channels_frame(
    state: AppState,
    change: spec_fn(int, ChannelSnapshot) -> ChannelSnapshot,
)
    ensures
        (#[trigger] state.map_channels(change)) == (AppState {
            channels: state.map_channels(change).channels,
            ..state
        }),
{
    reveal(AppState::map_channels);
}

pub broadcast group group_map_channels {
    lemma_map_channels,
    lemma_map_channels_frame,
}

/// Stepping forward and then backward on the ring of power screens comes back
/// to the screen it started from, and the other way round.
pub proof fn screen_steps_are_inverse(screen: Screen)
    requires
        screen.in_range(),
    ensures
        screen.after().before() == screen,
        screen.before().after() == screen,
        screen.after().in_range(),
        screen.before().in_range(),
{
}

/// Clicking through the controls of a channel comes back to no focus: after
/// five clicks on an adjustable channel, after three on any other.
pub proof fn focus_returns_to_none(channel: u8)
    ensures
        channel == 3 || channel == 4 ==> ControlFocus::Unfocused.after(channel).after(channel).after(
            channel,
        ).after(channel).after(channel) == ControlFocus::Unfocused,
        !(channel == 3 || channel == 4) ==> ControlFocus::Unfocused.after(channel).after(channel).after(
            channel,
        ) == ControlFocus::Unfocused,
{
}

} // verus!
