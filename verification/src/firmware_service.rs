//! The firmware loop's own work: waveforms, profiles, temperature, protection,
//! and the times at which they are due.

use crate::app::{Action, AppState, AwgSource, AwgStatus, Fault, Measurement, ProfileRequest};
use crate::app::ProfileStatus;
use crate::arb::RuntimeState;
use crate::awg::playable;
use crate::firmware::{
    dispatch_at_once, dispatched_at_once, kept, shut_down, shut_down_and_tell, shutdown_told,
    stop_waveform, waveform_stopped, Answer, WaveformDesk,
};
use crate::monitoring::{sample_fault, trip_of, ProtectionService, TpsStatusObservation};
use crate::negotiator::{PdEvent, ServiceEvent};
use crate::power::{execute_global_shutdown, record_of, DriverRecord, PowerDriver, Rail};
use crate::reducer::{edits_screen, reduced};
use crate::settings::{PersistentSettings, RecordKind};
use crate::settings_store::{persist_settings_record, SettingsStore, StoreJob};
use crate::waveform::{Directive, Service};
use vstd::prelude::*;

verus! {

/// What a directive of the waveform service does: a start and a stop switch
/// every output off first, a run that cannot go on is shut down and reported as
/// a failure, and a fault switches everything off.
pub open spec fn directive_followed(
    state: AppState,
    before: DriverRecord,
    directive: Directive,
    settled: AppState,
    after: DriverRecord,
) -> bool {
    match directive {
        Directive::NoAction => settled == state && after == before,
        Directive::Sample(millivolts) => dispatched_at_once(
            state,
            before,
            Action::AwgSample(millivolts),
            settled,
            after,
        ),
        Directive::PrepareStart => {
            ||| shutdown_told(state, before, false, settled, after)
            ||| exists|off: AppState, silent: DriverRecord| #[trigger]
                shutdown_told(state, before, true, off, silent) && dispatched_at_once(
                    off,
                    silent,
                    Action::AwgStartPrepared,
                    settled,
                    after,
                )
        },
        Directive::Stop => exists|well: bool| #[trigger]
            shutdown_told(state, before, well, settled, after),
        Directive::Finished => exists|well: bool| #[trigger]
            waveform_stopped(state, before, well, settled, after),
        Directive::FailSafeShutdown => settled == reduced(state, Action::GlobalShutdownFailed)
            && exists|well: bool| #[trigger] shut_down(before, after, well),
        Directive::FaultShutdown => settled == state && exists|well: bool| #[trigger]
            shut_down(before, after, well),
    }
}

fn follow_directive<D: PowerDriver>(state: &mut AppState, driver: &mut D, directive: Directive)
    ensures
        kept(*old(state), *final(state)),
        directive_followed(
            *old(state),
            record_of(*old(driver)),
            directive,
            *final(state),
            record_of(*final(driver)),
        ),
{
    let ghost start = *state;
    let ghost before = record_of(*driver);
    match directive {
        Directive::NoAction => {},
        Directive::Sample(millivolts) => {
            let _ = dispatch_at_once(state, driver, Action::AwgSample(millivolts));
        },
        Directive::PrepareStart => {
            if shut_down_and_tell(state, driver) {
                let ghost off = *state;
                let ghost silent = record_of(*driver);
                let _ = dispatch_at_once(state, driver, Action::AwgStartPrepared);
                assert(shutdown_told(start, before, true, off, silent));
            }
        },
        Directive::Stop => {
            let well: bool = shut_down_and_tell(state, driver);
            assert(shutdown_told(start, before, well, *state, record_of(*driver)));
        },
        Directive::Finished => {
            let well: bool = stop_waveform(state, driver);
            assert(waveform_stopped(start, before, well, *state, record_of(*driver)));
        },
        Directive::FailSafeShutdown => {
            let result = execute_global_shutdown(driver);
            proof {
                assert(shut_down(before, record_of(*driver), result is Ok));
                crate::dispatch::reports_plan_no_further_effect(
                    start,
                    Action::GlobalShutdownFailed,
                );
            }
            let _ = dispatch_at_once(state, driver, Action::GlobalShutdownFailed);
        },
        Directive::FaultShutdown => {
            let result = execute_global_shutdown(driver);
            assert(shut_down(before, record_of(*driver), result is Ok));
        },
    }
}

/// Serves the waveform at `now`, a tick of its own clock.
pub fn service_waveform<D: PowerDriver>(
    state: &mut AppState,
    driver: &mut D,
    desk: &mut WaveformDesk,
    now: u16,
)
    requires
        old(desk).wf(),
        old(state).awg_status is Running && old(state).awg_source is Builtin && old(
            desk,
        ).service.builtin.generates(now) ==> playable(old(state).awg),
    ensures
        kept(*old(state), *final(state)),
        final(desk).wf(),
        ({
            let (service, directive) = old(desk).service.after(
                old(state).awg_status,
                old(state).awg_source,
                old(state).awg,
                now,
                Some(&old(desk).buffer),
            );
            &&& *final(desk) == (WaveformDesk { service, ..*old(desk) })
            &&& directive_followed(
                *old(state),
                record_of(*old(driver)),
                directive,
                *final(state),
                record_of(*final(driver)),
            )
        }),
{
    let directive = desk.service.tick(
        state.awg_status,
        state.awg_source,
        state.awg,
        now,
        Some(&desk.buffer),
    );
    follow_directive(state, driver, directive);
}

/// The answer that is due for an accepted run: once it runs, or once it is clear
/// that it will not.
pub open spec fn run_answer(state: AppState, runtime: RuntimeState) -> Option<Answer> {
    match runtime.pending_ack {
        Some(start) => if state.awg_status is Running && state.awg_source is Arbitrary {
            Some(Answer::Started { channel: start.channel, points: start.count })
        } else if state.awg_status is Fault || state.awg_status is Stopped {
            Some(Answer::Hardware)
        } else {
            None
        },
        None => None,
    }
}

/// Takes the answer that is due for an accepted run.
pub fn acknowledge_run(state: &AppState, service: &mut Service) -> (answer: Option<Answer>)
    ensures
        answer == run_answer(*state, old(service).runtime),
        *final(service) == (if answer is Some {
            Service {
                runtime: RuntimeState { pending_ack: None, ..old(service).runtime },
                ..*old(service)
            }
        } else {
            *old(service)
        }),
{
    match service.pending_arb_ack() {
        Some(start) => {
            if state.awg_status == AwgStatus::Running && state.awg_source == AwgSource::Arbitrary {
                let _ = service.take_pending_arb_ack();
                Some(Answer::Started { channel: start.channel, points: start.count })
            } else if state.awg_status == AwgStatus::Fault || state.awg_status
                == AwgStatus::Stopped {
                let _ = service.take_pending_arb_ack();
                Some(Answer::Hardware)
            } else {
                None
            }
        },
        None => None,
    }
}

/// What the loop does for a profile request.
pub enum ProfileWork {
    /// Nothing is left to do.
    Settled,
    /// Carry out this job, then report it.
    Store { slot: u8, job: StoreJob },
}

/// Settings are applied with every output off; where the outputs cannot be
/// switched off, nothing is applied and the operation has failed.
pub open spec fn profile_applied(
    state: AppState,
    before: DriverRecord,
    settings: PersistentSettings,
    status: ProfileStatus,
    settled: AppState,
    after: DriverRecord,
) -> bool {
    ||| exists|silent: DriverRecord| #[trigger]
        shut_down(before, silent, true) && dispatched_at_once(
            state,
            silent,
            Action::ApplyProfile(settings, status),
            settled,
            after,
        )
    ||| exists|off: AppState, silent: DriverRecord| #[trigger]
        shutdown_told(state, before, false, off, silent) && dispatched_at_once(
            off,
            silent,
            Action::ProfileOperationFinished(ProfileStatus::Failed),
            settled,
            after,
        )
}

fn apply_profile<D: PowerDriver>(
    state: &mut AppState,
    driver: &mut D,
    settings: PersistentSettings,
    status: ProfileStatus,
)
    ensures
        kept(*old(state), *final(state)),
        profile_applied(
            *old(state),
            record_of(*old(driver)),
            settings,
            status,
            *final(state),
            record_of(*final(driver)),
        ),
{
    let ghost start = *state;
    let ghost before = record_of(*driver);
    if execute_global_shutdown(driver).is_ok() {
        let ghost silent = record_of(*driver);
        let _ = dispatch_at_once(state, driver, Action::ApplyProfile(settings, status));
        assert(shut_down(before, silent, true));
    } else {
        let ghost failed = record_of(*driver);
        assert(shut_down(before, failed, false));
        proof {
            crate::dispatch::reports_plan_no_further_effect(
                start,
                Action::GlobalShutdownFailed,
            );
        }
        let _ = dispatch_at_once(state, driver, Action::GlobalShutdownFailed);
        let ghost off = *state;
        let _ = dispatch_at_once(
            state,
            driver,
            Action::ProfileOperationFinished(ProfileStatus::Failed),
        );
        assert(shutdown_told(start, before, false, off, failed));
    }
}

/// The storage job of a save: it refuses while an output is live, and makes
/// room where the journal is full.
pub open spec fn save_job(
    state: AppState,
    store: SettingsStore,
    slot: u8,
    settings: PersistentSettings,
) -> StoreJob {
    let record = store.successor(RecordKind::Profile(slot), settings);
    if !state.all_off() {
        StoreJob::Done { saved: false }
    } else if store.next_slot >= crate::settings_store::SETTINGS_SLOTS {
        StoreJob::Erase { append: Some(record) }
    } else {
        StoreJob::Append { record }
    }
}

/// What a profile request leads to. A save is a storage job; a load needs a
/// stored profile; both a load and the factory defaults switch every output off
/// first. `settings` are those that are saved or restored.
pub open spec fn profile_serviced(
    state: AppState,
    before: DriverRecord,
    store: SettingsStore,
    settings: PersistentSettings,
    settled: AppState,
    after: DriverRecord,
    work: ProfileWork,
) -> bool {
    match state.profile_request {
        ProfileRequest::Idle => work is Settled && settled == state && after == before,
        ProfileRequest::Save(slot) => {
            &&& settled == state
            &&& after == before
            &&& settings.taken_from(state)
            &&& work == (ProfileWork::Store { slot, job: save_job(state, store, slot, settings) })
        },
        ProfileRequest::Load(slot) => work is Settled && match store.profiles[slot as int] {
            Some(record) => settings == record.settings && profile_applied(
                state,
                before,
                settings,
                ProfileStatus::Loaded(slot),
                settled,
                after,
            ),
            None => dispatched_at_once(
                state,
                before,
                Action::ProfileOperationFinished(ProfileStatus::Empty(slot)),
                settled,
                after,
            ),
        },
        ProfileRequest::FactoryDefaults => work is Settled && settings.is_factory()
            && profile_applied(
            state,
            before,
            settings,
            ProfileStatus::DefaultsLoaded,
            settled,
            after,
        ),
    }
}

/// True of a request whose slot exists.
pub open spec fn request_fits(request: ProfileRequest) -> bool {
    match request {
        ProfileRequest::Save(slot) => slot < 3,
        ProfileRequest::Load(slot) => slot < 3,
        _ => true,
    }
}

/// Serves a profile request. The factory defaults are those of a fresh state.
pub fn service_profile_request<D: PowerDriver>(
    state: &mut AppState,
    driver: &mut D,
    store: &SettingsStore,
) -> (work: ProfileWork)
    requires
        request_fits(old(state).profile_request),
    ensures
        kept(*old(state), *final(state)),
        exists|settings: PersistentSettings| #[trigger]
            profile_serviced(
                *old(state),
                record_of(*old(driver)),
                *store,
                settings,
                *final(state),
                record_of(*final(driver)),
                work,
            ),
{
    let ghost start = *state;
    let ghost before = record_of(*driver);
    let defaults = AppState::new(state.recovery_armed, None);
    let mut settings = PersistentSettings::from_state(&defaults);
    let work = match state.profile_request {
        ProfileRequest::Idle => ProfileWork::Settled,
        ProfileRequest::Save(slot) => {
            let off: bool = state.outputs_physically_off();
            settings = PersistentSettings::from_state(state);
            let job = persist_settings_record(store, RecordKind::Profile(slot), settings, off);
            ProfileWork::Store { slot, job }
        },
        ProfileRequest::Load(slot) => {
            match store.profiles[slot as usize] {
                Some(record) => {
                    settings = record.settings;
                    apply_profile(state, driver, settings, ProfileStatus::Loaded(slot));
                },
                None => {
                    let _ = dispatch_at_once(
                        state,
                        driver,
                        Action::ProfileOperationFinished(ProfileStatus::Empty(slot)),
                    );
                },
            }
            ProfileWork::Settled
        },
        ProfileRequest::FactoryDefaults => {
            assert(settings.is_factory());
            apply_profile(state, driver, settings, ProfileStatus::DefaultsLoaded);
            ProfileWork::Settled
        },
    };
    assert(profile_serviced(
        start,
        before,
        *store,
        settings,
        *state,
        record_of(*driver),
        work,
    ));
    work
}

/// Reports a storage job for a profile.
pub fn profile_stored<D: PowerDriver>(
    state: &mut AppState,
    driver: &mut D,
    slot: u8,
    saved: bool,
)
    ensures
        kept(*old(state), *final(state)),
        dispatched_at_once(
            *old(state),
            record_of(*old(driver)),
            Action::ProfileOperationFinished(
                if saved {
                    ProfileStatus::Saved(slot)
                } else {
                    ProfileStatus::Failed
                },
            ),
            *final(state),
            record_of(*final(driver)),
        ),
{
    let status = if saved {
        ProfileStatus::Saved(slot)
    } else {
        ProfileStatus::Failed
    };
    let _ = dispatch_at_once(state, driver, Action::ProfileOperationFinished(status));
}

/// True when none of the actions edits the channel on the screen.
pub open spec fn none_edits_screen(actions: Seq<Option<Action>>) -> bool {
    forall|i: int|
        0 <= i < actions.len() ==> (#[trigger] actions[i] matches Some(action)
            ==> !edits_screen(action))
}

/// The actions of a list are dispatched in order, from `from` on; the missing
/// ones are skipped.
pub open spec fn all_dispatched(
    state: AppState,
    before: DriverRecord,
    actions: Seq<Option<Action>>,
    from: int,
    settled: AppState,
    after: DriverRecord,
) -> bool
    decreases actions.len() - from,
{
    if from >= actions.len() {
        settled == state && after == before
    } else {
        match actions[from] {
            None => all_dispatched(state, before, actions, from + 1, settled, after),
            Some(action) => exists|next: AppState, trace: DriverRecord| #[trigger]
                dispatched_at_once(state, before, action, next, trace) && all_dispatched(
                    next,
                    trace,
                    actions,
                    from + 1,
                    settled,
                    after,
                ),
        }
    }
}

fn dispatch_from<D: PowerDriver>(
    state: &mut AppState,
    driver: &mut D,
    actions: &[Option<Action>],
    from: usize,
)
    requires
        old(state).screen.in_range() || none_edits_screen(actions@),
        from <= actions@.len(),
    ensures
        kept(*old(state), *final(state)),
        all_dispatched(
            *old(state),
            record_of(*old(driver)),
            actions@,
            from as int,
            *final(state),
            record_of(*final(driver)),
        ),
    decreases actions@.len() - from,
{
    if from < actions.len() {
        let ghost start = *state;
        let ghost before = record_of(*driver);
        match actions[from] {
            None => {
                dispatch_from(state, driver, actions, from + 1);
            },
            Some(action) => {
                let _ = dispatch_at_once(state, driver, action);
                let ghost next = *state;
                let ghost trace = record_of(*driver);
                dispatch_from(state, driver, actions, from + 1);
                assert(dispatched_at_once(start, before, action, next, trace));
            },
        }
    }
}

/// Dispatches the actions of a list in order.
pub fn dispatch_all<D: PowerDriver>(
    state: &mut AppState,
    driver: &mut D,
    actions: &[Option<Action>],
)
    requires
        old(state).screen.in_range() || none_edits_screen(actions@),
    ensures
        kept(*old(state), *final(state)),
        all_dispatched(
            *old(state),
            record_of(*old(driver)),
            actions@,
            0,
            *final(state),
            record_of(*final(driver)),
        ),
{
    dispatch_from(state, driver, actions, 0)
}

/// The trips of every channel that a temperature fault demands.
pub open spec fn temperature_trips(state: AppState, fault: Fault) -> Seq<Option<Action>> {
    Seq::new(5, |i: int| trip_of(state, i, fault))
}

/// A temperature sample: the state is told, and a fault trips every active
/// channel and switches everything off.
pub open spec fn temperature_serviced(
    state: AppState,
    before: DriverRecord,
    sample: Option<i16>,
    settled: AppState,
    after: DriverRecord,
) -> bool {
    exists|told: AppState, trace: DriverRecord| #[trigger]
        dispatched_at_once(state, before, Action::Temperature(sample), told, trace) && match sample_fault(
            sample,
        ) {
            None => settled == told && after == trace,
            Some(fault) => exists|tripped: DriverRecord, well: bool| #[trigger]
                shut_down(tripped, after, well) && all_dispatched(
                    told,
                    trace,
                    temperature_trips(told, fault),
                    0,
                    settled,
                    tripped,
                ),
        }
}

pub fn service_temperature<D: PowerDriver>(
    state: &mut AppState,
    driver: &mut D,
    sample: Option<i16>,
)
    ensures
        kept(*old(state), *final(state)),
        temperature_serviced(
            *old(state),
            record_of(*old(driver)),
            sample,
            *final(state),
            record_of(*final(driver)),
        ),
{
    let ghost start = *state;
    let ghost before = record_of(*driver);
    let _ = dispatch_at_once(state, driver, Action::Temperature(sample));
    let ghost told = *state;
    let ghost trace = record_of(*driver);
    match ProtectionService::temperature_fault(sample) {
        None => {},
        Some(fault) => {
            let trips = ProtectionService::temperature_trip_actions(state, fault);
            assert(trips@ =~= temperature_trips(told, fault));
            dispatch_all(state, driver, trips.as_slice());
            let ghost tripped = record_of(*driver);
            let result = execute_global_shutdown(driver);
            assert(shut_down(tripped, record_of(*driver), result is Ok));
        },
    }
    assert(dispatched_at_once(start, before, Action::Temperature(sample), told, trace));
}

/// What the protection of a rail says, from the status of its converter.
pub fn service_rail_status<D: PowerDriver>(
    state: &mut AppState,
    driver: &mut D,
    protection: &mut ProtectionService,
    rail: Rail,
    observation: TpsStatusObservation,
)
    ensures
        kept(*old(state), *final(state)),
        ({
            let (pending, fault) = crate::monitoring::confirmed(
                old(protection).pending_shared_status_faults[crate::protection::rail_index(rail)],
                crate::monitoring::rail_fault(*old(state), rail, observation),
            );
            &&& final(protection).pending_shared_status_faults@
                == old(protection).pending_shared_status_faults@.update(
                crate::protection::rail_index(rail),
                pending,
            )
            &&& all_dispatched(
                *old(state),
                record_of(*old(driver)),
                crate::monitoring::rail_trips(*old(state), rail, fault),
                0,
                *final(state),
                record_of(*final(driver)),
            )
        }),
        *final(protection) == (ProtectionService {
            pending_shared_status_faults: final(protection).pending_shared_status_faults,
            ..*old(protection)
        }),
{
    let actions = protection.observe_shared_status(state, rail, observation);
    dispatch_all(state, driver, actions.as_slice());
}

/// What the protection of the high channel says, from the status of its
/// converter.
pub fn service_ch5_status<D: PowerDriver>(
    state: &mut AppState,
    driver: &mut D,
    protection: &mut ProtectionService,
    observation: TpsStatusObservation,
)
    ensures
        kept(*old(state), *final(state)),
        ({
            let active = old(state).channels[4].active();
            let (pending, fault) = if active && observation == TpsStatusObservation::ReadError {
                (None, Some(Fault::Hardware))
            } else {
                crate::monitoring::confirmed(
                    old(protection).pending_ch5_status_fault,
                    if active {
                        crate::monitoring::observed_fault(observation)
                    } else {
                        None
                    },
                )
            };
            &&& *final(protection) == (ProtectionService {
                pending_ch5_status_fault: pending,
                ..*old(protection)
            })
            &&& match fault {
                Some(fault) => dispatched_at_once(
                    *old(state),
                    record_of(*old(driver)),
                    Action::ProtectionTrip { channel: 4, fault },
                    *final(state),
                    record_of(*final(driver)),
                ),
                None => *final(state) == *old(state) && record_of(*final(driver)) == record_of(*old(driver)),
            }
        }),
{
    match protection.observe_ch5_status(state, observation) {
        Some(action) => {
            let _ = dispatch_at_once(state, driver, action);
        },
        None => {},
    }
}

/// What the protection of a rail says, from the currents of its channels.
pub fn service_rail_current<D: PowerDriver>(
    state: &mut AppState,
    driver: &mut D,
    protection: &mut ProtectionService,
    measurements: &[Measurement; 5],
    rail: Rail,
)
    ensures
        kept(*old(state), *final(state)),
        ({
            let (count, fault) = old(protection).shared_rails.after(
                *old(state),
                *measurements,
                rail,
            );
            &&& final(protection).shared_rails.overcurrent_samples@ == old(
                protection,
            ).shared_rails.overcurrent_samples@.update(crate::protection::rail_index(rail), count)
            &&& all_dispatched(
                *old(state),
                record_of(*old(driver)),
                crate::monitoring::rail_trips(*old(state), rail, fault),
                0,
                *final(state),
                record_of(*final(driver)),
            )
        }),
        *final(protection) == (ProtectionService {
            shared_rails: final(protection).shared_rails,
            ..*old(protection)
        }),
{
    let actions = protection.observe_shared_current(state, measurements, rail);
    dispatch_all(state, driver, actions.as_slice());
}

/// What the protection of a channel says, from its measurement.
pub fn service_channel<D: PowerDriver>(
    state: &mut AppState,
    driver: &mut D,
    protection: &mut ProtectionService,
    channel: u8,
    measurement: Measurement,
)
    requires
        channel < 5,
    ensures
        kept(*old(state), *final(state)),
        ({
            let (monitor, fault) = old(protection).channels[channel as int].after(
                crate::protection::protected_output(*old(state), channel),
                measurement,
                !(old(state).awg_status is Running && channel == old(state).awg_channel()),
            );
            &&& final(protection).channels@ == old(protection).channels@.update(
                channel as int,
                monitor,
            )
            &&& match fault {
                Some(fault) => dispatched_at_once(
                    *old(state),
                    record_of(*old(driver)),
                    Action::ProtectionTrip { channel, fault },
                    *final(state),
                    record_of(*final(driver)),
                ),
                None => *final(state) == *old(state) && record_of(*final(driver)) == record_of(*old(driver)),
            }
        }),
        *final(protection) == (ProtectionService {
            channels: final(protection).channels,
            ..*old(protection)
        }),
{
    match protection.observe_channel(state, channel, measurement) {
        Some(action) => {
            let _ = dispatch_at_once(state, driver, action);
        },
        None => {},
    }
}

/// Regulates an adjustable channel, unless a waveform drives it.
pub fn service_regulation<D: PowerDriver>(
    state: &mut AppState,
    driver: &mut D,
    channel: u8,
    measurement: Measurement,
)
    ensures
        kept(*old(state), *final(state)),
        if old(state).awg_status is Running && channel == old(state).awg_channel() {
            *final(state) == *old(state) && record_of(*final(driver)) == record_of(*old(driver))
        } else {
            dispatched_at_once(
                *old(state),
                record_of(*old(driver)),
                Action::RegulateChannel { channel, measurement },
                *final(state),
                record_of(*final(driver)),
            )
        },
{
    if !(state.awg_status == AwgStatus::Running && channel == state.active_awg_channel()) {
        let _ = dispatch_at_once(state, driver, Action::RegulateChannel { channel, measurement });
    }
}

/// The action that tells the state of a power-delivery event.
pub fn pd_action(event: ServiceEvent) -> (action: Action)
    ensures
        action == (match event {
            ServiceEvent::NegotiationStarted => Action::PdNegotiationStarted,
            ServiceEvent::Pd(PdEvent::Negotiated(contract)) => Action::PdNegotiated(contract),
            ServiceEvent::Pd(PdEvent::Lost(error)) => Action::PdFailed(error),
        }),
{
    match event {
        ServiceEvent::NegotiationStarted => Action::PdNegotiationStarted,
        ServiceEvent::Pd(PdEvent::Negotiated(contract)) => Action::PdNegotiated(contract),
        ServiceEvent::Pd(PdEvent::Lost(error)) => Action::PdFailed(error),
    }
}

pub const TEMPERATURE_PERIOD_MS: u16 = 100;

pub const MEASUREMENT_PERIOD_MS: u16 = 20;

pub const DISPLAY_PERIOD_MS: u16 = 200;

pub const LOAD_PERIOD_MS: u16 = 1_000;

/// When the parts of the loop are due.
#[derive(Clone, Copy, Debug, PartialEq, Eq, Structural)]
pub struct Cadence {
    pub service_tick: u16,
    pub temperature: u16,
    pub measurement: u16,
    pub display: u16,
    pub load: u16,
    pub health: u32,
}

/// Whether a counter has reached its period, and the counter afterwards.
pub open spec fn due(counter: u16, period: u16) -> (bool, u16) {
    if counter >= period {
        (true, 0)
    } else {
        (false, counter)
    }
}

/// Resets a counter that has reached its period.
pub fn take_due(counter: &mut u16, period: u16) -> (is_due: bool)
    ensures
        (is_due, *final(counter)) == due(*old(counter), period),
{
    if *counter >= period {
        *counter = 0;
        true
    } else {
        false
    }
}

impl Cadence {
    pub fn new(now: u16) -> (cadence: Self)
        ensures
            cadence == (Cadence {
                service_tick: now,
                temperature: 0,
                measurement: 0,
                display: 0,
                load: 0,
                health: 0,
            }),
    {
        Cadence {
            service_tick: now,
            temperature: 0,
            measurement: 0,
            display: 0,
            load: 0,
            health: 0,
        }
    }

    /// Lets the clock, which wraps around, come to `now`; says how much time has
    /// passed.
    pub fn advance(&mut self, now: u16) -> (elapsed: u16)
        ensures
            elapsed == (now - old(self).service_tick) % 0x1_0000,
            *final(self) == (Cadence {
                service_tick: now,
                temperature: ((old(self).temperature + elapsed) % 0x1_0000) as u16,
                measurement: ((old(self).measurement + elapsed) % 0x1_0000) as u16,
                display: ((old(self).display + elapsed) % 0x1_0000) as u16,
                load: ((old(self).load + elapsed) % 0x1_0000) as u16,
                health: if old(self).health + elapsed > u32::MAX {
                    u32::MAX
                } else {
                    (old(self).health + elapsed) as u32
                },
            }),
    {
        let elapsed: u16 = now.wrapping_sub(self.service_tick);
        self.service_tick = now;
        self.temperature = self.temperature.wrapping_add(elapsed);
        self.measurement = self.measurement.wrapping_add(elapsed);
        self.display = self.display.wrapping_add(elapsed);
        self.load = self.load.wrapping_add(elapsed);
        self.health = self.health.saturating_add(elapsed as u32);
        elapsed
    }
}

/// The set and reset bits that switch every output control of port A, B and C
/// off without any driver.
pub fn emergency_bits() -> (bits: [u32; 3])
    ensures
        bits@ == seq![0x8000_0000u32, 0x80c4_0000u32, 0x3000_0000u32],
{
    let bits: [u32; 3] = [0x8000_0000, 0x80c4_0000, 0x3000_0000];
    assert(bits@ =~= seq![0x8000_0000u32, 0x80c4_0000u32, 0x3000_0000u32]);
    bits
}

/// The emergency bits reset exactly the pins that a channel gate, a rail or the
/// high channel uses.
pub proof fn emergency_covers_every_control()
    ensures
        0x8000_0000u32 == crate::board::power::set_reset_bits(15, false),
        0x80c4_0000u32 == crate::board::power::set_reset_bits(2, false)
            | crate::board::power::set_reset_bits(6, false)
            | crate::board::power::set_reset_bits(7, false)
            | crate::board::power::set_reset_bits(15, false),
        0x3000_0000u32 == crate::board::power::set_reset_bits(12, false)
            | crate::board::power::set_reset_bits(13, false),
{
    assert(0x8000_0000u32 == 1u32 << 31u8) by (bit_vector);
    assert(0x80c4_0000u32 == (1u32 << 18u8) | (1u32 << 22u8) | (1u32 << 23u8) | (1u32 << 31u8))
        by (bit_vector);
    assert(0x3000_0000u32 == (1u32 << 28u8) | (1u32 << 29u8)) by (bit_vector);
}

} // verus!
