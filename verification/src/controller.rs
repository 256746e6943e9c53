//! The fan control state machine.
//!
//! The controller owns no hardware: it is a pure state machine.  Its driver
//! asks for the next [`Action`], performs it (export the pin, set its
//! direction, read the sensor, drive the pin, sleep), and reports what
//! happened as an [`Event`].  Every decision the fan controller makes — on or
//! off, and how long to wait before the next sample — is taken here and is
//! verified.

use vstd::prelude::*;

verus! {

/// Fan-on pause before sampling again, in seconds: once the fan has been
/// switched on, it is left running at least this long, to avoid rapid
/// on/off chatter on borderline readings.
pub const DWELL_SECS: u64 = 15;

/// Pause after a successful drive, in seconds.
pub const NORMAL_SECS: u64 = 5;

/// Pause after a failed drive, in seconds: failures are retried quickly.
pub const ERROR_SECS: u64 = 2;

/// The logical level the fan relay pin is driven to.
#[derive(Clone, Copy, Debug, PartialEq, Eq, Structural)]
pub enum Level {
    /// Fan on.
    High,
    /// Fan off.
    Low,
}

/// The decision rule: the fan is on exactly when the reading is strictly
/// above the threshold; equality means off.
pub open spec fn spec_decision(reading_milli: int, threshold_milli: int) -> Level {
    if reading_milli > threshold_milli {
        Level::High
    } else {
        Level::Low
    }
}

/// Decide the fan level from a reading and a threshold, both in
/// milli-degrees Celsius.
pub fn decide(reading_milli: i64, threshold_milli: i64) -> (level: Level)
    ensures
        level == spec_decision(reading_milli as int, threshold_milli as int),
        level is High <==> reading_milli > threshold_milli,
{
    if reading_milli > threshold_milli {
        Level::High
    } else {
        Level::Low
    }
}

/// The reading an iteration works with: the sensor's value where it gave
/// one, the threshold itself where it failed — which the strict comparison
/// then resolves to "fan off".
pub open spec fn spec_effective(reading: Option<i64>, threshold_milli: int) -> int {
    match reading {
        Some(v) => v as int,
        None => threshold_milli,
    }
}

/// Substitute the threshold for a failed sensor reading.
pub fn effective_reading(reading: Option<i64>, threshold_milli: i64) -> (r: i64)
    ensures
        r as int == spec_effective(reading, threshold_milli as int),
{
    match reading {
        Some(v) => v,
        None => threshold_milli,
    }
}

/// The pause a drive outcome earns, as (dwell, rest) in seconds: a
/// successful switch-on dwells before the normal rest, a successful
/// switch-off rests normally at once, and any failed drive is retried after
/// the short error rest.
pub open spec fn spec_pause(level: Level, drive_ok: bool) -> (u64, u64) {
    if !drive_ok {
        (0u64, ERROR_SECS)
    } else if level is High {
        (DWELL_SECS, NORMAL_SECS)
    } else {
        (0u64, NORMAL_SECS)
    }
}

/// Plan the pause that follows a drive attempt.
pub fn plan_pause(level: Level, drive_ok: bool) -> (pause: (u64, u64))
    ensures
        pause == spec_pause(level, drive_ok),
{
    if !drive_ok {
        (0u64, ERROR_SECS)
    } else {
        match level {
            Level::High => (DWELL_SECS, NORMAL_SECS),
            Level::Low => (0u64, NORMAL_SECS),
        }
    }
}

/// What the controller is waiting for.
#[derive(Clone, Copy, Debug, PartialEq, Eq, Structural)]
pub enum Phase {
    /// The pin has not been exported yet.
    Acquiring,
    /// The pin is exported; its direction has not been set yet.
    Initializing,
    /// Ready for the next temperature sample.
    Sampling,
    /// A drive of the pin to the given level is due.
    Driving(Level),
    /// A pause of (dwell, rest) seconds is due before the next sample.
    Pausing(u64, u64),
    /// Acquisition failed or the driver broke the protocol; nothing more
    /// will be asked for.
    Failed,
}

/// What the driver is asked to do next.
#[derive(Clone, Copy, Debug, PartialEq, Eq, Structural)]
pub enum Action {
    /// Export the pin.
    Export,
    /// Configure the pin as an output.
    SetDirection,
    /// Sample the temperature sensor.
    ReadSensor,
    /// Drive the pin to the given level.
    Drive(Level),
    /// Sleep for the dwell, then for the rest, in seconds.
    Pause { dwell_secs: u64, rest_secs: u64 },
    /// Give up: release the pin and report failure.
    Fail,
}

/// What the driver reports back after performing an action.
#[derive(Clone, Copy, Debug)]
pub enum Event {
    /// The pin was exported.
    ExportOk,
    /// The pin could not be exported.
    ExportFailed,
    /// The pin was configured as an output.
    DirectionOk,
    /// The pin could not be configured as an output.
    DirectionFailed,
    /// The sensor was sampled: a reading in milli-degrees Celsius, or
    /// `None` where it failed.
    Reading(Option<i64>),
    /// The drive attempt finished, successfully or not.
    DriveDone(bool),
    /// The pause elapsed.
    Paused,
}

/// The action each phase calls for.
pub open spec fn spec_action_of(phase: Phase) -> Action {
    match phase {
        Phase::Acquiring => Action::Export,
        Phase::Initializing => Action::SetDirection,
        Phase::Sampling => Action::ReadSensor,
        Phase::Driving(level) => Action::Drive(level),
        Phase::Pausing(dwell, rest) => Action::Pause { dwell_secs: dwell, rest_secs: rest },
        Phase::Failed => Action::Fail,
    }
}

/// The transition relation of the controller: where an event moves a phase,
/// under a threshold in milli-degrees.  An event that does not answer the
/// pending action breaks the protocol and fails the controller.
pub open spec fn spec_next_phase(phase: Phase, threshold_milli: int, event: Event) -> Phase {
    match (phase, event) {
        (Phase::Acquiring, Event::ExportOk) => Phase::Initializing,
        (Phase::Initializing, Event::DirectionOk) => Phase::Sampling,
        (Phase::Sampling, Event::Reading(r)) => Phase::Driving(
            spec_decision(spec_effective(r, threshold_milli), threshold_milli),
        ),
        (Phase::Driving(level), Event::DriveDone(ok)) => Phase::Pausing(
            spec_pause(level, ok).0,
            spec_pause(level, ok).1,
        ),
        (Phase::Pausing(_, _), Event::Paused) => Phase::Sampling,
        _ => Phase::Failed,
    }
}

/// The fan control loop as a pure state machine.  The driver performs
/// [`Controller::next_action`] and feeds the outcome to
/// [`Controller::handle`].
pub struct Controller {
    /// Readings strictly above this many milli-degrees switch the fan on.
    pub threshold_milli: i64,
    /// What the controller is waiting for.
    pub phase: Phase,
    /// Whether the direction of the pin has been set to output.
    pub direction_set: bool,
}

impl Controller {
    /// A controller never drives the pin before its direction was set.
    pub open spec fn wf(self) -> bool {
        (self.phase is Sampling || self.phase is Driving || self.phase is Pausing)
            ==> self.direction_set
    }

    /// A fresh controller, about to acquire the pin.
    pub fn new(threshold_milli: i64) -> (c: Controller)
        ensures
            c.threshold_milli == threshold_milli,
            c.phase is Acquiring,
            !c.direction_set,
            c.wf(),
    {
        Controller { threshold_milli, phase: Phase::Acquiring, direction_set: false }
    }

    /// The action the controller asks its driver to perform next.
    pub fn next_action(&self) -> (action: Action)
        ensures
            action == spec_action_of(self.phase),
    {
        match self.phase {
            Phase::Acquiring => Action::Export,
            Phase::Initializing => Action::SetDirection,
            Phase::Sampling => Action::ReadSensor,
            Phase::Driving(level) => Action::Drive(level),
            Phase::Pausing(dwell, rest) => Action::Pause { dwell_secs: dwell, rest_secs: rest },
            Phase::Failed => Action::Fail,
        }
    }

    /// Advance on the outcome of the last action.  The threshold never
    /// changes; the direction is recorded as set exactly when the
    /// direction-setting succeeded; and a well-formed controller stays
    /// well-formed.
    pub fn handle(&mut self, event: Event)
        ensures
            final(self).phase == spec_next_phase(
                old(self).phase,
                old(self).threshold_milli as int,
                event,
            ),
            final(self).threshold_milli == old(self).threshold_milli,
            final(self).direction_set == (old(self).direction_set || (old(self).phase
                is Initializing && event is DirectionOk)),
            old(self).wf() ==> final(self).wf(),
    {
        match (self.phase, event) {
            (Phase::Acquiring, Event::ExportOk) => {
                self.phase = Phase::Initializing;
            },
            (Phase::Initializing, Event::DirectionOk) => {
                self.direction_set = true;
                self.phase = Phase::Sampling;
            },
            (Phase::Sampling, Event::Reading(r)) => {
                let reading = effective_reading(r, self.threshold_milli);
                self.phase = Phase::Driving(decide(reading, self.threshold_milli));
            },
            (Phase::Driving(level), Event::DriveDone(ok)) => {
                let pause = plan_pause(level, ok);
                self.phase = Phase::Pausing(pause.0, pause.1);
            },
            (Phase::Pausing(_, _), Event::Paused) => {
                self.phase = Phase::Sampling;
            },
            _ => {
                self.phase = Phase::Failed;
            },
        }
    }
}

/// The decision is the strict comparison: the fan is on exactly when the
/// reading lies strictly above the threshold, and off on equality.
pub proof fn lemma_decision_strict(reading_milli: int, threshold_milli: int)
    ensures
        spec_decision(reading_milli, threshold_milli) is High <==> reading_milli
            > threshold_milli,
        spec_decision(reading_milli, threshold_milli) is Low <==> reading_milli
            <= threshold_milli,
{
}

/// A failed sensor reading substitutes the threshold itself, which the
/// strict comparison resolves to "fan off", whatever the threshold.
pub proof fn lemma_sensor_failure_off(threshold_milli: int)
    ensures
        spec_effective(Option::<i64>::None, threshold_milli) == threshold_milli,
        spec_decision(
            spec_effective(Option::<i64>::None, threshold_milli),
            threshold_milli,
        ) is Low,
{
}

/// Whatever reading switched the fan on, a successful switch-on is followed
/// by the dwell and then the normal rest — at least twenty seconds — before
/// the next sample.
pub proof fn lemma_on_drive_dwell(threshold_milli: int, reading: Option<i64>)
    ensures
        spec_decision(spec_effective(reading, threshold_milli), threshold_milli) is High
            ==> spec_next_phase(
            spec_next_phase(Phase::Sampling, threshold_milli, Event::Reading(reading)),
            threshold_milli,
            Event::DriveDone(true),
        ) == Phase::Pausing(DWELL_SECS, NORMAL_SECS),
        DWELL_SECS + NORMAL_SECS >= 20,
{
}

/// A successful switch-off rests for exactly the normal interval, and any
/// failed drive — on or off — skips the dwell and rests for exactly the
/// error interval.
pub proof fn lemma_off_or_failed_drive_rest(threshold_milli: int, level: Level)
    ensures
        spec_next_phase(
            Phase::Driving(Level::Low),
            threshold_milli,
            Event::DriveDone(true),
        ) == Phase::Pausing(0, NORMAL_SECS),
        spec_next_phase(Phase::Driving(level), threshold_milli, Event::DriveDone(false))
            == Phase::Pausing(0, ERROR_SECS),
        NORMAL_SECS == 5,
        ERROR_SECS == 2,
{
}

/// The direction is set exactly once per run: only the initializing phase
/// asks for it, that phase is entered only from the initial acquiring
/// phase, and no event ever leads back to acquiring — so a run passes
/// through initializing at most once.
pub proof fn lemma_direction_once(phase: Phase, threshold_milli: int, event: Event)
    ensures
        spec_action_of(phase) is SetDirection <==> phase is Initializing,
        !(spec_next_phase(phase, threshold_milli, event) is Acquiring),
        spec_next_phase(phase, threshold_milli, event) is Initializing ==> phase is Acquiring,
{
}

/// A well-formed controller asks for a drive only once the direction was
/// set: together with [`lemma_direction_once`], every drive of the pin
/// comes after the one direction-setting of the run.
pub proof fn lemma_drive_needs_direction(c: Controller)
    requires
        c.wf(),
    ensures
        spec_action_of(c.phase) is Drive ==> c.direction_set,
{
}

/// A failed export fails the run at once: the controller moves to the
/// failed phase, asks only to give up, and no event ever moves it out — so
/// no sample is ever taken.
pub proof fn lemma_export_failure_fatal(threshold_milli: int, event: Event)
    ensures
        spec_next_phase(Phase::Acquiring, threshold_milli, Event::ExportFailed) is Failed,
        spec_action_of(Phase::Failed) is Fail,
        spec_next_phase(Phase::Failed, threshold_milli, event) is Failed,
{
}

} // verus!
