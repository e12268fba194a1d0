//! The hysteresis state machine that drives the fan.
//!
//! The controller owns a single on/off state bit. Each tick it is shown a
//! temperature sample together with the configured threshold and variance,
//! and decides whether the actuator must change state. The decision is gated
//! by the current state: the fan turns on only at or above the on-point
//! `threshold + variance`, and turns off only at or below the off-point
//! `threshold - variance`, so a sample strictly inside the band never causes
//! a transition in either direction.
//!
//! The physical write to the GPIO line is the caller's job: `plan` returns
//! the command to issue (at most one per tick), and `apply` commits the state
//! bit only when the caller reports that the write succeeded, so the recorded
//! state never diverges from the physical output.

use vstd::prelude::*;

verus! {

/// A command for the actuator: drive the output line high or low.
#[derive(Clone, Copy, Debug, PartialEq, Eq, Structural)]
pub enum FanCommand {
    Active,
    Inactive,
}

/// A semantic event the controller emits for the diagnostics sink.
#[derive(Clone, Copy, Debug, PartialEq, Eq, Structural)]
pub enum FanEvent {
    TurnedOn,
    TurnedOff,
    HeldOn,
}

/// What one tick of the controller decided: at most one actuator command,
/// and at most one event to report.
#[derive(Clone, Copy, Debug, PartialEq, Eq)]
pub struct Decision {
    pub command: Option<FanCommand>,
    pub event: Option<FanEvent>,
}

/// The fan turns on exactly when it is off and the sample has reached the
/// on-point `threshold + variance`.
pub open spec fn turns_on(running: bool, temperature: int, threshold: int, variance: int) -> bool {
    !running && temperature >= threshold + variance
}

/// The fan turns off exactly when it is on and the sample has fallen to the
/// off-point `threshold - variance`.
pub open spec fn turns_off(running: bool, temperature: int, threshold: int, variance: int) -> bool {
    running && temperature <= threshold - variance
}

/// The state bit after a successful tick on the given sample.
pub open spec fn next_running(running: bool, temperature: int, threshold: int, variance: int) -> bool {
    if turns_on(running, temperature, threshold, variance) {
        true
    } else if turns_off(running, temperature, threshold, variance) {
        false
    } else {
        running
    }
}

/// The actuator command a tick issues: at most one, and only on a transition.
pub open spec fn planned_command(
    running: bool,
    temperature: int,
    threshold: int,
    variance: int,
) -> Option<FanCommand> {
    if turns_on(running, temperature, threshold, variance) {
        Some(FanCommand::Active)
    } else if turns_off(running, temperature, threshold, variance) {
        Some(FanCommand::Inactive)
    } else {
        None
    }
}

/// The event a tick reports. A fan that stays on reports that it is held on,
/// whether the sample sits inside the band or above the on-point; a fan that
/// stays off reports nothing.
pub open spec fn planned_event(
    running: bool,
    temperature: int,
    threshold: int,
    variance: int,
) -> Option<FanEvent> {
    if turns_on(running, temperature, threshold, variance) {
        Some(FanEvent::TurnedOn)
    } else if turns_off(running, temperature, threshold, variance) {
        Some(FanEvent::TurnedOff)
    } else if running {
        Some(FanEvent::HeldOn)
    } else {
        None
    }
}

/// The controller's state: which GPIO line it drives, and whether it believes
/// the fan is currently running. The bit starts out off (the fail-safe
/// default) and changes only when a commanded write is reported successful.
pub struct FanController {
    line_num: u32,
    is_running: bool,
}

impl FanController {
    /// Whether the controller's recorded state says the fan is on.
    pub closed spec fn running(&self) -> bool {
        self.is_running
    }

    /// The GPIO line the controller was built for.
    pub closed spec fn line(&self) -> u32 {
        self.line_num
    }

    /// A fresh controller records the fan as off: if the physical line was
    /// not driven low at acquisition time, the first hot sample will command
    /// it, and a cold start never claims a running fan.
    pub fn new(line_num: u32) -> (c: Self)
        ensures
            !c.running(),
            c.line() == line_num,
    {
        FanController { line_num, is_running: false }
    }

    /// The recorded state, for callers and diagnostics.
    pub fn is_running(&self) -> (b: bool)
        ensures
            b == self.running(),
    {
        self.is_running
    }

    /// The GPIO line number, for callers that perform the physical write.
    pub fn line_num(&self) -> (n: u32)
        ensures
            n == self.line(),
    {
        self.line_num
    }

    /// Decide one tick: apply the hysteresis rule to the sample and return
    /// the actuator command (at most one) and the event to report. The
    /// controller itself is not changed; the caller performs the write and
    /// then reports its outcome through `apply`.
    ///
    /// The arithmetic is carried out in a wider type, so any `i64` threshold
    /// and variance are accepted — a negative variance degenerates the band
    /// but is not rejected here.
    pub fn plan(&self, temperature: i64, threshold: i64, variance: i64) -> (d: Decision)
        ensures
            d.command == planned_command(
                self.running(),
                temperature as int,
                threshold as int,
                variance as int,
            ),
            d.event == planned_event(
                self.running(),
                temperature as int,
                threshold as int,
                variance as int,
            ),
    {
        let temp: i128 = temperature as i128;
        let on_point: i128 = threshold as i128 + variance as i128;
        let off_point: i128 = threshold as i128 - variance as i128;
        if !self.is_running && temp >= on_point {
            Decision { command: Some(FanCommand::Active), event: Some(FanEvent::TurnedOn) }
        } else if self.is_running && temp <= off_point {
            Decision { command: Some(FanCommand::Inactive), event: Some(FanEvent::TurnedOff) }
        } else if self.is_running {
            Decision { command: None, event: Some(FanEvent::HeldOn) }
        } else {
            Decision { command: None, event: None }
        }
    }

    /// Commit the outcome of a commanded actuator write. When the caller
    /// reports success, the recorded state follows the command; when the
    /// write failed, the recorded state is left exactly as it was, so that
    /// the next tick is judged against the true physical state.
    pub fn apply(&mut self, command: FanCommand, write_ok: bool)
        ensures
            final(self).line() == old(self).line(),
            write_ok ==> final(self).running() == (command == FanCommand::Active),
            !write_ok ==> final(self).running() == old(self).running(),
    {
        if write_ok {
            self.is_running = match command {
                FanCommand::Active => true,
                FanCommand::Inactive => false,
            };
        }
    }

    /// The command issued when the controller releases the actuator: always
    /// drive the line low, whatever state the controller is in at that
    /// moment, so release is fail-safe-off.
    pub fn release_command(&self) -> (c: FanCommand)
        ensures
            c == FanCommand::Inactive,
    {
        FanCommand::Inactive
    }
}

/// Below the off-point with the fan off, a tick issues no actuator command,
/// reports no event, and leaves the state off. This needs the band to be
/// non-degenerate: with a negative variance the on-point lies below the
/// off-point, and a sample under the off-point can still reach it.
pub proof fn lemma_off_stays_off_below_band(temperature: int, threshold: int, variance: int)
    requires
        variance >= 0,
        temperature < threshold - variance,
    ensures
        planned_command(false, temperature, threshold, variance) is None,
        planned_event(false, temperature, threshold, variance) is None,
        !next_running(false, temperature, threshold, variance),
{
}

/// A sample strictly inside the band `(threshold - variance, threshold + variance)`
/// never causes a transition or an actuator command, whichever state the
/// controller is in: this is the chatter-free hysteresis guarantee.
pub proof fn lemma_band_is_chatter_free(
    running: bool,
    temperature: int,
    threshold: int,
    variance: int,
)
    requires
        threshold - variance < temperature < threshold + variance,
    ensures
        planned_command(running, temperature, threshold, variance) is None,
        next_running(running, temperature, threshold, variance) == running,
{
}

/// At or above the on-point with the fan off, a tick issues exactly one
/// command, Active, and the state becomes on.
pub proof fn lemma_turns_on_at_on_point(temperature: int, threshold: int, variance: int)
    requires
        temperature >= threshold + variance,
    ensures
        planned_command(false, temperature, threshold, variance) == Some(FanCommand::Active),
        planned_event(false, temperature, threshold, variance) == Some(FanEvent::TurnedOn),
        next_running(false, temperature, threshold, variance),
{
}

/// At or below the off-point with the fan on, a tick issues exactly one
/// command, Inactive, and the state becomes off.
pub proof fn lemma_turns_off_at_off_point(temperature: int, threshold: int, variance: int)
    requires
        temperature <= threshold - variance,
    ensures
        planned_command(true, temperature, threshold, variance) == Some(FanCommand::Inactive),
        planned_event(true, temperature, threshold, variance) == Some(FanEvent::TurnedOff),
        !next_running(true, temperature, threshold, variance),
{
}

/// Repeating a tick on the same sample is idempotent: once a sample has
/// driven its transition, showing the same sample again issues no further
/// command, and the state is stable. This holds for every sample when the
/// band is non-degenerate (`variance > 0`); with a zero-width band it holds
/// for every sample except one exactly at the threshold, where the on- and
/// off-points coincide and the rule oscillates.
pub proof fn lemma_repeat_sample_is_stable(
    running: bool,
    temperature: int,
    threshold: int,
    variance: int,
)
    requires
        variance >= 0,
        variance == 0 ==> temperature != threshold,
    ensures
        planned_command(
            next_running(running, temperature, threshold, variance),
            temperature,
            threshold,
            variance,
        ) is None,
        next_running(
            next_running(running, temperature, threshold, variance),
            temperature,
            threshold,
            variance,
        ) == next_running(running, temperature, threshold, variance),
{
}

} // verus!

