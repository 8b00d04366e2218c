//! The timer's record and the commands that act on it.

use crate::model::SettingsModel;
use crate::model::TickModel;
use crate::model::TimerModel;
use crate::model::SECONDS_PER_MINUTE;
use vstd::prelude::*;

verus! {

/// Whether the countdown advances.
#[derive(Debug, Clone, Copy, PartialEq, Eq, Structural)]
pub enum TimerState {
    Running,
    Paused,
    Stopped,
}

/// The phase that the timer is in.
#[derive(Debug, Clone, Copy, PartialEq, Eq, Structural)]
pub enum SessionType {
    Work,
    ShortBreak,
    LongBreak,
}

/// The one record that commands and scheduler share. Durations and
/// `remaining` are in seconds.
#[derive(Debug, Clone)]
pub struct PomodoroState {
    pub state: TimerState,
    pub session_type: SessionType,
    pub remaining: u32,
    pub work_sessions_completed: u32,
    pub work_duration: u32,
    pub short_break_duration: u32,
    pub long_break_duration: u32,
}

impl View for PomodoroState {
    type V = TimerModel;

    open spec fn view(&self) -> TimerModel {
        TimerModel {
            state: self.state,
            session_type: self.session_type,
            remaining: self.remaining as nat,
            work_sessions_completed: self.work_sessions_completed as nat,
            work_duration: self.work_duration as nat,
            short_break_duration: self.short_break_duration as nat,
            long_break_duration: self.long_break_duration as nat,
        }
    }
}

/// What an observer is sent: the seconds left and the phase they belong to.
#[derive(Debug, Clone, Copy, PartialEq, Eq, Structural)]
pub struct TickPayload {
    pub remaining: u32,
    pub session_type: SessionType,
}

impl View for TickPayload {
    type V = TickModel;

    open spec fn view(&self) -> TickModel {
        TickModel { remaining: self.remaining as nat, session_type: self.session_type }
    }
}

/// The three configured lengths as the settings form shows them: in minutes.
#[derive(Debug, Clone, Copy, PartialEq, Eq, Structural)]
pub struct SettingsPayload {
    pub work_duration: u32,
    pub short_break_duration: u32,
    pub long_break_duration: u32,
}

impl View for SettingsPayload {
    type V = SettingsModel;

    open spec fn view(&self) -> SettingsModel {
        SettingsModel {
            work_duration: self.work_duration as nat,
            short_break_duration: self.short_break_duration as nat,
            long_break_duration: self.long_break_duration as nat,
        }
    }
}

impl SettingsPayload {
    /// Whether each length, counted in seconds, fits the timer's fields:
    /// what `update_setting` asks of its argument.
    pub fn is_storable(&self) -> (fits: bool)
        ensures
            fits == self@.storable(),
    {
        let most: u32 = u32::MAX / SECONDS_PER_MINUTE;
        self.work_duration <= most && self.short_break_duration <= most
            && self.long_break_duration <= most
    }
}

impl PomodoroState {
    /// The timer as it is at startup.
    pub fn new() -> (timer: Self)
        ensures
            timer@ == TimerModel::initial(),
    {
        PomodoroState {
            state: TimerState::Stopped,
            session_type: SessionType::Work,
            remaining: 25 * SECONDS_PER_MINUTE,
            work_sessions_completed: 0,
            work_duration: 25 * SECONDS_PER_MINUTE,
            short_break_duration: 5 * SECONDS_PER_MINUTE,
            long_break_duration: 15 * SECONDS_PER_MINUTE,
        }
    }

    /// What an observer is sent about the timer as it is now.
    pub fn payload(&self) -> (payload: TickPayload)
        ensures
            payload@ == self@.payload(),
    {
        TickPayload { remaining: self.remaining, session_type: self.session_type }
    }
}

/// Lets the countdown advance. Starting a running timer changes nothing.
pub fn start_timer(state: &mut PomodoroState)
    ensures
        final(state)@ == old(state)@.started(),
{
    state.state = TimerState::Running;
}

/// Freezes the countdown where it is. To the scheduler a stopped timer and a
/// paused one are the same.
pub fn stop_timer(state: &mut PomodoroState)
    ensures
        final(state)@ == old(state)@.stopped(),
{
    state.state = TimerState::Stopped;
}

/// Freezes the countdown where it is.
pub fn pause_timer(state: &mut PomodoroState)
    ensures
        final(state)@ == old(state)@.paused(),
{
    state.state = TimerState::Paused;
}

/// Stops the timer and takes it back to the head of the phase it is in. The
/// result is what observers are to be sent at once, without waiting for the
/// scheduler's next step.
pub fn reset_timer(state: &mut PomodoroState) -> (payload: TickPayload)
    ensures
        final(state)@ == old(state)@.reset(),
        payload@ == old(state)@.reset().payload(),
{
    state.state = TimerState::Stopped;
    state.remaining = match state.session_type {
        SessionType::Work => state.work_duration,
        SessionType::ShortBreak => state.short_break_duration,
        SessionType::LongBreak => state.long_break_duration,
    };
    state.payload()
}

/// The configured lengths in whole minutes.
pub fn get_setting(state: &PomodoroState) -> (settings: SettingsPayload)
    ensures
        settings@ == state@.settings(),
{
    SettingsPayload {
        work_duration: state.work_duration / SECONDS_PER_MINUTE,
        short_break_duration: state.short_break_duration / SECONDS_PER_MINUTE,
        long_break_duration: state.long_break_duration / SECONDS_PER_MINUTE,
    }
}

/// Takes the three lengths from `settings`, given in minutes. What is left of
/// the current phase stays as it is, even where it is more than the new
/// length: the next reset or phase end brings it back within.
pub fn update_setting(settings: SettingsPayload, state: &mut PomodoroState)
    requires
        settings@.storable(),
    ensures
        final(state)@ == old(state)@.with_settings(settings@),
{
    state.work_duration = settings.work_duration * SECONDS_PER_MINUTE;
    state.short_break_duration = settings.short_break_duration * SECONDS_PER_MINUTE;
    state.long_break_duration = settings.long_break_duration * SECONDS_PER_MINUTE;
}

} // verus!
