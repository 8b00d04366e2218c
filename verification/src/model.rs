//! The timer as a mathematical object: unbounded seconds and counters, and
//! every command and the scheduler's step as a function from timer to timer.

use crate::timer::SessionType;
use crate::timer::TimerState;
use vstd::prelude::*;

verus! {

/// Seconds in a minute: settings travel in minutes, the timer counts seconds.
pub const SECONDS_PER_MINUTE: u32 = 60;

/// The completed work session that earns a long break instead of a short one.
pub const SESSIONS_PER_LONG_BREAK: u32 = 4;

/// The seconds in `minutes` minutes.
pub open spec fn seconds_in(minutes: nat) -> nat {
    minutes * (SECONDS_PER_MINUTE as nat)
}

/// The whole minutes in `seconds` seconds, a started minute not counted.
pub open spec fn whole_minutes_in(seconds: nat) -> nat {
    seconds / (SECONDS_PER_MINUTE as nat)
}

/// What a `PomodoroState` stands for.
pub struct TimerModel {
    pub state: TimerState,
    pub session_type: SessionType,
    pub remaining: nat,
    pub work_sessions_completed: nat,
    pub work_duration: nat,
    pub short_break_duration: nat,
    pub long_break_duration: nat,
}

impl TimerModel {
    /// The timer at startup: stopped at the head of a 25-minute work phase,
    /// with breaks of 5 and 15 minutes.
    pub open spec fn initial() -> TimerModel {
        TimerModel {
            state: TimerState::Stopped,
            session_type: SessionType::Work,
            remaining: 25 * 60,
            work_sessions_completed: 0,
            work_duration: 25 * 60,
            short_break_duration: 5 * 60,
            long_break_duration: 15 * 60,
        }
    }

    /// The configured length of `phase`, in seconds.
    pub open spec fn duration_of(self, phase: SessionType) -> nat {
        match phase {
            SessionType::Work => self.work_duration,
            SessionType::ShortBreak => self.short_break_duration,
            SessionType::LongBreak => self.long_break_duration,
        }
    }

    /// The configured length of the current phase, in seconds.
    pub open spec fn phase_duration(self) -> nat {
        self.duration_of(self.session_type)
    }

    /// No more is left of the current phase than its configured length.
    pub open spec fn within_phase(self) -> bool {
        self.remaining <= self.phase_duration()
    }

    /// Fewer work sessions are counted than earn a long break, and every
    /// phase has a length.
    pub open spec fn wf(self) -> bool {
        &&& self.work_sessions_completed < SESSIONS_PER_LONG_BREAK
        &&& self.work_duration > 0
        &&& self.short_break_duration > 0
        &&& self.long_break_duration > 0
    }

    /// What an observer is told: the seconds left and the phase.
    pub open spec fn payload(self) -> TickModel {
        TickModel { remaining: self.remaining, session_type: self.session_type }
    }

    /// After the start command: the countdown advances.
    pub open spec fn started(self) -> TimerModel {
        TimerModel { state: TimerState::Running, ..self }
    }

    /// After the pause command: the countdown is frozen where it is.
    pub open spec fn paused(self) -> TimerModel {
        TimerModel { state: TimerState::Paused, ..self }
    }

    /// After the stop command: the countdown is frozen where it is.
    pub open spec fn stopped(self) -> TimerModel {
        TimerModel { state: TimerState::Stopped, ..self }
    }

    /// After the reset command: stopped at the head of the current phase.
    pub open spec fn reset(self) -> TimerModel {
        TimerModel { state: TimerState::Stopped, remaining: self.phase_duration(), ..self }
    }

    /// The configured lengths in whole minutes, a started minute not counted.
    pub open spec fn settings(self) -> SettingsModel {
        SettingsModel {
            work_duration: whole_minutes_in(self.work_duration),
            short_break_duration: whole_minutes_in(self.short_break_duration),
            long_break_duration: whole_minutes_in(self.long_break_duration),
        }
    }

    /// After a settings update: the three lengths are those of `minutes`, and
    /// what is left of the running phase is not touched.
    pub open spec fn with_settings(self, minutes: SettingsModel) -> TimerModel {
        TimerModel {
            work_duration: seconds_in(minutes.work_duration),
            short_break_duration: seconds_in(minutes.short_break_duration),
            long_break_duration: seconds_in(minutes.long_break_duration),
            ..self
        }
    }

    /// The countdown advances and has reached zero: the next step of the
    /// scheduler ends the phase.
    pub open spec fn at_phase_end(self) -> bool {
        self.state == TimerState::Running && self.remaining == 0
    }

    /// The number of completed work sessions once the current phase is over,
    /// before a long break clears it.
    pub open spec fn sessions_after_phase(self) -> nat {
        match self.session_type {
            SessionType::Work => self.work_sessions_completed + 1,
            _ => self.work_sessions_completed,
        }
    }

    /// The phase that follows the current one: a break after work, long when
    /// the work session just completed is the fourth since the last long
    /// break, and work after either break.
    pub open spec fn next_phase(self) -> SessionType {
        match self.session_type {
            SessionType::Work => if self.sessions_after_phase() >= SESSIONS_PER_LONG_BREAK {
                SessionType::LongBreak
            } else {
                SessionType::ShortBreak
            },
            _ => SessionType::Work,
        }
    }

    /// After the current phase is over: stopped at the head of the next
    /// phase, the completed work session counted, and the count cleared when
    /// a long break begins.
    pub open spec fn phase_ended(self) -> TimerModel {
        let next = self.next_phase();
        TimerModel {
            state: TimerState::Stopped,
            session_type: next,
            remaining: self.duration_of(next),
            work_sessions_completed: if next == SessionType::LongBreak {
                0
            } else {
                self.sessions_after_phase()
            },
            ..self
        }
    }

    /// After one second of a phase that is not over.
    pub open spec fn counted_down(self) -> TimerModel
        recommends
            self.remaining > 0,
    {
        TimerModel { remaining: (self.remaining - 1) as nat, ..self }
    }

    /// After one step of the scheduler: nothing changes unless the timer is
    /// running; a running timer counts one second down, or, at zero, ends
    /// the phase.
    pub open spec fn ticked(self) -> TimerModel {
        if self.state != TimerState::Running {
            self
        } else if self.remaining > 0 {
            self.counted_down()
        } else {
            self.phase_ended()
        }
    }

    /// What the scheduler sends out with that step.
    pub open spec fn tick_action(self) -> ActionModel {
        if self.state != TimerState::Running {
            ActionModel::Idle
        } else if self.remaining > 0 {
            ActionModel::Emit(self.counted_down().payload())
        } else {
            ActionModel::PhaseEnd { ended: self.session_type, payload: self.phase_ended().payload() }
        }
    }
}

/// What a `TickPayload` stands for.
pub struct TickModel {
    pub remaining: nat,
    pub session_type: SessionType,
}

/// What a `SettingsPayload` stands for: the three lengths in minutes.
pub struct SettingsModel {
    pub work_duration: nat,
    pub short_break_duration: nat,
    pub long_break_duration: nat,
}

impl SettingsModel {
    /// Each length, counted in seconds, fits the timer's 32-bit fields.
    pub open spec fn storable(self) -> bool {
        &&& seconds_in(self.work_duration) <= u32::MAX
        &&& seconds_in(self.short_break_duration) <= u32::MAX
        &&& seconds_in(self.long_break_duration) <= u32::MAX
    }

    /// Every phase has a length.
    pub open spec fn positive(self) -> bool {
        &&& self.work_duration > 0
        &&& self.short_break_duration > 0
        &&& self.long_break_duration > 0
    }
}

/// What a `TickAction` stands for.
pub enum ActionModel {
    Idle,
    Emit(TickModel),
    PhaseEnd { ended: SessionType, payload: TickModel },
}

} // verus!
