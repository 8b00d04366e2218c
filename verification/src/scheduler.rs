//! The step that the scheduler takes each time it wakes, once a second, and
//! what it tells the outside world about it.
//!
//! The step alone moves the countdown and changes the phase. Whoever drives it
//! holds the timer exclusively for the length of one call, carries out the
//! returned action after letting go of the timer, and then sleeps.

use crate::model::ActionModel;
use crate::model::SESSIONS_PER_LONG_BREAK;
use crate::timer::PomodoroState;
use crate::timer::SessionType;
use crate::timer::TickPayload;
use crate::timer::TimerState;
use vstd::prelude::*;

verus! {

/// What the scheduler owes the outside world after a step.
#[derive(Debug, Clone, Copy, PartialEq, Eq, Structural)]
pub enum TickAction {
    /// The timer is not running: nothing to send.
    Idle,
    /// A second was counted: send the payload.
    Emit(TickPayload),
    /// The phase `ended` is over: notify the user of it and send the payload,
    /// which is that of the phase that follows.
    PhaseEnd { ended: SessionType, payload: TickPayload },
}

impl View for TickAction {
    type V = ActionModel;

    open spec fn view(&self) -> ActionModel {
        match *self {
            TickAction::Idle => ActionModel::Idle,
            TickAction::Emit(payload) => ActionModel::Emit(payload@),
            TickAction::PhaseEnd { ended, payload } => ActionModel::PhaseEnd {
                ended,
                payload: payload@,
            },
        }
    }
}

/// One step of the scheduler. A timer that is not running is left alone. A
/// running one counts a second down; at zero the phase is over instead: the
/// timer stops at the head of the next phase and waits for a start command.
pub fn tick(state: &mut PomodoroState) -> (action: TickAction)
    ensures
        final(state)@ == old(state)@.ticked(),
        action@ == old(state)@.tick_action(),
{
    if state.state != TimerState::Running {
        return TickAction::Idle;
    }
    if state.remaining > 0 {
        state.remaining = state.remaining - 1;
        return TickAction::Emit(state.payload());
    }
    state.state = TimerState::Stopped;
    let ended = state.session_type;
    match ended {
        SessionType::Work => {
            if state.work_sessions_completed >= SESSIONS_PER_LONG_BREAK - 1 {
                state.session_type = SessionType::LongBreak;
                state.remaining = state.long_break_duration;
                state.work_sessions_completed = 0;
            } else {
                state.work_sessions_completed = state.work_sessions_completed + 1;
                state.session_type = SessionType::ShortBreak;
                state.remaining = state.short_break_duration;
            }
        },
        SessionType::ShortBreak | SessionType::LongBreak => {
            state.session_type = SessionType::Work;
            state.remaining = state.work_duration;
        },
    }
    TickAction::PhaseEnd { ended, payload: state.payload() }
}

/// The title of the notification that tells the user that a phase is over.
pub open spec fn title_of(ended: SessionType) -> Seq<char> {
    match ended {
        SessionType::Work => "work ended"@,
        SessionType::ShortBreak => "short break ended"@,
        SessionType::LongBreak => "long break ended"@,
    }
}

/// The title of the notification for the end of the phase `ended`.
pub fn notification_title(ended: SessionType) -> (title: &'static str)
    ensures
        title@ == title_of(ended),
{
    match ended {
        SessionType::Work => "work ended",
        SessionType::ShortBreak => "short break ended",
        SessionType::LongBreak => "long break ended",
    }
}

/// The text under the title, the same after every phase.
pub fn notification_body() -> (body: &'static str)
    ensures
        body@ == "可以开始下一阶段了。"@,
{
    "可以开始下一阶段了。"
}

} // verus!
