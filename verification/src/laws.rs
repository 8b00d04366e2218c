//! What holds of the timer whatever is done to it: the events that act on it,
//! a run of them, and the facts that every run keeps.

use crate::model::seconds_in;
use crate::model::whole_minutes_in;
use crate::model::SettingsModel;
use crate::model::TimerModel;
use crate::timer::SessionType;
use crate::timer::TimerState;
use vstd::prelude::*;

verus! {

/// All that can act on the timer: the six commands and the scheduler's step.
pub enum TimerEvent {
    Start,
    Pause,
    Stop,
    Reset,
    GetSetting,
    UpdateSetting(SettingsModel),
    Tick,
}

/// The timer after one event.
pub open spec fn apply(m: TimerModel, event: TimerEvent) -> TimerModel {
    match event {
        TimerEvent::Start => m.started(),
        TimerEvent::Pause => m.paused(),
        TimerEvent::Stop => m.stopped(),
        TimerEvent::Reset => m.reset(),
        TimerEvent::GetSetting => m,
        TimerEvent::UpdateSetting(minutes) => m.with_settings(minutes),
        TimerEvent::Tick => m.ticked(),
    }
}

/// The timer after a run of events, the first of them first.
pub open spec fn run(m: TimerModel, events: Seq<TimerEvent>) -> TimerModel
    decreases events.len(),
{
    if events.len() == 0 {
        m
    } else {
        apply(run(m, events.drop_last()), events.last())
    }
}

/// The timer after `n` steps of the scheduler and nothing else.
pub open spec fn ticks(m: TimerModel, n: nat) -> TimerModel
    decreases n,
{
    if n == 0 {
        m
    } else {
        ticks(m, (n - 1) as nat).ticked()
    }
}

/// The event begins a phase anew: a reset, or the step that ends a phase.
pub open spec fn begins_phase(m: TimerModel, event: TimerEvent) -> bool {
    event is Reset || (event is Tick && m.at_phase_end())
}

/// The event brings positive lengths where it brings lengths at all.
pub open spec fn keeps_lengths_positive(event: TimerEvent) -> bool {
    event matches TimerEvent::UpdateSetting(minutes) ==> minutes.positive()
}

/// Right after a reset or the end of a phase, whatever came before, exactly
/// the configured length of the phase is left, so never more than it.
pub proof fn lemma_fresh_phase_is_full(m: TimerModel, event: TimerEvent)
    requires
        begins_phase(m, event),
    ensures
        apply(m, event).remaining == apply(m, event).phase_duration(),
        apply(m, event).within_phase(),
        apply(m, event).state == TimerState::Stopped,
{
}

/// After any run of events that ends in a reset or in the end of a phase,
/// no more is left than the configured length of the phase.
pub proof fn lemma_run_into_fresh_phase(m: TimerModel, events: Seq<TimerEvent>)
    requires
        events.len() > 0,
        begins_phase(run(m, events.drop_last()), events.last()),
    ensures
        run(m, events).within_phase(),
{
    lemma_fresh_phase_is_full(run(m, events.drop_last()), events.last());
}

/// No event but a settings update lets more be left than the phase is long.
pub proof fn lemma_event_keeps_within_phase(m: TimerModel, event: TimerEvent)
    requires
        m.within_phase(),
        !(event is UpdateSetting),
    ensures
        apply(m, event).within_phase(),
{
}

/// As long as the settings are not touched, no run of events lets more be
/// left than the phase is long.
pub proof fn lemma_run_keeps_within_phase(m: TimerModel, events: Seq<TimerEvent>)
    requires
        m.within_phase(),
        forall|i: int| 0 <= i < events.len() ==> !(#[trigger] events[i] is UpdateSetting),
    ensures
        run(m, events).within_phase(),
    decreases events.len(),
{
    if events.len() > 0 {
        lemma_run_keeps_within_phase(m, events.drop_last());
        lemma_event_keeps_within_phase(run(m, events.drop_last()), events.last());
    }
}

/// The timer at startup is well formed and has a full work phase ahead.
pub proof fn lemma_initial_is_well_formed()
    ensures
        TimerModel::initial().wf(),
        TimerModel::initial().within_phase(),
        !TimerModel::initial().at_phase_end(),
{
}

/// An event keeps the timer well formed, given that a settings update
/// brings no length of zero.
pub proof fn lemma_event_keeps_wf(m: TimerModel, event: TimerEvent)
    requires
        m.wf(),
        keeps_lengths_positive(event),
    ensures
        apply(m, event).wf(),
{
    if let TimerEvent::UpdateSetting(minutes) = event {
        assert(seconds_in(minutes.work_duration) > 0);
        assert(seconds_in(minutes.short_break_duration) > 0);
        assert(seconds_in(minutes.long_break_duration) > 0);
    }
}

/// Every run of events keeps the timer well formed, given that no settings
/// update in it brings a length of zero: the count of completed work
/// sessions never reaches four.
pub proof fn lemma_run_keeps_wf(m: TimerModel, events: Seq<TimerEvent>)
    requires
        m.wf(),
        forall|i: int| 0 <= i < events.len() ==> keeps_lengths_positive(#[trigger] events[i]),
    ensures
        run(m, events).wf(),
    decreases events.len(),
{
    if events.len() > 0 {
        lemma_run_keeps_wf(m, events.drop_last());
        lemma_event_keeps_wf(run(m, events.drop_last()), events.last());
    }
}

/// The phase changes only by the scheduler's step, and only when that step
/// finds the countdown running and at zero; the timer is then stopped.
pub proof fn lemma_phase_changes_only_at_phase_end(m: TimerModel, event: TimerEvent)
    requires
        apply(m, event).session_type != m.session_type,
    ensures
        event is Tick,
        m.at_phase_end(),
        apply(m, event).state == TimerState::Stopped,
{
}

/// The step that ends a phase always changes the phase and always stops
/// the timer, in one and the same step.
pub proof fn lemma_phase_end_stops_timer(m: TimerModel)
    requires
        m.at_phase_end(),
    ensures
        m.ticked().state == TimerState::Stopped,
        m.ticked().session_type != m.session_type,
        m.ticked() == m.phase_ended(),
{
}

/// A timer is running on zero after an event in three cases only: it was
/// started with nothing left, the scheduler counted its last second, or it
/// was running on zero before and the event moves no countdown.
pub proof fn lemma_running_on_zero(m: TimerModel, event: TimerEvent)
    ensures
        apply(m, event).at_phase_end() <==> {
            ||| event is Start && m.remaining == 0
            ||| event is Tick && m.state == TimerState::Running && m.remaining == 1
            ||| (event is UpdateSetting || event is GetSetting) && m.at_phase_end()
        },
{
}

/// The count of completed work sessions is cleared exactly when a long break
/// begins: no event changes it to zero but the step that ends a work phase
/// into a long break, and that step always leaves it at zero.
pub proof fn lemma_count_cleared_by_long_break(m: TimerModel, event: TimerEvent)
    ensures
        (event is Tick && m.at_phase_end() && apply(m, event).session_type
            == SessionType::LongBreak) ==> apply(m, event).work_sessions_completed == 0,
        (apply(m, event).work_sessions_completed == 0 && m.work_sessions_completed != 0) ==> (
        event is Tick && m.at_phase_end() && apply(m, event).session_type
            == SessionType::LongBreak),
{
}

/// No command changes the count of completed work sessions or the phase:
/// only the scheduler's step does.
pub proof fn lemma_commands_keep_phase_and_count(m: TimerModel, event: TimerEvent)
    requires
        !(event is Tick),
    ensures
        apply(m, event).session_type == m.session_type,
        apply(m, event).work_sessions_completed == m.work_sessions_completed,
{
}

/// A running timer with at least `n` seconds left has `n` seconds less after
/// `n` steps, and nothing else has changed.
pub proof fn lemma_countdown(m: TimerModel, n: nat)
    requires
        m.state == TimerState::Running,
        n <= m.remaining,
    ensures
        ticks(m, n) == (TimerModel { remaining: (m.remaining - n) as nat, ..m }),
    decreases n,
{
    if n > 0 {
        lemma_countdown(m, (n - 1) as nat);
    }
}

/// A running timer counts its phase down to zero in as many steps as seconds
/// are left, and the step after that ends the phase.
pub proof fn lemma_phase_runs_out(m: TimerModel)
    requires
        m.state == TimerState::Running,
    ensures
        ticks(m, m.remaining) == (TimerModel { remaining: 0, ..m }),
        ticks(m, m.remaining + 1) == (TimerModel { remaining: 0, ..m }).phase_ended(),
{
    lemma_countdown(m, m.remaining);
    assert(ticks(m, m.remaining + 1) == ticks(m, m.remaining).ticked());
}

/// From startup, a start command and 1501 steps of the scheduler end the
/// first work phase: a short break of 300 seconds waits, stopped, and one
/// work session is counted. After 1500 steps the work phase is still on,
/// with nothing left.
pub proof fn lemma_first_work_phase()
    ensures
        ticks(TimerModel::initial().started(), 1500) == (TimerModel {
            state: TimerState::Running,
            remaining: 0,
            ..TimerModel::initial()
        }),
        ticks(TimerModel::initial().started(), 1501) == (TimerModel {
            session_type: SessionType::ShortBreak,
            remaining: 300,
            work_sessions_completed: 1,
            ..TimerModel::initial()
        }),
{
    lemma_phase_runs_out(TimerModel::initial().started());
}

/// A work phase ends in a short break and is counted while fewer than three
/// work sessions were completed before it; the one after that ends in a long
/// break, and the count starts again at zero.
pub proof fn lemma_work_phase_end(m: TimerModel)
    requires
        m.session_type == SessionType::Work,
    ensures
        m.work_sessions_completed < 3 ==> m.phase_ended().session_type == SessionType::ShortBreak
            && m.phase_ended().remaining == m.short_break_duration
            && m.phase_ended().work_sessions_completed == m.work_sessions_completed + 1,
        m.work_sessions_completed >= 3 ==> m.phase_ended().session_type == SessionType::LongBreak
            && m.phase_ended().remaining == m.long_break_duration
            && m.phase_ended().work_sessions_completed == 0,
{
}

/// Either break ends in a work phase, and the count of completed work
/// sessions stays.
pub proof fn lemma_break_phase_end(m: TimerModel)
    requires
        m.session_type != SessionType::Work,
    ensures
        m.phase_ended().session_type == SessionType::Work,
        m.phase_ended().remaining == m.work_duration,
        m.phase_ended().work_sessions_completed == m.work_sessions_completed,
{
}

/// With no work session counted yet, the first three work phases each end
/// in a short break, and the fourth ends in a long break with the count
/// back at zero.
pub proof fn lemma_fourth_work_session_earns_long_break(m: TimerModel)
    requires
        m.session_type == SessionType::Work,
        m.work_sessions_completed == 0,
    ensures
        ({
            let first_break = m.phase_ended();
            let second_break = first_break.phase_ended().phase_ended();
            let third_break = second_break.phase_ended().phase_ended();
            let fourth_break = third_break.phase_ended().phase_ended();
            &&& first_break.session_type == SessionType::ShortBreak
            &&& first_break.work_sessions_completed == 1
            &&& second_break.session_type == SessionType::ShortBreak
            &&& second_break.work_sessions_completed == 2
            &&& third_break.session_type == SessionType::ShortBreak
            &&& third_break.work_sessions_completed == 3
            &&& fourth_break.session_type == SessionType::LongBreak
            &&& fourth_break.work_sessions_completed == 0
            &&& fourth_break.remaining == m.long_break_duration
        }),
{
}

/// A reset takes the timer to the head of the phase it is in, whichever that
/// is, and changes neither the phase nor the count nor the settings.
pub proof fn lemma_reset_keeps_phase(m: TimerModel)
    ensures
        m.reset().session_type == m.session_type,
        m.reset().remaining == m.duration_of(m.session_type),
        m.reset().state == TimerState::Stopped,
        m.reset().work_sessions_completed == m.work_sessions_completed,
        m.reset().settings() == m.settings(),
{
}

/// A timer that is not running is the same after any number of steps of the
/// scheduler.
pub proof fn lemma_idle_timer_ignores_ticks(m: TimerModel, n: nat)
    requires
        m.state != TimerState::Running,
    ensures
        ticks(m, n) == m,
    decreases n,
{
    if n > 0 {
        lemma_idle_timer_ignores_ticks(m, (n - 1) as nat);
    }
}

/// After a pause, any number of steps of the scheduler leaves what is left,
/// the phase and all the rest as the pause left them.
pub proof fn lemma_pause_freezes(m: TimerModel, n: nat)
    ensures
        ticks(m.paused(), n) == m.paused(),
        ticks(m.paused(), n).remaining == m.remaining,
        ticks(m.paused(), n).session_type == m.session_type,
{
    lemma_idle_timer_ignores_ticks(m.paused(), n);
}

/// After a stop, any number of steps of the scheduler leaves the timer as
/// the stop left it.
pub proof fn lemma_stop_freezes(m: TimerModel, n: nat)
    ensures
        ticks(m.stopped(), n) == m.stopped(),
{
    lemma_idle_timer_ignores_ticks(m.stopped(), n);
}

/// Starting a running timer changes nothing.
pub proof fn lemma_start_is_idempotent(m: TimerModel)
    ensures
        m.started().started() == m.started(),
        m.state == TimerState::Running ==> m.started() == m,
{
}

/// Minutes stored as seconds read back as the same minutes.
pub proof fn lemma_minutes_round_trip(minutes: nat)
    ensures
        whole_minutes_in(seconds_in(minutes)) == minutes,
{
}

/// The settings read after an update are the settings that the update
/// brought, whatever the timer was before.
pub proof fn lemma_settings_round_trip(m: TimerModel, minutes: SettingsModel)
    ensures
        m.with_settings(minutes).settings() == minutes,
{
    lemma_minutes_round_trip(minutes.work_duration);
    lemma_minutes_round_trip(minutes.short_break_duration);
    lemma_minutes_round_trip(minutes.long_break_duration);
}

/// A settings update changes the three lengths and nothing else: what is
/// left of the current phase may then be more than the phase is long.
pub proof fn lemma_update_keeps_countdown(m: TimerModel, minutes: SettingsModel)
    ensures
        m.with_settings(minutes).remaining == m.remaining,
        m.with_settings(minutes).state == m.state,
        m.with_settings(minutes).session_type == m.session_type,
        m.with_settings(minutes).work_sessions_completed == m.work_sessions_completed,
{
}

} // verus!
