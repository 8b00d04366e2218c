use pomodoro_timer::scheduler::notification_body;
use pomodoro_timer::scheduler::notification_title;
use pomodoro_timer::scheduler::tick;
use pomodoro_timer::scheduler::TickAction;
use pomodoro_timer::timer::pause_timer;
use pomodoro_timer::timer::reset_timer;
use pomodoro_timer::timer::start_timer;
use pomodoro_timer::timer::stop_timer;
use pomodoro_timer::timer::update_setting;
use pomodoro_timer::timer::PomodoroState;
use pomodoro_timer::timer::SessionType;
use pomodoro_timer::timer::SettingsPayload;
use pomodoro_timer::timer::TickPayload;
use pomodoro_timer::timer::TimerState;

fn running(session_type: SessionType, remaining: u32, completed: u32) -> PomodoroState {
    let mut timer = PomodoroState::new();
    timer.session_type = session_type;
    timer.remaining = remaining;
    timer.work_sessions_completed = completed;
    start_timer(&mut timer);
    timer
}

/// Starts the timer and steps it until the phase it is in has ended.
fn run_phase(timer: &mut PomodoroState) -> TickAction {
    start_timer(timer);
    let mut steps: u32 = 0;
    loop {
        let action = tick(timer);
        steps += 1;
        assert!(steps <= 2000);
        match action {
            TickAction::Emit(_) => {}
            other => return other,
        }
    }
}

#[test]
fn tick_counts_one_second() {
    let mut timer = running(SessionType::Work, 1500, 0);
    let action = tick(&mut timer);
    assert_eq!(timer.remaining, 1499);
    assert_eq!(timer.state, TimerState::Running);
    assert_eq!(timer.session_type, SessionType::Work);
    assert_eq!(
        action,
        TickAction::Emit(TickPayload { remaining: 1499, session_type: SessionType::Work })
    );
}

#[test]
fn tick_counts_the_last_second_without_ending_the_phase() {
    let mut timer = running(SessionType::ShortBreak, 1, 1);
    let action = tick(&mut timer);
    assert_eq!(timer.remaining, 0);
    assert_eq!(timer.state, TimerState::Running);
    assert_eq!(timer.session_type, SessionType::ShortBreak);
    assert_eq!(timer.work_sessions_completed, 1);
    assert_eq!(
        action,
        TickAction::Emit(TickPayload { remaining: 0, session_type: SessionType::ShortBreak })
    );
}

#[test]
fn tick_leaves_a_stopped_timer_alone() {
    let mut timer = PomodoroState::new();
    let action = tick(&mut timer);
    assert_eq!(action, TickAction::Idle);
    assert_eq!(timer.remaining, 1500);
    assert_eq!(timer.state, TimerState::Stopped);
}

#[test]
fn tick_leaves_a_stopped_timer_at_zero_alone() {
    let mut timer = running(SessionType::Work, 0, 0);
    stop_timer(&mut timer);
    let action = tick(&mut timer);
    assert_eq!(action, TickAction::Idle);
    assert_eq!(timer.remaining, 0);
    assert_eq!(timer.session_type, SessionType::Work);
    assert_eq!(timer.work_sessions_completed, 0);
}

#[test]
fn pause_then_ticks_change_nothing() {
    let mut timer = running(SessionType::Work, 900, 2);
    tick(&mut timer);
    pause_timer(&mut timer);
    for _ in 0..50 {
        assert_eq!(tick(&mut timer), TickAction::Idle);
    }
    assert_eq!(timer.remaining, 899);
    assert_eq!(timer.session_type, SessionType::Work);
    assert_eq!(timer.state, TimerState::Paused);
    assert_eq!(timer.work_sessions_completed, 2);
}

#[test]
fn first_work_phase_ends_in_a_short_break() {
    let mut timer = PomodoroState::new();
    start_timer(&mut timer);
    for second in 0..1500u32 {
        let action = tick(&mut timer);
        assert_eq!(
            action,
            TickAction::Emit(TickPayload {
                remaining: 1499 - second,
                session_type: SessionType::Work
            })
        );
    }
    assert_eq!(timer.remaining, 0);
    assert_eq!(timer.session_type, SessionType::Work);
    assert_eq!(timer.state, TimerState::Running);
    assert_eq!(timer.work_sessions_completed, 0);

    let action = tick(&mut timer);
    assert_eq!(
        action,
        TickAction::PhaseEnd {
            ended: SessionType::Work,
            payload: TickPayload { remaining: 300, session_type: SessionType::ShortBreak },
        }
    );
    assert_eq!(timer.session_type, SessionType::ShortBreak);
    assert_eq!(timer.remaining, 300);
    assert_eq!(timer.work_sessions_completed, 1);
    assert_eq!(timer.state, TimerState::Stopped);
}

#[test]
fn after_a_phase_end_the_next_phase_waits_for_start() {
    let mut timer = running(SessionType::Work, 0, 0);
    tick(&mut timer);
    assert_eq!(timer.state, TimerState::Stopped);
    for _ in 0..10 {
        assert_eq!(tick(&mut timer), TickAction::Idle);
    }
    assert_eq!(timer.remaining, 300);
    start_timer(&mut timer);
    assert_eq!(
        tick(&mut timer),
        TickAction::Emit(TickPayload { remaining: 299, session_type: SessionType::ShortBreak })
    );
}

#[test]
fn short_break_ends_in_work() {
    let mut timer = running(SessionType::ShortBreak, 0, 2);
    let action = tick(&mut timer);
    assert_eq!(
        action,
        TickAction::PhaseEnd {
            ended: SessionType::ShortBreak,
            payload: TickPayload { remaining: 1500, session_type: SessionType::Work },
        }
    );
    assert_eq!(timer.session_type, SessionType::Work);
    assert_eq!(timer.remaining, 1500);
    assert_eq!(timer.work_sessions_completed, 2);
    assert_eq!(timer.state, TimerState::Stopped);
}

#[test]
fn long_break_ends_in_work() {
    let mut timer = running(SessionType::LongBreak, 0, 0);
    let action = tick(&mut timer);
    assert_eq!(
        action,
        TickAction::PhaseEnd {
            ended: SessionType::LongBreak,
            payload: TickPayload { remaining: 1500, session_type: SessionType::Work },
        }
    );
    assert_eq!(timer.session_type, SessionType::Work);
    assert_eq!(timer.remaining, 1500);
    assert_eq!(timer.work_sessions_completed, 0);
    assert_eq!(timer.state, TimerState::Stopped);
}

#[test]
fn third_work_session_still_earns_a_short_break() {
    let mut timer = running(SessionType::Work, 0, 2);
    tick(&mut timer);
    assert_eq!(timer.session_type, SessionType::ShortBreak);
    assert_eq!(timer.remaining, 300);
    assert_eq!(timer.work_sessions_completed, 3);
}

#[test]
fn fourth_work_session_earns_a_long_break() {
    let mut timer = running(SessionType::Work, 0, 3);
    let action = tick(&mut timer);
    assert_eq!(
        action,
        TickAction::PhaseEnd {
            ended: SessionType::Work,
            payload: TickPayload { remaining: 900, session_type: SessionType::LongBreak },
        }
    );
    assert_eq!(timer.session_type, SessionType::LongBreak);
    assert_eq!(timer.remaining, 900);
    assert_eq!(timer.work_sessions_completed, 0);
    assert_eq!(timer.state, TimerState::Stopped);
}

#[test]
fn a_count_beyond_three_earns_a_long_break_too() {
    for completed in [4, 1000, u32::MAX] {
        let mut timer = running(SessionType::Work, 0, completed);
        tick(&mut timer);
        assert_eq!(timer.session_type, SessionType::LongBreak);
        assert_eq!(timer.remaining, 900);
        assert_eq!(timer.work_sessions_completed, 0);
    }
}

#[test]
fn four_work_phases_from_startup() {
    let mut timer = PomodoroState::new();
    let mut breaks = Vec::new();
    for _ in 0..4 {
        assert_eq!(timer.session_type, SessionType::Work);
        let ended = run_phase(&mut timer);
        assert!(matches!(ended, TickAction::PhaseEnd { ended: SessionType::Work, .. }));
        breaks.push((timer.session_type, timer.remaining, timer.work_sessions_completed));
        assert_eq!(timer.state, TimerState::Stopped);
        let ended = run_phase(&mut timer);
        assert!(matches!(
            ended,
            TickAction::PhaseEnd {
                ended: SessionType::ShortBreak | SessionType::LongBreak,
                payload: TickPayload { remaining: 1500, session_type: SessionType::Work },
            }
        ));
    }
    assert_eq!(
        breaks,
        vec![
            (SessionType::ShortBreak, 300, 1),
            (SessionType::ShortBreak, 300, 2),
            (SessionType::ShortBreak, 300, 3),
            (SessionType::LongBreak, 900, 0),
        ]
    );
    assert_eq!(timer.session_type, SessionType::Work);
    assert_eq!(timer.work_sessions_completed, 0);
}

#[test]
fn reset_does_not_clear_the_count() {
    let mut timer = PomodoroState::new();
    for _ in 0..3 {
        run_phase(&mut timer);
        run_phase(&mut timer);
    }
    assert_eq!(timer.work_sessions_completed, 3);
    start_timer(&mut timer);
    tick(&mut timer);
    reset_timer(&mut timer);
    assert_eq!(timer.work_sessions_completed, 3);
    run_phase(&mut timer);
    assert_eq!(timer.session_type, SessionType::LongBreak);
    assert_eq!(timer.work_sessions_completed, 0);
}

#[test]
fn phase_end_takes_the_updated_lengths() {
    let mut timer = running(SessionType::Work, 2, 0);
    let settings =
        SettingsPayload { work_duration: 50, short_break_duration: 10, long_break_duration: 30 };
    update_setting(settings, &mut timer);
    tick(&mut timer);
    tick(&mut timer);
    tick(&mut timer);
    assert_eq!(timer.session_type, SessionType::ShortBreak);
    assert_eq!(timer.remaining, 600);
    run_phase(&mut timer);
    assert_eq!(timer.session_type, SessionType::Work);
    assert_eq!(timer.remaining, 3000);
}

#[test]
fn a_phase_of_no_length_ends_at_the_first_step() {
    let mut timer = PomodoroState::new();
    let settings =
        SettingsPayload { work_duration: 25, short_break_duration: 0, long_break_duration: 15 };
    update_setting(settings, &mut timer);
    run_phase(&mut timer);
    assert_eq!(timer.session_type, SessionType::ShortBreak);
    assert_eq!(timer.remaining, 0);
    start_timer(&mut timer);
    let action = tick(&mut timer);
    assert_eq!(
        action,
        TickAction::PhaseEnd {
            ended: SessionType::ShortBreak,
            payload: TickPayload { remaining: 1500, session_type: SessionType::Work },
        }
    );
}

#[test]
fn the_step_that_changes_the_phase_stops_the_timer() {
    for session_type in [SessionType::Work, SessionType::ShortBreak, SessionType::LongBreak] {
        for completed in 0..4 {
            let mut timer = running(session_type, 0, completed);
            tick(&mut timer);
            assert_ne!(timer.session_type, session_type);
            assert_eq!(timer.state, TimerState::Stopped);
            let configured = match timer.session_type {
                SessionType::Work => timer.work_duration,
                SessionType::ShortBreak => timer.short_break_duration,
                SessionType::LongBreak => timer.long_break_duration,
            };
            assert_eq!(timer.remaining, configured);
        }
    }
}

#[test]
fn notification_titles_name_the_phase_that_ended() {
    assert_eq!(notification_title(SessionType::Work), "work ended");
    assert_eq!(notification_title(SessionType::ShortBreak), "short break ended");
    assert_eq!(notification_title(SessionType::LongBreak), "long break ended");
}

#[test]
fn notification_body_is_fixed() {
    assert_eq!(notification_body(), "可以开始下一阶段了。");
}
