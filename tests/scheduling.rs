use clicker::controller::Controller;
use clicker::task::{OutcomeEvent, PollAction, ScheduledTask, TaskPhase};
use clicker::text::append_clock_text;
use clicker::time::{target_instant, CalendarDate, LocalDateTime, TimeOfDay};

fn at(year: i32, month: u32, day: u32, hour: u32, minute: u32, second: u32, milli: u32) -> LocalDateTime {
    LocalDateTime {
        date: CalendarDate { year, month, day },
        time: TimeOfDay { hour, minute, second, milli },
    }
}

#[test]
fn time_of_day_accepts_the_edges_of_its_ranges() {
    assert_eq!(
        TimeOfDay::new(23, 59, 59, 999),
        Some(TimeOfDay { hour: 23, minute: 59, second: 59, milli: 999 })
    );
    assert!(TimeOfDay::new(0, 0, 0, 0).is_some());
    assert_eq!(TimeOfDay::new(24, 0, 0, 0), None);
    assert_eq!(TimeOfDay::new(0, 60, 0, 0), None);
    assert_eq!(TimeOfDay::new(0, 0, 60, 0), None);
    assert_eq!(TimeOfDay::new(0, 0, 0, 1000), None);
}

#[test]
fn target_keeps_the_date_of_today() {
    let today = at(2024, 3, 9, 17, 45, 12, 345);
    let target = target_instant(&today, 8, 5, 0, 7).unwrap();
    assert_eq!(target, at(2024, 3, 9, 8, 5, 0, 7));
    for hour in 0..24 {
        for minute in [0, 30, 59] {
            let t = target_instant(&today, hour, minute, 59, 999).unwrap();
            assert_eq!(t.date, today.date);
        }
    }
    assert_eq!(target_instant(&today, 24, 0, 0, 0), None);
    assert_eq!(target_instant(&today, 12, 0, 0, 1000), None);
}

#[test]
fn reaching_compares_date_before_time() {
    let target = at(2024, 3, 9, 12, 0, 0, 500);
    assert!(at(2024, 3, 9, 12, 0, 0, 500).has_reached(&target));
    assert!(!at(2024, 3, 9, 12, 0, 0, 499).has_reached(&target));
    assert!(at(2024, 3, 9, 12, 0, 1, 0).has_reached(&target));
    assert!(at(2024, 3, 10, 0, 0, 0, 0).has_reached(&target));
    assert!(!at(2024, 3, 8, 23, 59, 59, 999).has_reached(&target));
    assert!(at(2025, 1, 1, 0, 0, 0, 0).has_reached(&target));
    assert!(!at(2024, 2, 28, 13, 0, 0, 0).has_reached(&target));
}

#[test]
fn clock_text_pads_each_field() {
    let mut s = String::from("at ");
    append_clock_text(&mut s, &TimeOfDay { hour: 1, minute: 2, second: 3, milli: 4 });
    assert_eq!(s, "at 01:02:03.004");
    let mut s = String::new();
    append_clock_text(&mut s, &TimeOfDay { hour: 23, minute: 59, second: 59, milli: 999 });
    assert_eq!(s, "23:59:59.999");
}

#[test]
fn clock_now_is_a_valid_reading() {
    let now = LocalDateTime::now();
    assert!((1..=12).contains(&now.date.month));
    assert!((1..=31).contains(&now.date.day));
    assert!(now.date.year >= 2000);
    assert!(now.time.hour < 24 && now.time.minute < 60 && now.time.second < 60);
    assert!(now.time.milli < 1000);
    let later = LocalDateTime::now();
    assert!(later.has_reached(&now));
}

#[test]
fn past_target_acts_on_first_poll() {
    let launched = at(2024, 3, 9, 10, 0, 0, 0);
    let mut task = ScheduledTask::launch(&launched, 9, 59, 59, 999).unwrap();
    assert_eq!(task.phase(), TaskPhase::Waiting);
    assert_eq!(task.poll(&launched), PollAction::Act);
    assert_eq!(task.phase(), TaskPhase::Acting);
}

#[test]
fn one_action_however_many_polls() {
    let launched = at(2024, 3, 9, 10, 0, 0, 0);
    let mut task = ScheduledTask::launch(&launched, 10, 0, 1, 0).unwrap();
    let mut actions = 0;
    for ms in 0..3000u32 {
        let now = at(2024, 3, 9, 10, 0, ms / 1000, ms % 1000);
        match task.poll(&now) {
            PollAction::Act => actions += 1,
            PollAction::Wait => assert!(ms < 1000),
            PollAction::Idle => assert!(ms > 1000),
        }
    }
    assert_eq!(actions, 1);
    let event = task.finish(Ok(()), &at(2024, 3, 9, 10, 0, 3, 0));
    assert!(matches!(event, OutcomeEvent::Performed(_)));
    assert_eq!(task.poll(&at(2024, 3, 9, 10, 0, 4, 0)), PollAction::Idle);
}

#[test]
fn later_event_of_a_frame_is_shown() {
    let mut form = Controller::new(&at(2024, 3, 9, 10, 0, 0, 0));
    let a = OutcomeEvent::Scheduled(at(2024, 3, 9, 10, 0, 5, 0));
    let b = OutcomeEvent::Performed(at(2024, 3, 9, 10, 0, 5, 2));
    form.receive(vec![a, b]);
    assert_eq!(form.status_line(), "performed at 10:00:05.002");
    form.receive(vec![]);
    assert_eq!(form.status_line(), "performed at 10:00:05.002");
    form.receive(vec![OutcomeEvent::Failed(String::from("x"))]);
    assert_eq!(form.status_line(), "error: x");
}

#[test]
fn second_task_leaves_the_first_alone() {
    let launched = at(2024, 3, 9, 10, 0, 0, 0);
    let form = Controller::new(&launched);
    let mut first = ScheduledTask::launch(&launched, 10, 0, 2, 0).unwrap();
    assert_eq!(first.poll(&at(2024, 3, 9, 10, 0, 1, 0)), PollAction::Wait);
    let mut second = form.confirm(&at(2024, 3, 9, 10, 0, 1, 0));
    assert_eq!(second.target(), at(2024, 3, 9, 10, 0, 0, 0));
    assert_eq!(first.target(), at(2024, 3, 9, 10, 0, 2, 0));
    assert_eq!(second.poll(&at(2024, 3, 9, 10, 0, 1, 1)), PollAction::Act);
    assert_eq!(first.poll(&at(2024, 3, 9, 10, 0, 1, 2)), PollAction::Wait);
    assert_eq!(first.poll(&at(2024, 3, 9, 10, 0, 2, 0)), PollAction::Act);
    assert!(matches!(first.finish(Ok(()), &at(2024, 3, 9, 10, 0, 2, 1)), OutcomeEvent::Performed(_)));
    assert!(matches!(second.finish(Ok(()), &at(2024, 3, 9, 10, 0, 2, 1)), OutcomeEvent::Performed(_)));
}

#[test]
fn scheduled_click_two_seconds_ahead_is_performed() {
    let start = at(2024, 3, 9, 10, 20, 30, 0);
    let mut form = Controller::new(&start);
    assert_eq!(form.fields(), TimeOfDay { hour: 10, minute: 20, second: 30, milli: 0 });
    assert_eq!(form.status_line(), "not yet performed");
    form.set_fields(10, 20, 32, 0);
    let mut task = form.confirm(&start);
    form.receive(vec![task.scheduled_event()]);
    assert_eq!(form.status_line(), "scheduled for 10:20:32.000");
    assert_eq!(task.poll(&at(2024, 3, 9, 10, 20, 31, 999)), PollAction::Wait);
    assert_eq!(task.poll(&at(2024, 3, 9, 10, 20, 32, 0)), PollAction::Act);
    let done = at(2024, 3, 9, 10, 20, 32, 1);
    let event = task.finish(Ok(()), &done);
    form.receive(vec![event]);
    assert_eq!(form.status_line(), "performed at 10:20:32.001");
    match form.outcome() {
        OutcomeEvent::Performed(when) => assert!(when.has_reached(&task.target())),
        other => panic!("unexpected outcome {:?}", other),
    }
}

#[test]
fn failed_action_shows_the_error() {
    let start = at(2024, 3, 9, 10, 20, 30, 0);
    let mut form = Controller::new(&start);
    let mut task = form.confirm(&start);
    assert_eq!(task.poll(&start), PollAction::Act);
    let event = task.finish(Err(String::from("no input device")), &start);
    form.receive(vec![event]);
    assert_eq!(form.status_line(), "error: no input device");
    for ms in 1..100u32 {
        assert_eq!(task.poll(&at(2024, 3, 9, 10, 20, 30, ms)), PollAction::Idle);
    }
    assert_eq!(task.phase(), TaskPhase::Finished);
    assert_eq!(form.status_line(), "error: no input device");
}

#[test]
fn fields_are_held_to_their_ranges() {
    let mut form = Controller::new(&at(2024, 3, 9, 23, 59, 59, 999));
    assert_eq!(form.fields(), TimeOfDay { hour: 23, minute: 59, second: 59, milli: 0 });
    form.set_fields(40, 70, 99, 5000);
    assert_eq!(form.fields(), TimeOfDay { hour: 23, minute: 59, second: 59, milli: 999 });
    form.set_fields(7, 8, 9, 10);
    assert_eq!(form.fields(), TimeOfDay { hour: 7, minute: 8, second: 9, milli: 10 });
}
