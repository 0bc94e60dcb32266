//! A scheduled click task: from its launch to its single pointer action.
//!
//! The task is driven from outside. Its runner reads the wall clock and
//! hands each reading to [`ScheduledTask::poll`], busy-polling with no sleep
//! in between; on the first reading at or after the target the task asks
//! for the pointer action, and the runner reports its result back through
//! [`ScheduledTask::finish`]. A task announces its target once, as a
//! `Scheduled` event, before polling starts.
use crate::time::{target_instant, time_in_range, LocalDateTime, TimeOfDay};
use vstd::prelude::*;

verus! {

/// What a task reports to the form.
#[derive(Debug)]
pub enum OutcomeEvent {
    /// No task has reported yet.
    NotYetPerformed,
    /// A task was launched for this instant.
    Scheduled(LocalDateTime),
    /// The pointer action was performed at this instant.
    Performed(LocalDateTime),
    /// The pointer action failed with this message.
    Failed(String),
}

/// Where a task stands.
#[derive(Clone, Copy, Debug, PartialEq, Eq, Structural)]
pub enum TaskPhase {
    /// Polling the clock until the target is reached.
    Waiting,
    /// The pointer action was requested and its result is awaited.
    Acting,
    /// The result was reported; the task does nothing more.
    Finished,
}

/// What the runner of a task does after a poll.
#[derive(Clone, Copy, Debug, PartialEq, Eq, Structural)]
pub enum PollAction {
    /// Read the clock again and poll once more.
    Wait,
    /// Perform the pointer action now, once, and report its result.
    Act,
    /// Nothing is left to do.
    Idle,
}

/// One scheduled click. Its target is fixed at launch.
#[derive(Clone, Copy, Debug)]
pub struct ScheduledTask {
    target: LocalDateTime,
    phase: TaskPhase,
}

/// The phase and action that follow a poll in `phase` for `target` at
/// clock reading `now`.
pub open spec fn poll_step(phase: TaskPhase, target: LocalDateTime, now: LocalDateTime) -> (
    TaskPhase,
    PollAction,
) {
    match phase {
        TaskPhase::Waiting => if target.no_later_than(now) {
            (TaskPhase::Acting, PollAction::Act)
        } else {
            (TaskPhase::Waiting, PollAction::Wait)
        },
        _ => (phase, PollAction::Idle),
    }
}

impl ScheduledTask {
    pub closed spec fn spec_target(self) -> LocalDateTime {
        self.target
    }

    pub closed spec fn spec_phase(self) -> TaskPhase {
        self.phase
    }

    /// Launches a task for the given time of day on the date of `now`, the
    /// clock reading at launch. `None` when a field is out of range.
    pub fn launch(now: &LocalDateTime, hour: u32, minute: u32, second: u32, milli: u32) -> (r:
        Option<ScheduledTask>)
        ensures
            r is Some <==> time_in_range(hour, minute, second, milli),
            r matches Some(task) ==> task.spec_phase() == TaskPhase::Waiting
                && task.spec_target().date == now.date && task.spec_target().time == (TimeOfDay {
                hour,
                minute,
                second,
                milli,
            }),
    {
        match target_instant(now, hour, minute, second, milli) {
            Some(target) => Some(ScheduledTask { target, phase: TaskPhase::Waiting }),
            None => None,
        }
    }

    /// Launches a task for the time of day `time` on the date of `now`, the
    /// clock reading at launch.
    pub fn launch_at(now: &LocalDateTime, time: TimeOfDay) -> (r: ScheduledTask)
        requires
            time.wf(),
        ensures
            r.spec_phase() == TaskPhase::Waiting,
            r.spec_target() == (LocalDateTime { date: now.date, time }),
    {
        ScheduledTask { target: LocalDateTime { date: now.date, time }, phase: TaskPhase::Waiting }
    }

    /// The instant the task waits for.
    pub fn target(&self) -> (r: LocalDateTime)
        ensures
            r == self.spec_target(),
    {
        self.target
    }

    /// Where the task stands.
    pub fn phase(&self) -> (r: TaskPhase)
        ensures
            r == self.spec_phase(),
    {
        self.phase
    }

    /// The event that announces the task's target.
    pub fn scheduled_event(&self) -> (r: OutcomeEvent)
        ensures
            r == OutcomeEvent::Scheduled(self.spec_target()),
    {
        OutcomeEvent::Scheduled(self.target)
    }

    /// One poll at clock reading `now`. A waiting task whose target is
    /// reached asks for the pointer action; any other poll changes nothing.
    pub fn poll(&mut self, now: &LocalDateTime) -> (r: PollAction)
        ensures
            final(self).spec_target() == old(self).spec_target(),
            (final(self).spec_phase(), r) == poll_step(old(self).spec_phase(), old(self).spec_target(), *now),
    {
        match self.phase {
            TaskPhase::Waiting => if now.has_reached(&self.target) {
                self.phase = TaskPhase::Acting;
                PollAction::Act
            } else {
                PollAction::Wait
            },
            _ => PollAction::Idle,
        }
    }

    /// Takes the result of the pointer action, performed or failed with a
    /// message, and the clock reading after it; returns the event to report.
    pub fn finish(&mut self, result: Result<(), String>, now: &LocalDateTime) -> (r: OutcomeEvent)
        requires
            old(self).spec_phase() == TaskPhase::Acting,
        ensures
            final(self).spec_target() == old(self).spec_target(),
            final(self).spec_phase() == TaskPhase::Finished,
            r == match result {
                Ok(()) => OutcomeEvent::Performed(*now),
                Err(message) => OutcomeEvent::Failed(message),
            },
    {
        self.phase = TaskPhase::Finished;
        match result {
            Ok(()) => OutcomeEvent::Performed(*now),
            Err(message) => OutcomeEvent::Failed(message),
        }
    }
}

/// The phase reached and the number of pointer actions asked for when a
/// task in `phase` for `target` is polled at each reading of `readings` in
/// turn.
pub open spec fn run_polls(phase: TaskPhase, target: LocalDateTime, readings: Seq<LocalDateTime>) -> (
    TaskPhase,
    nat,
)
    decreases readings.len(),
{
    if readings.len() == 0 {
        (phase, 0)
    } else {
        let (next, action) = poll_step(phase, target, readings[0]);
        let (last, count) = run_polls(next, target, readings.drop_first());
        (last, count + if action == PollAction::Act {
            1nat
        } else {
            0nat
        })
    }
}

/// Some reading of `readings` has reached `target`.
pub open spec fn reached_in(target: LocalDateTime, readings: Seq<LocalDateTime>) -> bool {
    exists|i: int| 0 <= i < readings.len() && target.no_later_than(#[trigger] readings[i])
}

/// A task that has left the waiting phase asks for no further action,
/// however often it is polled.
pub proof fn lemma_no_action_after_waiting(
    phase: TaskPhase,
    target: LocalDateTime,
    readings: Seq<LocalDateTime>,
)
    requires
        phase != TaskPhase::Waiting,
    ensures
        run_polls(phase, target, readings) == (phase, 0nat),
    decreases readings.len(),
{
    if readings.len() > 0 {
        lemma_no_action_after_waiting(phase, target, readings.drop_first());
    }
}

/// A waiting task asks for exactly one pointer action over any run of
/// polls in which the clock reaches its target, and for none otherwise,
/// however many polls the run holds.
pub proof fn lemma_one_action_per_task(target: LocalDateTime, readings: Seq<LocalDateTime>)
    ensures
        run_polls(TaskPhase::Waiting, target, readings) == if reached_in(target, readings) {
            (TaskPhase::Acting, 1nat)
        } else {
            (TaskPhase::Waiting, 0nat)
        },
    decreases readings.len(),
{
    if readings.len() > 0 {
        let rest = readings.drop_first();
        if target.no_later_than(readings[0]) {
            lemma_no_action_after_waiting(TaskPhase::Acting, target, rest);
        } else {
            lemma_one_action_per_task(target, rest);
            if reached_in(target, readings) {
                let i = choose|i: int| 0 <= i < readings.len() && target.no_later_than(#[trigger] readings[i]);
                assert(rest[i - 1] == readings[i]);
            }
            if reached_in(target, rest) {
                let j = choose|j: int| 0 <= j < rest.len() && target.no_later_than(#[trigger] rest[j]);
                assert(readings[j + 1] == rest[j]);
            }
        }
    }
}

/// The wall-clock order is transitive.
pub proof fn lemma_no_later_than_transitive(a: LocalDateTime, b: LocalDateTime, c: LocalDateTime)
    requires
        a.no_later_than(b),
        b.no_later_than(c),
    ensures
        a.no_later_than(c),
{
}

/// A task launched for a target that the clock has already passed asks
/// for its action on its first poll, provided the clock has not run
/// backwards since launch.
pub proof fn lemma_past_target_acts_on_first_poll(
    launched: LocalDateTime,
    hour: u32,
    minute: u32,
    second: u32,
    milli: u32,
    first_poll: LocalDateTime,
)
    requires
        time_in_range(hour, minute, second, milli),
        (LocalDateTime { date: launched.date, time: TimeOfDay { hour, minute, second, milli } }).no_later_than(launched),
        launched.no_later_than(first_poll),
    ensures
        poll_step(
            TaskPhase::Waiting,
            LocalDateTime { date: launched.date, time: TimeOfDay { hour, minute, second, milli } },
            first_poll,
        ) == (TaskPhase::Acting, PollAction::Act),
{
    let target = LocalDateTime { date: launched.date, time: TimeOfDay { hour, minute, second, milli } };
    lemma_no_later_than_transitive(target, launched, first_poll);
}

/// The readings of an interleaved run of polls that go to the first task
/// (`true`) or to the second (`false`), in order.
pub open spec fn readings_of(steps: Seq<(bool, LocalDateTime)>, first: bool) -> Seq<LocalDateTime>
    decreases steps.len(),
{
    if steps.len() == 0 {
        Seq::empty()
    } else {
        let rest = readings_of(steps.drop_first(), first);
        if steps[0].0 == first {
            seq![steps[0].1] + rest
        } else {
            rest
        }
    }
}

/// Two tasks, in `first` and `second` with targets `first_target` and
/// `second_target`, polled in turn, each step naming the task it polls
/// (`true` for the first) and the clock reading: the phase each reaches and
/// the number of pointer actions each asks for.
pub open spec fn run_pair(
    first: TaskPhase,
    first_target: LocalDateTime,
    second: TaskPhase,
    second_target: LocalDateTime,
    steps: Seq<(bool, LocalDateTime)>,
) -> ((TaskPhase, nat), (TaskPhase, nat))
    decreases steps.len(),
{
    if steps.len() == 0 {
        ((first, 0nat), (second, 0nat))
    } else {
        let (to_first, now) = steps[0];
        let rest = steps.drop_first();
        if to_first {
            let (phase, action) = poll_step(first, first_target, now);
            let (a, b) = run_pair(phase, first_target, second, second_target, rest);
            ((a.0, a.1 + if action == PollAction::Act { 1nat } else { 0nat }), b)
        } else {
            let (phase, action) = poll_step(second, second_target, now);
            let (a, b) = run_pair(first, first_target, phase, second_target, rest);
            (a, (b.0, b.1 + if action == PollAction::Act { 1nat } else { 0nat }))
        }
    }
}

/// A second task launched while a first one is polling leaves the first
/// alone: however the polls of the two interleave, each task goes exactly
/// as it would if it were polled alone on its own readings.
pub proof fn lemma_interleaved_tasks_independent(
    first: TaskPhase,
    first_target: LocalDateTime,
    second: TaskPhase,
    second_target: LocalDateTime,
    steps: Seq<(bool, LocalDateTime)>,
)
    ensures
        run_pair(first, first_target, second, second_target, steps) == (
            run_polls(first, first_target, readings_of(steps, true)),
            run_polls(second, second_target, readings_of(steps, false)),
        ),
    decreases steps.len(),
{
    if steps.len() > 0 {
        let (to_first, now) = steps[0];
        let rest = steps.drop_first();
        if to_first {
            let (phase, _) = poll_step(first, first_target, now);
            lemma_interleaved_tasks_independent(phase, first_target, second, second_target, rest);
            let r = readings_of(steps, true);
            assert(r[0] == now);
            assert(r.drop_first() =~= readings_of(rest, true));
        } else {
            let (phase, _) = poll_step(second, second_target, now);
            lemma_interleaved_tasks_independent(first, first_target, phase, second_target, rest);
            let r = readings_of(steps, false);
            assert(r[0] == now);
            assert(r.drop_first() =~= readings_of(rest, false));
        }
    }
}

/// Two waiting tasks polled in any interleaving both complete: each asks
/// for exactly one pointer action once the clock reaches its own target.
pub proof fn lemma_tasks_run_independently(
    first: ScheduledTask,
    second: ScheduledTask,
    steps: Seq<(bool, LocalDateTime)>,
)
    requires
        first.spec_phase() == TaskPhase::Waiting,
        second.spec_phase() == TaskPhase::Waiting,
        reached_in(first.spec_target(), readings_of(steps, true)),
        reached_in(second.spec_target(), readings_of(steps, false)),
    ensures
        run_pair(first.spec_phase(), first.spec_target(), second.spec_phase(), second.spec_target(), steps)
            == ((TaskPhase::Acting, 1nat), (TaskPhase::Acting, 1nat)),
{
    lemma_interleaved_tasks_independent(
        first.spec_phase(),
        first.spec_target(),
        second.spec_phase(),
        second.spec_target(),
        steps,
    );
    lemma_one_action_per_task(first.spec_target(), readings_of(steps, true));
    lemma_one_action_per_task(second.spec_target(), readings_of(steps, false));
}

} // verus!
