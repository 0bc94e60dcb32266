//! The form: four bounded fields, the latest reported outcome, and the
//! status line that shows it.
use crate::task::{OutcomeEvent, ScheduledTask, TaskPhase};
use crate::text::{append_clock_text, clock_text};
use crate::time::{LocalDateTime, TimeOfDay};
use vstd::prelude::*;
use vstd::string::StringExecFns;

verus! {

/// `value` held to at most `max`, as the form's bounded editors do.
pub open spec fn clamp_to(value: u32, max: u32) -> u32 {
    if value > max {
        max
    } else {
        value
    }
}

/// The outcome shown after `events` arrive, in order, while `current` is
/// shown: the last of them, or `current` when none arrived.
pub open spec fn latest_outcome(current: OutcomeEvent, events: Seq<OutcomeEvent>) -> OutcomeEvent {
    if events.len() == 0 {
        current
    } else {
        events.last()
    }
}

/// The status line for an outcome.
pub open spec fn status_text(outcome: OutcomeEvent) -> Seq<char> {
    match outcome {
        OutcomeEvent::NotYetPerformed => "not yet performed"@,
        OutcomeEvent::Scheduled(at) => "scheduled for "@ + clock_text(at.time),
        OutcomeEvent::Performed(at) => "performed at "@ + clock_text(at.time),
        OutcomeEvent::Failed(message) => "error: "@ + message@,
    }
}

/// The state of the form between frames.
pub struct Controller {
    fields: TimeOfDay,
    outcome: OutcomeEvent,
}

impl Controller {
    pub closed spec fn spec_fields(&self) -> TimeOfDay {
        self.fields
    }

    pub closed spec fn spec_outcome(&self) -> OutcomeEvent {
        self.outcome
    }

    /// The fields always hold a valid time of day.
    pub open spec fn wf(&self) -> bool {
        self.spec_fields().wf()
    }

    /// A form whose fields show the time of day of `now` with millisecond
    /// zero, and whose outcome is "not yet performed".
    pub fn new(now: &LocalDateTime) -> (r: Controller)
        requires
            now.time.wf(),
        ensures
            r.wf(),
            r.spec_fields() == (TimeOfDay { milli: 0, ..now.time }),
            r.spec_outcome() == OutcomeEvent::NotYetPerformed,
    {
        Controller {
            fields: TimeOfDay { hour: now.time.hour, minute: now.time.minute, second: now.time.second, milli: 0 },
            outcome: OutcomeEvent::NotYetPerformed,
        }
    }

    /// The four fields.
    pub fn fields(&self) -> (r: TimeOfDay)
        ensures
            r == self.spec_fields(),
    {
        self.fields
    }

    /// Sets the four fields, each held to its range.
    pub fn set_fields(&mut self, hour: u32, minute: u32, second: u32, milli: u32)
        ensures
            final(self).wf(),
            final(self).spec_fields() == (TimeOfDay {
                hour: clamp_to(hour, 23),
                minute: clamp_to(minute, 59),
                second: clamp_to(second, 59),
                milli: clamp_to(milli, 999),
            }),
            final(self).spec_outcome() == old(self).spec_outcome(),
    {
        self.fields = TimeOfDay {
            hour: if hour > 23 { 23 } else { hour },
            minute: if minute > 59 { 59 } else { minute },
            second: if second > 59 { 59 } else { second },
            milli: if milli > 999 { 999 } else { milli },
        };
    }

    /// The outcome shown now.
    pub fn outcome(&self) -> (r: &OutcomeEvent)
        ensures
            *r == self.spec_outcome(),
    {
        &self.outcome
    }

    /// Takes the events that arrived since the last frame, oldest first, and
    /// keeps only the most recent.
    pub fn receive(&mut self, events: Vec<OutcomeEvent>)
        ensures
            final(self).spec_outcome() == latest_outcome(old(self).spec_outcome(), events@),
            final(self).spec_fields() == old(self).spec_fields(),
    {
        let mut events = events;
        match events.pop() {
            Some(last) => {
                self.outcome = last;
            },
            None => {},
        }
    }

    /// Launches a task for the time in the fields on the date of `now`, the
    /// clock reading at launch. The fields are copied into the task; tasks
    /// launched earlier are not affected.
    pub fn confirm(&self, now: &LocalDateTime) -> (r: ScheduledTask)
        requires
            self.wf(),
        ensures
            r.spec_phase() == TaskPhase::Waiting,
            r.spec_target() == (LocalDateTime { date: now.date, time: self.spec_fields() }),
    {
        ScheduledTask::launch_at(now, self.fields)
    }

    /// The status line for the outcome shown now.
    pub fn status_line(&self) -> (r: String)
        ensures
            r@ == status_text(self.spec_outcome()),
    {
        proof {
            reveal_strlit("not yet performed");
            reveal_strlit("scheduled for ");
            reveal_strlit("performed at ");
            reveal_strlit("error: ");
        }
        match &self.outcome {
            OutcomeEvent::NotYetPerformed => String::from_str("not yet performed"),
            OutcomeEvent::Scheduled(at) => {
                let mut s = String::from_str("scheduled for ");
                append_clock_text(&mut s, &at.time);
                s
            },
            OutcomeEvent::Performed(at) => {
                let mut s = String::from_str("performed at ");
                append_clock_text(&mut s, &at.time);
                s
            },
            OutcomeEvent::Failed(message) => {
                let mut s = String::from_str("error: ");
                s.append(message.as_str());
                s
            },
        }
    }
}

/// Events that arrive between two frames collapse to the last of them:
/// receiving `first` and then `second` shows what receiving both at once
/// shows, and that is the last event of `second` whenever `second` is not
/// empty.
pub proof fn lemma_latest_event_wins(
    current: OutcomeEvent,
    first: Seq<OutcomeEvent>,
    second: Seq<OutcomeEvent>,
)
    ensures
        latest_outcome(latest_outcome(current, first), second) == latest_outcome(current, first + second),
        second.len() > 0 ==> latest_outcome(current, first + second) == second.last(),
{
    if second.len() > 0 {
        assert((first + second).last() == second.last());
    } else {
        assert(first + second =~= first);
    }
}

/// Of two events sent before a frame, the later one is shown.
pub proof fn lemma_later_of_two_shown(current: OutcomeEvent, a: OutcomeEvent, b: OutcomeEvent)
    ensures
        latest_outcome(current, seq![a, b]) == b,
{
}

} // verus!
