//! The timed demonstration, as a machine that the host drives: the host
//! hands in what happened, the machine answers with what to do next.
//!
//! The script is linear. Two pauses come first, each followed by a log line
//! and a notification. Then the slot is logged, a fresh random vector is
//! asked for and written to the slot, and the slot is logged again.

use vstd::prelude::*;
use crate::slot::{put_vector, read_vector, TestModel};

verus! {

/// How long each pause lasts, in milliseconds.
pub const PAUSE_MS: i64 = 3000;

/// The seed that the host's random generator is started with.
pub const RNG_SEED: u64 = 42;

/// How many elements the generated vector has.
pub const VECTOR_LEN: usize = 784;

/// The fixed texts of the demonstration.
#[derive(Clone, Copy, Debug, PartialEq, Eq)]
pub enum Message {
    Slept,
    SleptABit,
    EmptyVector,
    BigRandomVector,
}

impl Message {
    /// The characters of the message.
    pub open spec fn chars(self) -> Seq<char> {
        match self {
            Message::Slept => "Slept for 3 seconds"@,
            Message::SleptABit => "Slept for a bit"@,
            Message::EmptyVector => "Empty vector:"@,
            Message::BigRandomVector => "Big random vector:"@,
        }
    }

    /// The message as text.
    pub fn text(self) -> (s: &'static str)
        ensures
            s@ == self.chars(),
    {
        match self {
            Message::Slept => "Slept for 3 seconds",
            Message::SleptABit => "Slept for a bit",
            Message::EmptyVector => "Empty vector:",
            Message::BigRandomVector => "Big random vector:",
        }
    }
}

/// Which of the two pauses.
#[derive(Clone, Copy, Debug, PartialEq, Eq)]
pub enum Pause {
    First,
    Second,
}

/// Where the demonstration stands: what the host was last asked to do.
#[derive(Clone, Copy, Debug, PartialEq, Eq)]
pub enum Stage {
    /// Nothing was asked yet.
    Idle,
    /// The clock was asked for, to mark the start of a pause.
    Starting(Pause),
    /// The clock was asked for again, in a pause that started at the
    /// given time.
    Pausing(Pause, i64),
    /// The log line after a pause was handed out.
    Logged(Pause),
    /// The notification after a pause was handed out.
    Notified(Pause),
    /// The heading of the first look at the slot was handed out.
    AnnouncedEmpty,
    /// The slot's contents were handed out for the first time.
    ShownEmpty,
    /// A random vector was asked for.
    Generating,
    /// The heading of the second look at the slot was handed out.
    AnnouncedRandom,
    /// The slot's contents were handed out for the second time.
    ShownRandom,
    /// The script ran to its end.
    Finished,
    /// An event came that did not answer what was asked; the script was
    /// abandoned.
    Stopped,
}

/// What the host reports back.
#[derive(Debug, PartialEq)]
pub enum Event<T> {
    /// The host wants the demonstration to begin.
    Start,
    /// The clock's reading, in milliseconds.
    Clock(i64),
    /// The line or notification was sent.
    Done,
    /// The random vector that was asked for.
    Vector(Vec<T>),
}

/// What the host is asked to do next.
#[derive(Debug, PartialEq)]
pub enum Action<T> {
    /// Read the clock and report the time.
    ReadClock,
    /// Write the message to the log.
    Log(Message),
    /// Send the message as a status notification.
    Notify(Message),
    /// Write these values, the slot's contents, to the log.
    LogVector(Vec<T>),
    /// Draw a random vector with this seed and of this length, and report it.
    Generate { seed: u64, len: usize },
    /// Nothing is left to do.
    Finish,
}

/// An action, with the vector it carries as a sequence.
pub enum ActionView<T> {
    ReadClock,
    Log(Message),
    Notify(Message),
    LogVector(Seq<T>),
    Generate { seed: u64, len: usize },
    Finish,
}

impl<T> View for Action<T> {
    type V = ActionView<T>;

    open spec fn view(&self) -> ActionView<T> {
        match *self {
            Action::ReadClock => ActionView::ReadClock,
            Action::Log(m) => ActionView::Log(m),
            Action::Notify(m) => ActionView::Notify(m),
            Action::LogVector(v) => ActionView::LogVector(v@),
            Action::Generate { seed, len } => ActionView::Generate { seed, len },
            Action::Finish => ActionView::Finish,
        }
    }
}

impl<T> ActionView<T> {
    /// Whether the action shows outside the program: a log line, a
    /// notification or the logged vector.
    pub open spec fn is_output(self) -> bool {
        self is Log || self is Notify || self is LogVector
    }
}

/// The result of one step: the next stage, the action asked of the host and
/// the slot's contents after the step.
pub struct Outcome<T> {
    pub stage: Stage,
    pub action: ActionView<T>,
    pub slot: Seq<T>,
}

/// Whether a pause that started at `since` is over at `now`.
pub open spec fn pause_over(since: i64, now: i64) -> bool {
    now - since >= PAUSE_MS
}

/// One step of the script, at `stage`, with `slot` in the slot, on `event`.
pub open spec fn step<T>(stage: Stage, event: Event<T>, slot: Seq<T>) -> Outcome<T> {
    match (stage, event) {
        (Stage::Idle, Event::Start) => Outcome {
            stage: Stage::Starting(Pause::First),
            action: ActionView::ReadClock,
            slot,
        },
        (Stage::Starting(pause), Event::Clock(now)) => Outcome {
            stage: Stage::Pausing(pause, now),
            action: ActionView::ReadClock,
            slot,
        },
        (Stage::Pausing(pause, since), Event::Clock(now)) => if pause_over(since, now) {
            Outcome { stage: Stage::Logged(pause), action: ActionView::Log(Message::Slept), slot }
        } else {
            Outcome { stage: Stage::Pausing(pause, since), action: ActionView::ReadClock, slot }
        },
        (Stage::Logged(pause), Event::Done) => Outcome {
            stage: Stage::Notified(pause),
            action: ActionView::Notify(Message::SleptABit),
            slot,
        },
        (Stage::Notified(Pause::First), Event::Done) => Outcome {
            stage: Stage::Starting(Pause::Second),
            action: ActionView::ReadClock,
            slot,
        },
        (Stage::Notified(Pause::Second), Event::Done) => Outcome {
            stage: Stage::AnnouncedEmpty,
            action: ActionView::Log(Message::EmptyVector),
            slot,
        },
        (Stage::AnnouncedEmpty, Event::Done) => Outcome {
            stage: Stage::ShownEmpty,
            action: ActionView::LogVector(slot),
            slot,
        },
        (Stage::ShownEmpty, Event::Done) => Outcome {
            stage: Stage::Generating,
            action: ActionView::Generate { seed: RNG_SEED, len: VECTOR_LEN },
            slot,
        },
        (Stage::Generating, Event::Vector(v)) => Outcome {
            stage: Stage::AnnouncedRandom,
            action: ActionView::Log(Message::BigRandomVector),
            slot: v@,
        },
        (Stage::AnnouncedRandom, Event::Done) => Outcome {
            stage: Stage::ShownRandom,
            action: ActionView::LogVector(slot),
            slot,
        },
        (Stage::ShownRandom, Event::Done) => Outcome {
            stage: Stage::Finished,
            action: ActionView::Finish,
            slot,
        },
        (Stage::Finished, _) => Outcome { stage: Stage::Finished, action: ActionView::Finish, slot },
        _ => Outcome { stage: Stage::Stopped, action: ActionView::Finish, slot },
    }
}

/// Takes the demonstration one step further: from the stage it stands at and
/// the event that the host reports, to the next stage and the action that
/// the host performs next. The slot is written to in one step only, the one
/// that receives the random vector. An event that does not answer what was
/// asked abandons the script: the stage becomes `Stopped` and the action
/// `Finish`, and so it stays.
pub fn loop_with_delay<T: Copy>(stage: Stage, event: Event<T>, model: &mut TestModel<T>) -> (next: (
    Stage,
    Action<T>,
))
    ensures
        next.0 == step(stage, event, old(model)@).stage,
        next.1@ == step(stage, event, old(model)@).action,
        final(model)@ == step(stage, event, old(model)@).slot,
{
    match stage {
        Stage::Idle => match event {
            Event::Start => (Stage::Starting(Pause::First), Action::ReadClock),
            _ => (Stage::Stopped, Action::Finish),
        },
        Stage::Starting(pause) => match event {
            Event::Clock(now) => (Stage::Pausing(pause, now), Action::ReadClock),
            _ => (Stage::Stopped, Action::Finish),
        },
        Stage::Pausing(pause, since) => match event {
            Event::Clock(now) => {
                if now as i128 - since as i128 >= PAUSE_MS as i128 {
                    (Stage::Logged(pause), Action::Log(Message::Slept))
                } else {
                    (Stage::Pausing(pause, since), Action::ReadClock)
                }
            },
            _ => (Stage::Stopped, Action::Finish),
        },
        Stage::Logged(pause) => match event {
            Event::Done => (Stage::Notified(pause), Action::Notify(Message::SleptABit)),
            _ => (Stage::Stopped, Action::Finish),
        },
        Stage::Notified(pause) => match event {
            Event::Done => match pause {
                Pause::First => (Stage::Starting(Pause::Second), Action::ReadClock),
                Pause::Second => (Stage::AnnouncedEmpty, Action::Log(Message::EmptyVector)),
            },
            _ => (Stage::Stopped, Action::Finish),
        },
        Stage::AnnouncedEmpty => match event {
            Event::Done => (Stage::ShownEmpty, Action::LogVector(read_vector(model))),
            _ => (Stage::Stopped, Action::Finish),
        },
        Stage::ShownEmpty => match event {
            Event::Done => (Stage::Generating, Action::Generate { seed: RNG_SEED, len: VECTOR_LEN }),
            _ => (Stage::Stopped, Action::Finish),
        },
        Stage::Generating => match event {
            Event::Vector(v) => {
                put_vector(model, v);
                (Stage::AnnouncedRandom, Action::Log(Message::BigRandomVector))
            },
            _ => (Stage::Stopped, Action::Finish),
        },
        Stage::AnnouncedRandom => match event {
            Event::Done => (Stage::ShownRandom, Action::LogVector(read_vector(model))),
            _ => (Stage::Stopped, Action::Finish),
        },
        Stage::ShownRandom => match event {
            Event::Done => (Stage::Finished, Action::Finish),
            _ => (Stage::Stopped, Action::Finish),
        },
        Stage::Finished => (Stage::Finished, Action::Finish),
        Stage::Stopped => (Stage::Stopped, Action::Finish),
    }
}

/// The line after a pause is handed out only on a reading of the clock
/// that lies at least `PAUSE_MS` after the reading that started the pause.
pub proof fn lemma_pause_lasts<T>(stage: Stage, event: Event<T>, slot: Seq<T>)
    requires
        step(stage, event, slot).action == ActionView::<T>::Log(Message::Slept),
    ensures
        stage is Pausing,
        event is Clock,
        event->Clock_0 - stage->Pausing_1 >= PAUSE_MS,
        step(stage, event, slot).stage == Stage::Logged(stage->Pausing_0),
{
}

/// No step but the one that receives the generated vector writes to the
/// slot, and that one writes the vector as it came.
pub proof fn lemma_only_the_generated_vector_is_written<T>(stage: Stage, event: Event<T>, slot: Seq<T>)
    ensures
        step(stage, event, slot).slot == if stage == Stage::Generating && event is Vector {
            event->Vector_0@
        } else {
            slot
        },
{
}

/// Where a run of the script has got to, and what it has shown so far.
pub struct Run<T> {
    pub stage: Stage,
    pub slot: Seq<T>,
    pub outputs: Seq<ActionView<T>>,
}

/// The run that starts at `stage` with `slot` in the slot and takes one step
/// for each of `events`, in order. Its outputs are the actions of those
/// steps that show outside the program.
pub open spec fn run<T>(stage: Stage, slot: Seq<T>, events: Seq<Event<T>>) -> Run<T>
    decreases events.len(),
{
    if events.len() == 0 {
        Run { stage, slot, outputs: Seq::empty() }
    } else {
        let first = step(stage, events[0], slot);
        let rest = run(first.stage, first.slot, events.drop_first());
        Run {
            stage: rest.stage,
            slot: rest.slot,
            outputs: if first.action.is_output() {
                seq![first.action] + rest.outputs
            } else {
                rest.outputs
            },
        }
    }
}

/// Everything that a complete demonstration shows, in order, where the slot
/// held `before` at the start and holds `after` at the end.
pub open spec fn script<T>(before: Seq<T>, after: Seq<T>) -> Seq<ActionView<T>> {
    seq![
        ActionView::Log(Message::Slept),
        ActionView::Notify(Message::SleptABit),
        ActionView::Log(Message::Slept),
        ActionView::Notify(Message::SleptABit),
        ActionView::Log(Message::EmptyVector),
        ActionView::LogVector(before),
        ActionView::Log(Message::BigRandomVector),
        ActionView::LogVector(after),
    ]
}

/// How many outputs of the script were handed out on the way to `stage`.
pub open spec fn outputs_before(stage: Stage) -> nat {
    match stage {
        Stage::Idle => 0,
        Stage::Starting(Pause::First) => 0,
        Stage::Pausing(Pause::First, _) => 0,
        Stage::Logged(Pause::First) => 1,
        Stage::Notified(Pause::First) => 2,
        Stage::Starting(Pause::Second) => 2,
        Stage::Pausing(Pause::Second, _) => 2,
        Stage::Logged(Pause::Second) => 3,
        Stage::Notified(Pause::Second) => 4,
        Stage::AnnouncedEmpty => 5,
        Stage::ShownEmpty => 6,
        Stage::Generating => 6,
        Stage::AnnouncedRandom => 7,
        Stage::ShownRandom => 8,
        Stage::Finished => 8,
        Stage::Stopped => 8,
    }
}

/// From any stage on: a run that reaches the end shows the rest of the
/// script; an abandoned script stays abandoned; and once the random vector
/// is in the slot, the slot keeps it.
proof fn lemma_rest_of_script<T>(stage: Stage, slot: Seq<T>, events: Seq<Event<T>>)
    ensures
        run(stage, slot, events).stage == Stage::Finished ==> run(stage, slot, events).outputs
            == script(slot, run(stage, slot, events).slot).skip(outputs_before(stage) as int),
        stage == Stage::Stopped ==> run(stage, slot, events).stage == Stage::Stopped,
        outputs_before(stage) >= 7 ==> run(stage, slot, events).slot == slot,
    decreases events.len(),
{
    let end = run(stage, slot, events);
    if events.len() == 0 {
        assert(script(slot, slot).skip(8) =~= Seq::empty());
    } else {
        let first = step(stage, events[0], slot);
        lemma_rest_of_script(first.stage, first.slot, events.drop_first());
        if end.stage == Stage::Finished {
            let rest = script(first.slot, end.slot).skip(outputs_before(first.stage) as int);
            let all = script(slot, end.slot).skip(outputs_before(stage) as int);
            if first.action.is_output() {
                assert(all =~= seq![first.action] + rest);
            } else {
                assert(all =~= rest);
            }
        }
    }
}

/// A demonstration that ran from the start to its end has shown exactly the
/// outputs of the script, in the script's order, whatever the clock read and
/// whichever vector was generated: the slot's contents from before the run
/// in the first vector line, and the generated vector, which the slot holds
/// from then on, in the second.
pub proof fn lemma_finished_run_follows_script<T>(slot: Seq<T>, events: Seq<Event<T>>)
    requires
        run(Stage::Idle, slot, events).stage == Stage::Finished,
    ensures
        run(Stage::Idle, slot, events).outputs == script(slot, run(Stage::Idle, slot, events).slot),
{
    lemma_rest_of_script(Stage::Idle, slot, events);
    assert(script(slot, run(Stage::Idle, slot, events).slot).skip(0) =~= script(
        slot,
        run(Stage::Idle, slot, events).slot,
    ));
}

/// The events of the shortest complete demonstration: each pause is over
/// at the second reading of the clock, and `v` is the vector generated.
pub open spec fn shortest_run<T>(start1: i64, end1: i64, start2: i64, end2: i64, v: Vec<T>) -> Seq<
    Event<T>,
> {
    seq![
        Event::Start,
        Event::Clock(start1),
        Event::Clock(end1),
        Event::Done,
        Event::Done,
        Event::Clock(start2),
        Event::Clock(end2),
        Event::Done,
        Event::Done,
        Event::Done,
        Event::Done,
        Event::Vector(v),
        Event::Done,
        Event::Done,
    ]
}

/// The script can be run to its end: where both pauses are over at the
/// second reading, fourteen events do it, and the slot then holds the
/// generated vector.
pub proof fn lemma_shortest_run_finishes<T>(
    slot: Seq<T>,
    start1: i64,
    end1: i64,
    start2: i64,
    end2: i64,
    v: Vec<T>,
)
    requires
        pause_over(start1, end1),
        pause_over(start2, end2),
    ensures
        run(Stage::Idle, slot, shortest_run(start1, end1, start2, end2, v)).stage == Stage::Finished,
        run(Stage::Idle, slot, shortest_run(start1, end1, start2, end2, v)).slot == v@,
{
    reveal_with_fuel(run, 15);
}

} // verus!
