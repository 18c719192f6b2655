//! The scheduler: it keeps the commands with their cached outputs and their
//! place in the cycle, answers the events that its caller reports, and
//! assembles the status line.

use crate::config::{command_views, Config, ConfigView};
use crate::laws::{lemma_run_preserves_wf, lemma_step_preserves_wf};
use crate::schedule::{ActionView, EventView, Phase, ReactionView, SchedulerView, SlotView};
use crate::status::status_line;
use crate::text::failure_notice;
use vstd::prelude::*;

verus! {

/// An event that the caller reports to the scheduler.
#[derive(Debug)]
pub enum Event {
    /// The timer of the command at `index` has elapsed.
    TimerElapsed { index: usize },
    /// A run of the command at `index` has ended: whether its exit status
    /// was a success, and what it printed.
    RunFinished { index: usize, succeeded: bool, stdout: String },
}

impl View for Event {
    type V = EventView;

    open spec fn view(&self) -> EventView {
        match self {
            Event::TimerElapsed { index } => EventView::TimerElapsed { index: *index as int },
            Event::RunFinished { index, succeeded, stdout } => EventView::RunFinished {
                index: *index as int,
                succeeded: *succeeded,
                stdout: stdout@,
            },
        }
    }
}

/// What the scheduler asks of its caller.
#[derive(Clone, Copy, Debug, PartialEq, Eq, Structural)]
pub enum Action {
    /// Run the command at `index` now, and report the end of the run.
    Run { index: usize },
    /// Wait `delay` milliseconds, then report that the timer of the command
    /// at `index` has elapsed.
    Wait { index: usize, delay: u64 },
    /// The command at `index` is retired: nothing is left to do for it.
    Retire { index: usize },
    /// The event did not fit the state and changed nothing.
    Ignore,
}

impl View for Action {
    type V = ActionView;

    open spec fn view(&self) -> ActionView {
        match self {
            Action::Run { index } => ActionView::Run { index: *index as int },
            Action::Wait { index, delay } => ActionView::Wait {
                index: *index as int,
                delay: *delay,
            },
            Action::Retire { index } => ActionView::Retire { index: *index as int },
            Action::Ignore => ActionView::Ignore,
        }
    }
}

/// The scheduler's answer to one event.
#[derive(Debug)]
pub struct Reaction {
    /// What the caller does next.
    pub action: Action,
    /// A line for the error stream, where the event was a failure that the
    /// command does not ignore.
    pub notice: Option<String>,
}

impl View for Reaction {
    type V = ReactionView;

    open spec fn view(&self) -> ReactionView {
        ReactionView {
            action: self.action@,
            notice: match self.notice {
                Some(notice) => Some(notice@),
                None => None,
            },
        }
    }
}

/// The models of a vector of events, in order.
pub open spec fn event_views(events: Seq<Event>) -> Seq<EventView> {
    Seq::new(events.len(), |i: int| events[i]@)
}

/// What one round of the publishing loop yields.
#[derive(Debug)]
pub struct Tick {
    /// The answers to the events of the round, in the order of the events.
    pub reactions: Vec<Reaction>,
    /// The status line after the events.
    pub status: String,
}

/// The place of one command in the cycle.
struct Track {
    phase: Phase,
    started: Ghost<nat>,
    finished: Ghost<nat>,
}

/// The commands of a configuration with their cached outputs and their place
/// in the cycle.
pub struct Scheduler {
    config: Config,
    tracks: Vec<Track>,
}

impl View for Scheduler {
    type V = SchedulerView;

    closed spec fn view(&self) -> SchedulerView {
        SchedulerView {
            default_update_delay: self.config.default_update_delay,
            thread_polling_delay: self.config.thread_polling_delay,
            delimiter: self.config.delimiter@,
            slots: Seq::new(
                self.config.commands.len() as nat,
                |i: int|
                    SlotView {
                        command: self.config.commands[i]@,
                        phase: self.tracks[i].phase,
                        started: self.tracks[i].started@,
                        finished: self.tracks[i].finished@,
                    },
            ),
        }
    }
}

impl Scheduler {
    #[verifier::type_invariant]
    spec fn inv(&self) -> bool {
        self.tracks.len() == self.config.commands.len()
    }

    /// Takes a configuration and starts the cycle: the caller runs every
    /// command once, at once, whatever its delay.
    pub fn start(config: Config) -> (started: (Scheduler, Vec<Action>))
        ensures
            started.0@ == SchedulerView::initial(config@),
            started.0@.wf(),
            started.1.len() == config@.commands.len(),
            forall|i: int|
                0 <= i < started.1.len() ==> (#[trigger] started.1[i])@ == (ActionView::Run {
                    index: i,
                }),
    {
        let mut tracks: Vec<Track> = Vec::new();
        let mut actions: Vec<Action> = Vec::new();
        let mut i: usize = 0;
        while i < config.commands.len()
            invariant
                i <= config.commands.len(),
                tracks.len() == i,
                actions.len() == i,
                forall|j: int|
                    0 <= j < i ==> (#[trigger] tracks[j]).phase == (Phase::Running { first: true })
                        && tracks[j].started@ == 1 && tracks[j].finished@ == 0,
                forall|j: int| 0 <= j < i ==> #[trigger] actions[j] == (Action::Run { index: j as usize }),
            decreases config.commands.len() - i,
        {
            tracks.push(
                Track { phase: Phase::Running { first: true }, started: Ghost(1), finished: Ghost(0) },
            );
            actions.push(Action::Run { index: i });
            i = i + 1;
        }
        let ghost model = config@;
        let scheduler = Scheduler { config, tracks };
        assert(scheduler@.slots =~= SchedulerView::initial(model).slots);
        (scheduler, actions)
    }

    /// Feeds one event to the cycle and tells the caller what to do next.
    ///
    /// An elapsed timer starts the next run of a waiting command. The end of
    /// a run caches what the run printed, unless it was a failed re-run of a
    /// command that retries failures, which is reported in `notice` instead;
    /// either way the command is re-armed: it waits for its delay, or is
    /// retired where the delay is zero. An event that names no command, or a
    /// command in another phase, changes nothing.
    pub fn handle(&mut self, event: Event) -> (reaction: Reaction)
        ensures
            final(self)@ == old(self)@.step(event@),
            reaction@ == old(self)@.reaction(event@),
            old(self)@.wf() ==> final(self)@.wf(),
    {
        proof {
            use_type_invariant(&*self);
            if self@.wf() {
                lemma_step_preserves_wf(self@, event@);
            }
        }
        match event {
            Event::TimerElapsed { index } => {
                if index < self.tracks.len() {
                    if let Phase::Waiting { .. } = self.tracks[index].phase {
                        let ghost started = self.tracks[index as int].started@;
                        self.tracks[index].phase = Phase::Running { first: false };
                        self.tracks[index].started = Ghost(started + 1);
                        assert(self@.slots =~= old(self)@.step(event@).slots);
                        return Reaction { action: Action::Run { index }, notice: None };
                    }
                }
                Reaction { action: Action::Ignore, notice: None }
            },
            Event::RunFinished { index, succeeded, stdout } => {
                if index < self.tracks.len() {
                    if let Phase::Running { first } = self.tracks[index].phase {
                        let command = &self.config.commands[index];
                        let delay: u64 = command.effective_delay(self.config.default_update_delay);
                        let keeps = !first && !succeeded && command.retries_failure();
                        let notice = if keeps {
                            Some(failure_notice(command.command.as_str()))
                        } else {
                            None
                        };
                        if !keeps {
                            self.config.commands[index].output = stdout;
                        }
                        let ghost finished = self.tracks[index as int].finished@;
                        self.tracks[index].finished = Ghost(finished + 1);
                        let action = if delay == 0 {
                            self.tracks[index].phase = Phase::Retired;
                            Action::Retire { index }
                        } else {
                            self.tracks[index].phase = Phase::Waiting { delay };
                            Action::Wait { index, delay }
                        };
                        assert(self@.slots =~= old(self)@.step(event@).slots);
                        return Reaction { action, notice };
                    }
                }
                Reaction { action: Action::Ignore, notice: None }
            },
        }
    }

    /// One round of the publishing loop: feeds the pending events to the
    /// cycle, in order, then assembles the status line.
    pub fn tick(&mut self, events: Vec<Event>) -> (tick: Tick)
        ensures
            final(self)@ == old(self)@.run(event_views(events@)),
            tick.reactions.len() == events.len(),
            forall|k: int|
                0 <= k < events.len() ==> (#[trigger] tick.reactions[k])@ == old(self)@.run(
                    event_views(events@).take(k),
                ).reaction(events[k]@),
            tick.status@ == final(self)@.status(),
            old(self)@.wf() ==> final(self)@.wf(),
    {
        let ghost all = event_views(events@);
        let ghost before = self@;
        proof {
            if before.wf() {
                lemma_run_preserves_wf(before, all);
            }
        }
        let mut reactions: Vec<Reaction> = Vec::new();
        for event in it: events
            invariant
                it.seq() == events@,
                all == event_views(events@),
                self@ == before.run(all.take(it.index())),
                reactions.len() == it.index(),
                forall|k: int|
                    0 <= k < it.index() ==> (#[trigger] reactions[k])@ == before.run(
                        all.take(k),
                    ).reaction(all[k]),
        {
            proof {
                let k = it.index();
                assert(all.take(k + 1).drop_last() == all.take(k));
                assert(all.take(k + 1).last() == event@);
            }
            let reaction = self.handle(event);
            reactions.push(reaction);
        }
        assert(all.take(all.len() as int) == all);
        let status = self.status_line();
        Tick { reactions, status }
    }

    /// Number of commands.
    pub fn len(&self) -> (n: usize)
        ensures
            n == self@.slots.len(),
    {
        self.config.commands.len()
    }

    /// The settings, and the commands with the outputs that are cached for
    /// them now.
    pub fn config(&self) -> (config: &Config)
        ensures
            config@ == (ConfigView {
                default_update_delay: self@.default_update_delay,
                thread_polling_delay: self@.thread_polling_delay,
                delimiter: self@.delimiter,
                commands: self@.commands(),
            }),
    {
        assert(self@.commands() =~= command_views(self.config.commands@));
        &self.config
    }

    /// Where the command at `index` stands in its cycle; `None` where
    /// `index` names no command.
    pub fn phase(&self, index: usize) -> (phase: Option<Phase>)
        ensures
            phase == if index < self@.slots.len() {
                Some(self@.slots[index as int].phase)
            } else {
                None
            },
    {
        proof {
            use_type_invariant(self);
        }
        if index < self.tracks.len() {
            Some(self.tracks[index].phase)
        } else {
            None
        }
    }

    /// The status line: the first line of every cached output, each followed
    /// by the delimiter, in the order of the commands.
    pub fn status_line(&self) -> (line: String)
        ensures
            line@ == self@.status(),
    {
        let line = status_line(&self.config.commands, self.config.delimiter.as_str());
        assert(self@.commands() =~= command_views(self.config.commands@));
        line
    }
}

} // verus!
