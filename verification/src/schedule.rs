//! The life cycle of the commands, as a state machine on mathematical
//! models.
//!
//! Every command is run once at startup. When a run ends, the command is
//! re-armed: it waits for its delay and runs again, or, where its delay is
//! zero, it is retired for good. A re-run that fails, of a command that asks
//! for failures not to be ignored, leaves the cached output as it was and is
//! reported; the command is re-armed like any other.

use crate::config::{CommandView, ConfigView};
use crate::status::status_text;
use crate::text::notice_text;
use vstd::prelude::*;

verus! {

/// Where a command stands in its cycle.
#[derive(Clone, Copy, Debug, PartialEq, Eq, Structural)]
pub enum Phase {
    /// A run of the command is in flight; `first` tells the run at startup
    /// from the later ones.
    Running { first: bool },
    /// The command waits `delay` milliseconds for its next run.
    Waiting { delay: u64 },
    /// The command has run once and will never run again.
    Retired,
}

/// Model of what the scheduler asks of its caller.
pub enum ActionView {
    /// Run the command at `index` now, and report the end of the run.
    Run { index: int },
    /// Wait `delay` milliseconds, then report that the timer of the command
    /// at `index` has elapsed.
    Wait { index: int, delay: u64 },
    /// The command at `index` is retired: nothing is left to do for it.
    Retire { index: int },
    /// The event did not fit the state and changed nothing.
    Ignore,
}

/// Model of an event that the caller reports.
pub enum EventView {
    /// The timer of the command at `index` has elapsed.
    TimerElapsed { index: int },
    /// A run of the command at `index` has ended.
    RunFinished { index: int, succeeded: bool, stdout: Seq<char> },
}

impl EventView {
    /// The command that the event is about.
    pub open spec fn index(self) -> int {
        match self {
            EventView::TimerElapsed { index } => index,
            EventView::RunFinished { index, .. } => index,
        }
    }
}

/// Model of the scheduler's answer to one event.
pub struct ReactionView {
    pub action: ActionView,
    pub notice: Option<Seq<char>>,
}

/// The phase of a command whose run has just ended.
pub open spec fn rearmed(delay: u64) -> Phase {
    if delay == 0 {
        Phase::Retired
    } else {
        Phase::Waiting { delay }
    }
}

/// What the caller does for a command that entered `phase` at the end of a
/// run.
pub open spec fn rearm_action(index: int, phase: Phase) -> ActionView {
    match phase {
        Phase::Waiting { delay } => ActionView::Wait { index, delay },
        _ => ActionView::Retire { index },
    }
}

/// Model of one command with its place in the cycle.
pub struct SlotView {
    pub command: CommandView,
    pub phase: Phase,
    /// Number of runs of the command that were started so far.
    pub started: nat,
    /// Number of runs of the command that have ended so far.
    pub finished: nat,
}

impl SlotView {
    /// A command at startup: its first run is in flight.
    pub open spec fn fresh(command: CommandView) -> SlotView {
        SlotView { command, phase: Phase::Running { first: true }, started: 1, finished: 0 }
    }

    /// Number of runs of the command that are in flight.
    pub open spec fn in_flight(self) -> int {
        self.started - self.finished
    }

    /// Whether the end of a run with the given outcome leaves the cached
    /// output as it was: a failed re-run of a command that retries failures.
    /// The run at startup is always cached.
    pub open spec fn keeps_output(self, succeeded: bool) -> bool {
        self.phase == (Phase::Running { first: false }) && !succeeded
            && self.command.retries_failure()
    }

    /// The slot after its timer has elapsed: the next run is in flight.
    pub open spec fn after_timer(self) -> SlotView {
        SlotView { phase: Phase::Running { first: false }, started: self.started + 1, ..self }
    }

    /// The slot after a run has ended with the given outcome.
    pub open spec fn after_run(
        self,
        default_update_delay: u64,
        succeeded: bool,
        stdout: Seq<char>,
    ) -> SlotView {
        SlotView {
            command: if self.keeps_output(succeeded) {
                self.command
            } else {
                self.command.with_output(stdout)
            },
            phase: rearmed(self.command.effective_delay(default_update_delay)),
            started: self.started,
            finished: self.finished + 1,
        }
    }

    /// What holds of a slot in every state that the cycle can reach.
    pub open spec fn wf(self, default_update_delay: u64) -> bool {
        let delay = self.command.effective_delay(default_update_delay);
        match self.phase {
            Phase::Running { first } => {
                &&& self.started == self.finished + 1
                &&& first <==> self.finished == 0
                &&& !first ==> delay > 0
            },
            Phase::Waiting { delay: waited } => {
                &&& self.started == self.finished
                &&& self.finished >= 1
                &&& waited == delay
                &&& delay > 0
            },
            Phase::Retired => {
                &&& self.started == 1
                &&& self.finished == 1
                &&& delay == 0
            },
        }
    }
}

/// Model of the scheduler: the settings and one slot per command.
pub struct SchedulerView {
    pub default_update_delay: u64,
    pub thread_polling_delay: u64,
    pub delimiter: Seq<char>,
    pub slots: Seq<SlotView>,
}

impl SchedulerView {
    /// The state at startup: a first run of every command is in flight.
    pub open spec fn initial(config: ConfigView) -> SchedulerView {
        SchedulerView {
            default_update_delay: config.default_update_delay,
            thread_polling_delay: config.thread_polling_delay,
            delimiter: config.delimiter,
            slots: Seq::new(config.commands.len(), |i: int| SlotView::fresh(config.commands[i])),
        }
    }

    /// The commands with their cached outputs, in order.
    pub open spec fn commands(self) -> Seq<CommandView> {
        Seq::new(self.slots.len(), |i: int| self.slots[i].command)
    }

    /// The status line of this state.
    pub open spec fn status(self) -> Seq<char> {
        status_text(self.commands(), self.delimiter)
    }

    /// Whether `event` fits the state: it names a command, and that command
    /// waits where a timer elapsed, or runs where a run ended.
    pub open spec fn accepts(self, event: EventView) -> bool {
        &&& 0 <= event.index() < self.slots.len()
        &&& match event {
            EventView::TimerElapsed { index } => self.slots[index].phase is Waiting,
            EventView::RunFinished { index, .. } => self.slots[index].phase is Running,
        }
    }

    /// The slot of the command that `event` is about, after the event.
    pub open spec fn slot_after(self, event: EventView) -> SlotView
        recommends
            self.accepts(event),
    {
        match event {
            EventView::TimerElapsed { index } => self.slots[index].after_timer(),
            EventView::RunFinished { index, succeeded, stdout } => self.slots[index].after_run(
                self.default_update_delay,
                succeeded,
                stdout,
            ),
        }
    }

    /// The state after `event`. An event that does not fit changes nothing.
    pub open spec fn step(self, event: EventView) -> SchedulerView {
        if self.accepts(event) {
            SchedulerView {
                slots: self.slots.update(event.index(), self.slot_after(event)),
                ..self
            }
        } else {
            self
        }
    }

    /// The answer to `event`: a run for an elapsed timer; for the end of a
    /// run the re-arming of the command, with a notice where the run was a
    /// failure that left the cached output as it was.
    pub open spec fn reaction(self, event: EventView) -> ReactionView {
        if self.accepts(event) {
            match event {
                EventView::TimerElapsed { index } => ReactionView {
                    action: ActionView::Run { index },
                    notice: None,
                },
                EventView::RunFinished { index, succeeded, stdout } => ReactionView {
                    action: rearm_action(index, self.slot_after(event).phase),
                    notice: if self.slots[index].keeps_output(succeeded) {
                        Some(notice_text(self.slots[index].command.command))
                    } else {
                        None
                    },
                },
            }
        } else {
            ReactionView { action: ActionView::Ignore, notice: None }
        }
    }

    /// The state after `events`, taken in order.
    pub open spec fn run(self, events: Seq<EventView>) -> SchedulerView
        decreases events.len(),
    {
        if events.len() == 0 {
            self
        } else {
            self.run(events.drop_last()).step(events.last())
        }
    }

    /// What holds in every state that the scheduler can reach.
    pub open spec fn wf(self) -> bool {
        forall|i: int|
            0 <= i < self.slots.len() ==> (#[trigger] self.slots[i]).wf(self.default_update_delay)
    }
}

} // verus!
