//! What holds of the cycle in every state that it can reach.

use crate::config::ConfigView;
use crate::schedule::{ActionView, EventView, Phase, SchedulerView};
use crate::text::notice_text;
use vstd::prelude::*;

verus! {

/// An event never adds or removes a command, nor changes the settings or
/// the text of a command.
pub proof fn lemma_step_keeps_frame(s: SchedulerView, event: EventView)
    ensures
        s.step(event).slots.len() == s.slots.len(),
        s.step(event).default_update_delay == s.default_update_delay,
        s.step(event).thread_polling_delay == s.thread_polling_delay,
        s.step(event).delimiter == s.delimiter,
        forall|i: int|
            0 <= i < s.slots.len() ==> {
                let before = #[trigger] s.slots[i].command;
                let after = s.step(event).slots[i].command;
                &&& after.command == before.command
                &&& after.update_delay == before.update_delay
                &&& after.ignore_status_code == before.ignore_status_code
            },
        forall|i: int|
            0 <= i < s.slots.len() && i != event.index() ==> s.step(event).slots[i]
                == #[trigger] s.slots[i],
{
}

/// A sequence of events never adds or removes a command, nor changes the
/// settings or the text of a command.
pub proof fn lemma_run_keeps_frame(s: SchedulerView, events: Seq<EventView>)
    ensures
        s.run(events).slots.len() == s.slots.len(),
        s.run(events).default_update_delay == s.default_update_delay,
        s.run(events).thread_polling_delay == s.thread_polling_delay,
        s.run(events).delimiter == s.delimiter,
        forall|i: int|
            0 <= i < s.slots.len() ==> {
                let before = #[trigger] s.slots[i].command;
                let after = s.run(events).slots[i].command;
                &&& after.command == before.command
                &&& after.update_delay == before.update_delay
                &&& after.ignore_status_code == before.ignore_status_code
            },
    decreases events.len(),
{
    if events.len() > 0 {
        lemma_run_keeps_frame(s, events.drop_last());
        lemma_step_keeps_frame(s.run(events.drop_last()), events.last());
    }
}

/// Feeding the events of several rounds, round after round, is feeding all
/// of them in order.
pub proof fn law_rounds_compose(s: SchedulerView, first: Seq<EventView>, second: Seq<EventView>)
    ensures
        s.run(first).run(second) == s.run(first + second),
    decreases second.len(),
{
    if second.len() == 0 {
        assert(first + second == first);
    } else {
        assert((first + second).drop_last() == first + second.drop_last());
        assert((first + second).last() == second.last());
        law_rounds_compose(s, first, second.drop_last());
    }
}

/// The state at startup is well formed.
pub proof fn lemma_initial_wf(config: ConfigView)
    ensures
        SchedulerView::initial(config).wf(),
{
}

/// An event keeps a well-formed state well formed.
pub proof fn lemma_step_preserves_wf(s: SchedulerView, event: EventView)
    requires
        s.wf(),
    ensures
        s.step(event).wf(),
{
    let t = s.step(event);
    assert forall|i: int| 0 <= i < t.slots.len() implies (#[trigger] t.slots[i]).wf(
        t.default_update_delay,
    ) by {
        assert(s.slots[i].wf(s.default_update_delay));
    }
}

/// A sequence of events keeps a well-formed state well formed.
pub proof fn lemma_run_preserves_wf(s: SchedulerView, events: Seq<EventView>)
    requires
        s.wf(),
    ensures
        s.run(events).wf(),
    decreases events.len(),
{
    if events.len() > 0 {
        lemma_run_preserves_wf(s, events.drop_last());
        lemma_step_preserves_wf(s.run(events.drop_last()), events.last());
    }
}

/// Every state that the cycle reaches from startup is well formed and holds
/// the commands of the configuration.
pub proof fn lemma_reachable_wf(config: ConfigView, events: Seq<EventView>)
    ensures
        SchedulerView::initial(config).run(events).wf(),
        SchedulerView::initial(config).run(events).slots.len() == config.commands.len(),
        SchedulerView::initial(config).run(events).default_update_delay
            == config.default_update_delay,
        forall|i: int|
            0 <= i < config.commands.len() ==> {
                let given = #[trigger] config.commands[i];
                let held = SchedulerView::initial(config).run(events).slots[i].command;
                &&& held.command == given.command
                &&& held.update_delay == given.update_delay
                &&& held.ignore_status_code == given.ignore_status_code
            },
{
    let s = SchedulerView::initial(config);
    lemma_initial_wf(config);
    lemma_run_preserves_wf(s, events);
    lemma_run_keeps_frame(s, events);
    assert forall|i: int| 0 <= i < config.commands.len() implies {
        let given = #[trigger] config.commands[i];
        let held = s.run(events).slots[i].command;
        &&& held.command == given.command
        &&& held.update_delay == given.update_delay
        &&& held.ignore_status_code == given.ignore_status_code
    } by {
        assert(s.slots[i].command == config.commands[i]);
    }
}

/// Never two runs of one command at a time: in every state that the cycle
/// reaches from startup, a command has one run in flight while it is
/// running and none otherwise, and a new run is asked for only of a command
/// that has none in flight.
pub proof fn law_one_run_at_a_time(
    config: ConfigView,
    events: Seq<EventView>,
    next: EventView,
    i: int,
)
    requires
        0 <= i < config.commands.len(),
    ensures
        ({
            let s = SchedulerView::initial(config).run(events);
            &&& s.slots[i].in_flight() == if s.slots[i].phase is Running { 1int } else { 0int }
            &&& s.reaction(next).action == (ActionView::Run { index: i })
                ==> s.slots[i].in_flight() == 0 && s.step(next).slots[i].in_flight() == 1
        }),
{
    lemma_reachable_wf(config, events);
    let s = SchedulerView::initial(config).run(events);
    assert(s.slots[i].wf(s.default_update_delay));
}

/// A retired command stays as it is, whatever is reported.
pub proof fn lemma_retired_is_final(s: SchedulerView, events: Seq<EventView>, i: int)
    requires
        0 <= i < s.slots.len(),
        s.slots[i].phase is Retired,
    ensures
        s.run(events).slots.len() == s.slots.len(),
        s.run(events).slots[i] == s.slots[i],
    decreases events.len(),
{
    if events.len() > 0 {
        lemma_retired_is_final(s, events.drop_last(), i);
    }
}

/// A command whose delay is zero runs exactly once: in every state that the
/// cycle reaches from startup its run at startup is the only one that was
/// ever started, no event is answered with another run of it, and once that
/// run has ended the command is retired and neither its cached output nor
/// anything else of it changes again.
pub proof fn law_one_shot_runs_once(
    config: ConfigView,
    events: Seq<EventView>,
    next: EventView,
    more: Seq<EventView>,
    i: int,
)
    requires
        0 <= i < config.commands.len(),
        config.commands[i].effective_delay(config.default_update_delay) == 0,
    ensures
        ({
            let s = SchedulerView::initial(config).run(events);
            &&& s.slots[i].started == 1
            &&& s.slots[i].finished <= 1
            &&& s.reaction(next).action != (ActionView::Run { index: i })
            &&& s.slots[i].finished == 1 ==> {
                &&& s.slots[i].phase is Retired
                &&& s.run(more).slots[i] == s.slots[i]
            }
        }),
{
    lemma_reachable_wf(config, events);
    let s = SchedulerView::initial(config).run(events);
    assert(s.slots[i].wf(s.default_update_delay));
    if s.slots[i].finished == 1 {
        lemma_retired_is_final(s, more, i);
    }
}

/// Whether `event` reports a successful run of the command at `index`.
pub open spec fn is_success_of(event: EventView, index: int) -> bool {
    event matches EventView::RunFinished { index: reported, succeeded, .. } && reported == index
        && succeeded
}

/// Whether every run of the command at `index` that `events` reports has
/// failed.
pub open spec fn all_runs_fail(events: Seq<EventView>, index: int) -> bool {
    forall|k: int| 0 <= k < events.len() ==> !is_success_of(#[trigger] events[k], index)
}

/// While every run of a command that retries failures fails, the output
/// that was cached for it stays as it is, once its first run has ended.
pub proof fn lemma_failures_keep_output(s: SchedulerView, events: Seq<EventView>, i: int)
    requires
        s.wf(),
        0 <= i < s.slots.len(),
        s.slots[i].command.retries_failure(),
        s.slots[i].finished >= 1,
        all_runs_fail(events, i),
    ensures
        s.run(events).slots.len() == s.slots.len(),
        s.run(events).slots[i].command == s.slots[i].command,
        s.run(events).slots[i].finished >= s.slots[i].finished,
    decreases events.len(),
{
    if events.len() > 0 {
        let head = events.drop_last();
        let last = events.last();
        assert(all_runs_fail(head, i)) by {
            assert forall|k: int| 0 <= k < head.len() implies !is_success_of(
                #[trigger] head[k],
                i,
            ) by {
                assert(head[k] == events[k]);
            }
        }
        lemma_failures_keep_output(s, head, i);
        lemma_run_preserves_wf(s, head);
        let mid = s.run(head);
        assert(mid.slots[i].wf(mid.default_update_delay));
        assert(!is_success_of(events[events.len() - 1], i));
    }
}

/// A command that retries failures, with a delay above zero: in every state
/// that the cycle reaches from startup the command is still in the cycle,
/// and the end of a failed run is always answered with the same wait as
/// before, never with retirement. The failure of the run at startup is
/// cached like any first run; the failure of a later run leaves the command
/// as it was and is reported. So while every run fails, the cached output
/// stays what the first run printed.
pub proof fn law_unignored_failures_retry(
    config: ConfigView,
    events: Seq<EventView>,
    more: Seq<EventView>,
    stdout: Seq<char>,
    i: int,
)
    requires
        0 <= i < config.commands.len(),
        config.commands[i].retries_failure(),
        config.commands[i].effective_delay(config.default_update_delay) > 0,
        all_runs_fail(more, i),
    ensures
        ({
            let s = SchedulerView::initial(config).run(events);
            let failure = EventView::RunFinished { index: i, succeeded: false, stdout };
            let delay = config.commands[i].effective_delay(config.default_update_delay);
            &&& !(s.slots[i].phase is Retired)
            &&& s.slots[i].phase is Running ==> {
                &&& s.step(failure).slots[i].phase == (Phase::Waiting { delay })
                &&& s.reaction(failure).action == (ActionView::Wait { index: i, delay })
            }
            &&& s.slots[i].phase == (Phase::Running { first: true }) ==> {
                &&& s.step(failure).slots[i].command.output == stdout
                &&& s.reaction(failure).notice is None
            }
            &&& s.slots[i].phase == (Phase::Running { first: false }) ==> {
                &&& s.step(failure).slots[i].command == s.slots[i].command
                &&& s.reaction(failure).notice == Some(notice_text(config.commands[i].command))
            }
            &&& s.slots[i].finished >= 1 ==> s.run(more).slots[i].command.output
                == s.slots[i].command.output
        }),
{
    lemma_reachable_wf(config, events);
    let s = SchedulerView::initial(config).run(events);
    assert(s.slots[i].wf(s.default_update_delay));
    assert(config.commands[i].command == s.slots[i].command.command);
    if s.slots[i].finished >= 1 {
        lemma_failures_keep_output(s, more, i);
    }
}

} // verus!
