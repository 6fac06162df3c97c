//! What holds of every run, whatever the store, the network and the disk do.
//! A run is the state that `start_model` gives, moved by any sequence of
//! events through `step_model`.

use crate::catalog::resolved_catalog;
use crate::config::ConfigView;
use crate::order::{arranged, ascending, lemma_arranged_same_videos};
use crate::machine::{
    lemma_start_well_formed, lemma_step_well_formed, start_model, step_model, ActionView,
    EventView, Failure, OutcomeView, Phase, RunView,
};
use crate::select::{lemma_selection_exact, selection, wanted};
use crate::time::Timestamp;
use vstd::prelude::*;

verus! {

/// The state of a run after the given events, in their order.
pub open spec fn state_after(s: RunView, events: Seq<EventView>) -> RunView
    decreases events.len(),
{
    if events.len() == 0 {
        s
    } else {
        step_model(state_after(s, events.drop_last()), events.last()).0
    }
}

/// The action with which a run answers the event at position `i`.
pub open spec fn answer(s: RunView, events: Seq<EventView>, i: int) -> ActionView {
    step_model(state_after(s, events.take(i)), events[i]).1
}

/// The action reaches out to the network.
pub open spec fn uses_network(action: ActionView) -> bool {
    action is Fetch || action is Request
}

/// The action writes to the store, the library directory or the log file.
pub open spec fn writes(action: ActionView) -> bool {
    action is Persist || action is Create || action is Stream || action is Remove
        || action is WriteLog
}

/// Both records agree in everything but the checkpoint and the lock.
pub open spec fn same_settings(a: ConfigView, b: ConfigView) -> bool {
    &&& a.library_path == b.library_path
    &&& a.api_key == b.api_key
    &&& a.exclude_patterns == b.exclude_patterns
    &&& a.resolution == b.resolution
    &&& a.log_path == b.log_path
}

/// The checkpoint that the downloads so far have reached: the publish time of
/// the last video downloaded, or the checkpoint before the run where none was.
pub open spec fn progress(s: RunView, before: ConfigView) -> Timestamp {
    if s.done == 0 {
        before.checkpoint_time
    } else {
        s.queue[s.done - 1].publish_time
    }
}

/// What holds of every state of a run that began at `now` with the record
/// `before`, whose lock was free.
pub open spec fn consistent(s: RunView, before: ConfigView, now: Timestamp) -> bool {
    &&& !before.locked
    &&& s.well_formed()
    &&& s.started_at == now
    &&& same_settings(s.config, before)
    &&& s.phase != Phase::Bootstrapping && s.phase != Phase::Unconfigured && s.phase
        != Phase::Skipped
    &&& forall|i: int|
        0 <= i < s.queue.len() ==> wanted(
            #[trigger] s.queue[i],
            before.checkpoint_time,
            before.exclude_patterns,
        )
    &&& if s.phase == Phase::Finishing || s.phase == Phase::Finished {
        s.config.checkpoint_time == now
    } else if s.phase == Phase::Halted {
        s.config.checkpoint_time == now || s.config.checkpoint_time == progress(s, before)
    } else {
        s.config.checkpoint_time == progress(s, before)
    }
}

/// Every state of every run is well-formed, whatever record it began with.
pub proof fn lemma_run_well_formed(
    loaded: Option<ConfigView>,
    now: Timestamp,
    events: Seq<EventView>,
)
    ensures
        state_after(start_model(loaded, now).0, events).well_formed(),
    decreases events.len(),
{
    if events.len() == 0 {
        lemma_start_well_formed(loaded, now);
    } else {
        lemma_run_well_formed(loaded, now, events.drop_last());
        lemma_step_well_formed(
            state_after(start_model(loaded, now).0, events.drop_last()),
            events.last(),
        );
    }
}

/// A run that finds the lock free begins in a consistent state.
pub proof fn lemma_start_consistent(before: ConfigView, now: Timestamp)
    requires
        !before.locked,
    ensures
        consistent(start_model(Some(before), now).0, before, now),
{
    lemma_start_well_formed(Some(before), now);
}

/// No event takes a run out of the consistent states.
pub proof fn lemma_step_consistent(
    s: RunView,
    e: EventView,
    before: ConfigView,
    now: Timestamp,
)
    requires
        consistent(s, before, now),
    ensures
        consistent(step_model(s, e).0, before, now),
{
    let next = step_model(s, e).0;
    lemma_step_well_formed(s, e);
    if s.phase == Phase::Fetching {
        if let EventView::Catalog(records) = e {
            if let Ok(videos) = resolved_catalog(records) {
                let chosen = selection(videos, before.checkpoint_time, before.exclude_patterns);
                let queued = RunView { queue: arranged(chosen), done: 0, ..s };
                assert(next.queue == queued.queue);
                lemma_arranged_same_videos(chosen);
                assert forall|i: int| 0 <= i < next.queue.len() implies wanted(
                    #[trigger] next.queue[i],
                    before.checkpoint_time,
                    before.exclude_patterns,
                ) by {
                    assert(next.queue.contains(next.queue[i]));
                    lemma_selection_exact(
                        videos,
                        before.checkpoint_time,
                        before.exclude_patterns,
                        next.queue[i],
                    );
                }
            }
        }
    }
}

/// Every state of a run that found the lock free is consistent.
pub proof fn lemma_run_consistent(before: ConfigView, now: Timestamp, events: Seq<EventView>)
    requires
        !before.locked,
    ensures
        consistent(state_after(start_model(Some(before), now).0, events), before, now),
    decreases events.len(),
{
    if events.len() == 0 {
        lemma_start_consistent(before, now);
    } else {
        lemma_run_consistent(before, now, events.drop_last());
        lemma_step_consistent(
            state_after(start_model(Some(before), now).0, events.drop_last()),
            events.last(),
            before,
            now,
        );
    }
}

/// A run that is over stays as it is and asks for nothing more.
pub proof fn lemma_over_is_final(s: RunView, events: Seq<EventView>)
    requires
        s.is_over(),
    ensures
        state_after(s, events) == s,
        forall|i: int| 0 <= i < events.len() ==> answer(s, events, i) == ActionView::Ignore,
    decreases events.len(),
{
    if events.len() > 0 {
        lemma_over_is_final(s, events.drop_last());
    }
    assert forall|i: int| 0 <= i < events.len() implies answer(s, events, i)
        == ActionView::Ignore by {
        lemma_over_is_final(s, events.take(i));
    }
}

/// Events given one batch after another move a run as the same events given at once.
pub proof fn lemma_events_compose(s: RunView, first: Seq<EventView>, second: Seq<EventView>)
    ensures
        state_after(s, first + second) == state_after(state_after(s, first), second),
    decreases second.len(),
{
    if second.len() == 0 {
        assert(first + second =~= first);
    } else {
        assert((first + second).drop_last() =~= first + second.drop_last());
        lemma_events_compose(s, first, second.drop_last());
    }
}

/// A run that has left the phase in which it takes the lock never comes back to it.
pub proof fn lemma_lock_is_taken_once(s: RunView, events: Seq<EventView>)
    requires
        s.phase != Phase::Locking,
    ensures
        state_after(s, events).phase != Phase::Locking,
    decreases events.len(),
{
    if events.len() > 0 {
        lemma_lock_is_taken_once(s, events.drop_last());
    }
}

/// A run asks for the catalogue at most once, whatever record it began with.
pub proof fn lemma_one_fetch_per_run(
    loaded: Option<ConfigView>,
    now: Timestamp,
    events: Seq<EventView>,
    i: int,
    j: int,
)
    requires
        0 <= i < j < events.len(),
    ensures
        !(answer(start_model(loaded, now).0, events, i) is Fetch && answer(
            start_model(loaded, now).0,
            events,
            j,
        ) is Fetch),
{
    let s = start_model(loaded, now).0;
    if answer(s, events, i) is Fetch {
        let fetching = step_model(state_after(s, events.take(i)), events[i]).0;
        assert(fetching.phase == Phase::Fetching);
        assert(events.take(i + 1).drop_last() =~= events.take(i));
        assert(events.take(i + 1).last() == events[i]);
        assert(state_after(s, events.take(i + 1)) == fetching);
        let between = events.subrange(i + 1, j);
        assert(events.take(i + 1) + between =~= events.take(j));
        lemma_events_compose(s, events.take(i + 1), between);
        lemma_lock_is_taken_once(fetching, between);
    }
}

/// A run that finishes has downloaded every video that it queued, and
/// nothing has failed.
pub proof fn lemma_finished_means_all_downloaded(
    before: ConfigView,
    now: Timestamp,
    events: Seq<EventView>,
)
    requires
        !before.locked,
        state_after(start_model(Some(before), now).0, events).phase == Phase::Finished,
    ensures
        ({
            let s = state_after(start_model(Some(before), now).0, events);
            s.done == s.queue.len() && s.failure is None
        }),
{
    lemma_run_consistent(before, now, events);
}

/// A run that finds no record persists the placeholder and goes no further:
/// it asks for no request and touches neither the library nor the log.
pub proof fn lemma_first_use_goes_no_further(now: Timestamp, events: Seq<EventView>)
    ensures
        start_model(None, now).1 == (ActionView::Persist { config: ConfigView::placeholder(now) }),
        state_after(start_model(None, now).0, events).config == ConfigView::placeholder(now),
        forall|i: int|
            0 <= i < events.len() ==> ({
                let action = #[trigger] answer(start_model(None, now).0, events, i);
                action is Report || action is Ignore
            }),
    decreases events.len(),
{
    let s = start_model(None, now).0;
    lemma_first_use_phases(now, events);
    assert forall|i: int| 0 <= i < events.len() implies ({
        let action = #[trigger] answer(s, events, i);
        action is Report || action is Ignore
    }) by {
        lemma_first_use_phases(now, events.take(i));
    }
}

/// On first use a run is only ever writing the placeholder, done with it, or halted.
proof fn lemma_first_use_phases(now: Timestamp, events: Seq<EventView>)
    ensures
        ({
            let s = state_after(start_model(None, now).0, events);
            &&& s.config == ConfigView::placeholder(now)
            &&& s.phase == Phase::Bootstrapping || s.phase == Phase::Unconfigured || s.phase
                == Phase::Halted
        }),
    decreases events.len(),
{
    if events.len() > 0 {
        lemma_first_use_phases(now, events.drop_last());
    }
}

/// A run that finds the lock held reports that another run is active and
/// does nothing else, whatever events it is given: it asks for no request, no
/// write, and the record it holds stays the one that was loaded.
pub proof fn lemma_held_lock_stops_the_run(
    config: ConfigView,
    now: Timestamp,
    events: Seq<EventView>,
)
    requires
        config.locked,
    ensures
        start_model(Some(config), now).1 == ActionView::Report(OutcomeView::AlreadyRunning),
        state_after(start_model(Some(config), now).0, events).phase == Phase::Skipped,
        state_after(start_model(Some(config), now).0, events).config == config,
        forall|i: int|
            0 <= i < events.len() ==> !uses_network(
                #[trigger] answer(start_model(Some(config), now).0, events, i),
            ) && !writes(answer(start_model(Some(config), now).0, events, i)),
{
    let s = start_model(Some(config), now).0;
    lemma_over_is_final(s, events);
}

/// After a successful run the checkpoint is the reading of the clock taken
/// when the run began. Where that reading is not earlier than the checkpoint
/// before the run, the checkpoint has not moved back.
pub proof fn lemma_checkpoint_after_success(
    before: ConfigView,
    now: Timestamp,
    events: Seq<EventView>,
)
    requires
        !before.locked,
        state_after(start_model(Some(before), now).0, events).phase == Phase::Finished,
    ensures
        state_after(start_model(Some(before), now).0, events).config.checkpoint_time == now,
        now.is_at_or_after(before.checkpoint_time) ==> state_after(
            start_model(Some(before), now).0,
            events,
        ).config.checkpoint_time.is_at_or_after(before.checkpoint_time),
{
    lemma_run_consistent(before, now, events);
}

/// A run that is aborted before it has downloaded any video leaves the
/// checkpoint where it was before the run.
pub proof fn lemma_checkpoint_after_early_abort(
    before: ConfigView,
    now: Timestamp,
    events: Seq<EventView>,
)
    requires
        !before.locked,
        state_after(start_model(Some(before), now).0, events).phase == Phase::Aborted,
        state_after(start_model(Some(before), now).0, events).done == 0,
    ensures
        state_after(start_model(Some(before), now).0, events).config.checkpoint_time
            == before.checkpoint_time,
{
    lemma_run_consistent(before, now, events);
}

/// A run that is aborted after it has downloaded videos leaves the checkpoint
/// at the publish time of the last of them, which is later than the
/// checkpoint before the run: the next run takes up where this one failed.
pub proof fn lemma_checkpoint_after_late_abort(
    before: ConfigView,
    now: Timestamp,
    events: Seq<EventView>,
)
    requires
        !before.locked,
        state_after(start_model(Some(before), now).0, events).phase == Phase::Aborted,
        state_after(start_model(Some(before), now).0, events).done > 0,
    ensures
        ({
            let s = state_after(start_model(Some(before), now).0, events);
            &&& s.done <= s.queue.len()
            &&& s.config.checkpoint_time == s.queue[s.done - 1].publish_time
            &&& s.config.checkpoint_time.is_after(before.checkpoint_time)
        }),
{
    lemma_run_consistent(before, now, events);
    let s = state_after(start_model(Some(before), now).0, events);
    assert(wanted(s.queue[s.done - 1], before.checkpoint_time, before.exclude_patterns));
}

/// Every record that a run asks to persist is the record it holds after
/// that step. It keeps the settings of the record that the run began with,
/// and where the clock reading taken at the start is not earlier than the
/// checkpoint before the run, its checkpoint has not moved back.
pub proof fn lemma_persisted_records(
    before: ConfigView,
    now: Timestamp,
    events: Seq<EventView>,
    i: int,
)
    requires
        !before.locked,
        0 <= i < events.len(),
    ensures
        answer(start_model(Some(before), now).0, events, i) matches ActionView::Persist {
            config,
        } ==> {
            &&& config == state_after(start_model(Some(before), now).0, events.take(i + 1)).config
            &&& same_settings(config, before)
            &&& now.is_at_or_after(before.checkpoint_time) ==> config.checkpoint_time.is_at_or_after(
                before.checkpoint_time,
            )
        },
{
    let s = start_model(Some(before), now).0;
    assert(events.take(i + 1).drop_last() =~= events.take(i));
    assert(events.take(i + 1).last() == events[i]);
    lemma_run_consistent(before, now, events.take(i + 1));
    let next = state_after(s, events.take(i + 1));
    if next.done > 0 {
        assert(wanted(next.queue[next.done - 1], before.checkpoint_time, before.exclude_patterns));
    }
}

/// A run that ends as finished, as aborted, or with the placeholder written
/// leaves the lock released in the record it holds, which is the record it
/// persisted last. (A run that was skipped never took the lock, and a run
/// that halted could not write the record.)
pub proof fn lemma_lock_released(
    loaded: Option<ConfigView>,
    now: Timestamp,
    events: Seq<EventView>,
)
    requires
        ({
            let s = state_after(start_model(loaded, now).0, events);
            s.phase == Phase::Finished || s.phase == Phase::Aborted || s.phase
                == Phase::Unconfigured
        }),
    ensures
        !state_after(start_model(loaded, now).0, events).config.locked,
{
    lemma_run_well_formed(loaded, now, events);
}

/// A run that ends as finished or aborted leaves no partly written file,
/// unless it ended because such a file could not be removed.
pub proof fn lemma_no_partial_file(before: ConfigView, now: Timestamp, events: Seq<EventView>)
    requires
        !before.locked,
        ({
            let s = state_after(start_model(Some(before), now).0, events);
            (s.phase == Phase::Finished || s.phase == Phase::Aborted) && s.failure != Some(
                Failure::RemovePartial,
            )
        }),
    ensures
        !state_after(start_model(Some(before), now).0, events).partial_file,
{
    lemma_run_consistent(before, now, events);
}

/// Every video that a run queues was published after the checkpoint before
/// the run and is not excluded by name, and the queue is in ascending order
/// of publish time.
pub proof fn lemma_queue_is_wanted(
    before: ConfigView,
    now: Timestamp,
    events: Seq<EventView>,
    i: int,
)
    requires
        !before.locked,
        0 <= i < state_after(start_model(Some(before), now).0, events).queue.len(),
    ensures
        wanted(
            state_after(start_model(Some(before), now).0, events).queue[i],
            before.checkpoint_time,
            before.exclude_patterns,
        ),
        ascending(state_after(start_model(Some(before), now).0, events).queue),
{
    lemma_run_consistent(before, now, events);
}

} // verus!
