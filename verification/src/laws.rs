//! What holds of the controller and the relay over whole runs.
//!
//! Each proof function below states one law of the state machine of
//! [`crate::controller`], over the same spec functions as the contracts of the
//! executable functions.

use crate::controller::{idle_expired, EventView, Lifecycle, StateView};
use crate::identity::frame_identity;
use crate::relay::{frame_event, relayed};
use vstd::prelude::*;

verus! {

/// The senders named by at least one event of `events`.
pub open spec fn distinct_senders(events: Seq<EventView>) -> Set<Seq<char>> {
    Set::new(
        |name: Seq<char>|
            exists|i: int| 0 <= i < events.len() && (#[trigger] events[i]).sender == Some(name),
    )
}

/// The state after one cycle without events for each instant of `nows`, the
/// cycles ending at these instants in order.
pub open spec fn quiet_cycles(state: StateView, nows: Seq<u64>, timeout_secs: u64) -> StateView
    decreases nows.len(),
{
    if nows.len() == 0 {
        state
    } else {
        quiet_cycles(state, nows.drop_last(), timeout_secs).run_cycle(
            Seq::empty(),
            nows.last(),
            timeout_secs,
        )
    }
}

/// Taking events changes the state field by field: every event is counted,
/// the last one is the last activity, the named senders join the senders of
/// the cycle, the senders of the cycle before are kept, and after the first
/// event the controller is running.
pub proof fn lemma_on_events(state: StateView, events: Seq<EventView>)
    ensures
        state.on_events(events).cycle_packets == state.cycle_packets + events.len(),
        state.on_events(events).cycle_senders == state.cycle_senders.union(
            distinct_senders(events),
        ),
        state.on_events(events).previous_senders == state.previous_senders,
        events.len() == 0 ==> state.on_events(events) == state,
        events.len() > 0 ==> state.on_events(events).lifecycle == Lifecycle::Running,
        events.len() > 0 ==> state.on_events(events).last_activity == events.last().timestamp,
    decreases events.len(),
{
    if events.len() == 0 {
        assert(state.cycle_senders.union(distinct_senders(events)) =~= state.cycle_senders);
    } else {
        let earlier = events.drop_last();
        let last = events.last();
        lemma_on_events(state, earlier);
        let before = state.on_events(earlier);
        let after = before.on_event(last);
        assert forall|name: Seq<char>|
            after.cycle_senders.contains(name) <==> state.cycle_senders.union(
                distinct_senders(events),
            ).contains(name) by {
            if distinct_senders(earlier).contains(name) {
                let i = choose|i: int|
                    0 <= i < earlier.len() && (#[trigger] earlier[i]).sender == Some(name);
                assert(events[i].sender == Some(name));
            }
            if last.sender == Some(name) {
                assert(events[events.len() - 1].sender == Some(name));
            }
            if distinct_senders(events).contains(name) {
                let i = choose|i: int|
                    0 <= i < events.len() && (#[trigger] events[i]).sender == Some(name);
                if i < earlier.len() {
                    assert(earlier[i].sender == Some(name));
                }
            }
        }
        assert(after.cycle_senders =~= state.cycle_senders.union(distinct_senders(events)));
    }
}

/// Single start edge: however many events arrive, the start command fires
/// once, on the first event, if the controller was idle, and not at all if it
/// was running. After the first event no further event finds it idle.
pub proof fn lemma_single_start(state: StateView, events: Seq<EventView>)
    ensures
        state.start_count(events) == if state.starts() && events.len() > 0 {
            1nat
        } else {
            0nat
        },
        state.starts() && events.len() > 0 ==> state.start_count(events.take(1)) == 1,
        forall|i: int| 0 < i <= events.len() ==> !(#[trigger] state.on_events(events.take(i))).starts(),
    decreases events.len(),
{
    assert forall|i: int| 0 < i <= events.len() implies !(#[trigger] state.on_events(
        events.take(i),
    )).starts() by {
        lemma_on_events(state, events.take(i));
    }
    if events.len() > 0 {
        let earlier = events.drop_last();
        lemma_single_start(state, earlier);
        lemma_on_events(state, earlier);
        if state.starts() {
            let first = events.take(1);
            assert(first.drop_last() =~= Seq::<EventView>::empty());
            assert(state.start_count(first.drop_last()) == 0);
            assert(state.on_events(first.drop_last()) == state);
        }
    }
}

/// A new start edge after a timeout: once the end of a cycle has found the
/// idle timeout expired, the next event fires the start command again,
/// whether or not a finish command is configured.
pub proof fn lemma_start_again_after_timeout(
    state: StateView,
    now: u64,
    timeout_secs: u64,
    later: Seq<EventView>,
)
    requires
        state.times_out(now, timeout_secs),
        later.len() > 0,
    ensures
        state.end_cycle(now, timeout_secs).lifecycle == Lifecycle::Idle,
        state.end_cycle(now, timeout_secs).begin_cycle().start_count(later) == 1,
{
    lemma_single_start(state.end_cycle(now, timeout_secs).begin_cycle(), later);
}

/// Timeout correctness: a running controller that sees no further event
/// stays running through every cycle that ends before the idle timeout has
/// expired, and is idle from the first cycle on that ends at or after it. The
/// last activity is not touched.
pub proof fn lemma_timeout_at_first_expiry(state: StateView, nows: Seq<u64>, timeout_secs: u64)
    requires
        state.lifecycle == Lifecycle::Running,
    ensures
        quiet_cycles(state, nows, timeout_secs).last_activity == state.last_activity,
        quiet_cycles(state, nows, timeout_secs).lifecycle == Lifecycle::Idle <==> exists|i: int|
            0 <= i < nows.len() && idle_expired(#[trigger] nows[i], state.last_activity, timeout_secs),
    decreases nows.len(),
{
    if nows.len() > 0 {
        let earlier = nows.drop_last();
        lemma_timeout_at_first_expiry(state, earlier, timeout_secs);
        let before = quiet_cycles(state, earlier, timeout_secs);
        let after = quiet_cycles(state, nows, timeout_secs);
        assert(before.begin_cycle().on_events(Seq::<EventView>::empty()) == before.begin_cycle());
        if exists|i: int|
            0 <= i < earlier.len() && idle_expired(
                #[trigger] earlier[i],
                state.last_activity,
                timeout_secs,
            ) {
            let i = choose|i: int|
                0 <= i < earlier.len() && idle_expired(
                    #[trigger] earlier[i],
                    state.last_activity,
                    timeout_secs,
                );
            assert(idle_expired(nows[i], state.last_activity, timeout_secs));
        }
        if idle_expired(nows.last(), state.last_activity, timeout_secs) {
            assert(idle_expired(nows[nows.len() - 1], state.last_activity, timeout_secs));
        }
        if after.lifecycle == Lifecycle::Idle && before.lifecycle == Lifecycle::Running {
            assert(idle_expired(nows[nows.len() - 1], state.last_activity, timeout_secs));
        }
        if exists|i: int|
            0 <= i < nows.len() && idle_expired(#[trigger] nows[i], state.last_activity, timeout_secs) {
            let i = choose|i: int|
                0 <= i < nows.len() && idle_expired(
                    #[trigger] nows[i],
                    state.last_activity,
                    timeout_secs,
                );
            if i < earlier.len() {
                assert(idle_expired(earlier[i], state.last_activity, timeout_secs));
            }
        }
    }
}

/// Idempotent reporting: the end of a cycle reports a new number of distinct
/// senders exactly where the senders of this cycle differ, as a set, from
/// those of the cycle before; what is then remembered is the set of this
/// cycle.
pub proof fn lemma_report_on_change(
    state: StateView,
    first: Seq<EventView>,
    first_end: u64,
    second: Seq<EventView>,
    second_end: u64,
    timeout_secs: u64,
)
    ensures
        state.run_cycle(first, first_end, timeout_secs).begin_cycle().on_events(
            second,
        ).reports_clients() <==> distinct_senders(second) != distinct_senders(first),
        state.run_cycle(first, first_end, timeout_secs).begin_cycle().on_events(
            second,
        ).cycle_senders == distinct_senders(second),
        state.run_cycle(first, first_end, timeout_secs).run_cycle(
            second,
            second_end,
            timeout_secs,
        ).previous_senders == distinct_senders(second),
{
    lemma_on_events(state.begin_cycle(), first);
    let between = state.run_cycle(first, first_end, timeout_secs);
    lemma_on_events(between.begin_cycle(), second);
    assert(Set::<Seq<char>>::empty().union(distinct_senders(first)) =~= distinct_senders(first));
    assert(Set::<Seq<char>>::empty().union(distinct_senders(second)) =~= distinct_senders(second));
}

/// No event loss: a burst of frames gives one event for each frame, and the
/// controller counts every one of them, whether it takes the burst in one
/// cycle or, cut anywhere, in two.
pub proof fn lemma_no_event_lost(
    state: StateView,
    frames: Seq<Seq<u8>>,
    stamps: Seq<u64>,
    cut: int,
    cycle_end: u64,
    timeout_secs: u64,
)
    requires
        0 <= cut <= frames.len(),
    ensures
        relayed(frames, stamps).len() == frames.len(),
        state.begin_cycle().on_events(relayed(frames, stamps)).cycle_packets == frames.len(),
        state.begin_cycle().on_events(relayed(frames, stamps).take(cut)).cycle_packets
            + state.run_cycle(
            relayed(frames, stamps).take(cut),
            cycle_end,
            timeout_secs,
        ).begin_cycle().on_events(relayed(frames, stamps).skip(cut)).cycle_packets == frames.len(),
{
    let events = relayed(frames, stamps);
    lemma_on_events(state.begin_cycle(), events);
    lemma_on_events(state.begin_cycle(), events.take(cut));
    lemma_on_events(
        state.run_cycle(events.take(cut), cycle_end, timeout_secs).begin_cycle(),
        events.skip(cut),
    );
}

/// Malformed-frame resilience: a frame without a readable sender still is
/// activity and still is counted, and adds no sender.
pub proof fn lemma_unidentified_frame_counts(state: StateView, frame: Seq<u8>, now: u64)
    requires
        frame_identity(frame) is None,
    ensures
        state.on_event(frame_event(frame, now)).last_activity == now,
        state.on_event(frame_event(frame, now)).cycle_packets == state.cycle_packets + 1,
        state.on_event(frame_event(frame, now)).cycle_senders == state.cycle_senders,
        state.on_event(frame_event(frame, now)).lifecycle == Lifecycle::Running,
{
}

} // verus!
