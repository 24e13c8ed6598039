//! From the supervisor to the store: what holds of the whole path.

use crate::metric::EventView;
use crate::store::{applied, applied_all, Snapshot};
use crate::supervisor::{
    emitted, next_state, run_events, run_state, Phase, SignalView, SupervisorView,
};
use vstd::prelude::*;

verus! {

/// Taking two sequences of events in, one after the other, is taking in
/// their concatenation.
pub proof fn lemma_applied_all_concat<V>(
    s: Snapshot<V>,
    a: Seq<EventView<V>>,
    b: Seq<EventView<V>>,
    now: u64,
)
    ensures
        applied_all(s, a + b, now) == applied_all(applied_all(s, a, now), b, now),
    decreases a.len(),
{
    if a.len() > 0 {
        assert((a + b).drop_first() =~= a.drop_first() + b);
        lemma_applied_all_concat(applied(s, a[0], now), a.drop_first(), b, now);
    }
}

/// A store that takes in the events of one step says that the session is
/// up exactly where the supervisor is receiving, if it did so before.
pub proof fn lemma_step_mirrored<V>(
    sup: SupervisorView,
    signal: SignalView<V>,
    store: Snapshot<V>,
    now: u64,
)
    requires
        store.connected == (sup.phase == Phase::Receiving),
    ensures
        applied_all(store, emitted(sup, signal), now).connected == (next_state(sup, signal).phase
            == Phase::Receiving),
{
    reveal_with_fuel(applied_all, 3);
}

/// However the session goes, a store that takes in everything the
/// supervisor emits says that the session is up exactly where the
/// supervisor is receiving.
pub proof fn lemma_store_mirrors_session<V>(
    sup: SupervisorView,
    signals: Seq<SignalView<V>>,
    store: Snapshot<V>,
    now: u64,
)
    requires
        store.connected == (sup.phase == Phase::Receiving),
    ensures
        applied_all(store, run_events(sup, signals), now).connected == (run_state(
            sup,
            signals,
        ).phase == Phase::Receiving),
    decreases signals.len(),
{
    if signals.len() > 0 {
        let before = signals.drop_last();
        lemma_store_mirrors_session(sup, before, store, now);
        lemma_applied_all_concat(
            store,
            run_events(sup, before),
            emitted(run_state(sup, before), signals.last()),
            now,
        );
        lemma_step_mirrored(
            run_state(sup, before),
            signals.last(),
            applied_all(store, run_events(sup, before), now),
            now,
        );
    }
}

} // verus!
