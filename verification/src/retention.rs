//! Reclaiming the rows of entities that have been closed.
use crate::entity::Closable;
use crate::table::IdData;
use crate::time::Duration;
use crate::time::Timestamp;
use crate::time::elapsed_between;
use vstd::prelude::*;

verus! {

/// Whether a statistics row is to be dropped at `now`. A row that is not
/// closed stays. A closed row goes once it has been closed for longer than
/// `retention`; before that it goes only if subscribers are watching and the
/// row is clean, which means that its last state has been sent to them.
pub open spec fn should_drop(
    closed_at: Option<Timestamp>,
    dirty: bool,
    now: Timestamp,
    retention: Duration,
    has_watchers: bool,
) -> bool {
    match closed_at {
        Some(closed) => (has_watchers && !dirty) || elapsed_between(closed, now).nanos
            > retention.nanos,
        None => false,
    }
}

/// The statistics rows that a retention pass keeps.
pub open spec fn retained_stats<R: Closable>(
    stats: Map<u64, (R::V, bool)>,
    now: Timestamp,
    retention: Duration,
    has_watchers: bool,
) -> Map<u64, (R::V, bool)> {
    stats.restrict(
        Set::new(
            |id: u64|
                !should_drop(
                    R::closed_at_of(stats[id].0),
                    stats[id].1,
                    now,
                    retention,
                    has_watchers,
                ),
        ),
    )
}

/// The identity rows that a retention pass keeps: those that still have
/// statistics.
pub open spec fn retained_entities<V, S>(
    entities: Map<u64, (V, bool)>,
    stats: Map<u64, (S, bool)>,
) -> Map<u64, (V, bool)> {
    entities.restrict(stats.dom())
}

/// Decides at run time whether a statistics row is to be dropped.
pub fn is_droppable(
    closed_at: &Option<Timestamp>,
    dirty: bool,
    now: Timestamp,
    retention: Duration,
    has_watchers: bool,
) -> (drop: bool)
    ensures
        drop == should_drop(*closed_at, dirty, now, retention, has_watchers),
{
    match closed_at {
        Some(closed) => {
            let closed_for = now.saturating_duration_since(*closed);
            (has_watchers && !dirty) || closed_for.nanos > retention.nanos
        },
        None => false,
    }
}

/// Removes the rows in `table` whose ids `keep` does not hold.
pub fn drop_missing<T: View, S: View>(table: &mut IdData<T>, keep: &IdData<S>)
    ensures
        final(table)@ == retained_entities(old(table)@, keep@),
{
    let ids = table.all();
    let mut i: usize = 0;
    while i < ids.len()
        invariant
            i <= ids.len(),
            ids@.to_set() == old(table)@.dom(),
            forall|id: u64| #[trigger]
                table@.contains_key(id) <==> old(table)@.contains_key(id) && (keep@.contains_key(id)
                    || !(exists|j: int| 0 <= j < i && ids@[j] == id)),
            forall|id: u64| #[trigger] table@.contains_key(id) ==> table@[id] == old(table)@[id],
        decreases ids.len() - i,
    {
        let id = ids[i];
        if !keep.contains(id) {
            table.remove(id);
        }
        assert forall|other: u64| #[trigger]
            table@.contains_key(other) <==> old(table)@.contains_key(other) && (keep@.contains_key(
                other,
            ) || !(exists|j: int| 0 <= j < i + 1 && ids@[j] == other)) by {
            if other == id {
                assert(ids@[i as int] == other);
            }
        }
        i = i + 1;
    }
    proof {
        assert forall|id: u64| #[trigger]
            table@.contains_key(id) <==> retained_entities(old(table)@, keep@).contains_key(id) by {
            if old(table)@.contains_key(id) && !keep@.contains_key(id) {
                assert(ids@.to_set().contains(id));
                let j = choose|j: int| 0 <= j < ids@.len() && ids@[j] == id;
                assert(0 <= j < i && ids@[j] == id);
            }
        }
        assert(table@ =~= retained_entities(old(table)@, keep@));
    }
}

/// One retention pass over a kind of entity: drops the statistics rows that
/// are due, then every identity row that is left without statistics.
pub fn drop_closed<T: View, R: Closable>(
    now: Timestamp,
    entities: &mut IdData<T>,
    stats: &mut IdData<R>,
    retention: Duration,
    has_watchers: bool,
)
    ensures
        final(stats)@ == retained_stats::<R>(old(stats)@, now, retention, has_watchers),
        final(entities)@ == retained_entities(old(entities)@, final(stats)@),
{
    let ids = stats.all();
    let mut i: usize = 0;
    while i < ids.len()
        invariant
            i <= ids.len(),
            ids@.to_set() == old(stats)@.dom(),
            forall|id: u64| #[trigger]
                stats@.contains_key(id) <==> old(stats)@.contains_key(id) && !((exists|j: int|
                    0 <= j < i && ids@[j] == id) && should_drop(
                    R::closed_at_of(old(stats)@[id].0),
                    old(stats)@[id].1,
                    now,
                    retention,
                    has_watchers,
                )),
            forall|id: u64| #[trigger] stats@.contains_key(id) ==> stats@[id] == old(stats)@[id],
        decreases ids.len() - i,
    {
        let id = ids[i];
        assert(ids@.to_set().contains(ids@[i as int]));
        let dirty = stats.is_dirty(id);
        let droppable = match stats.get(id) {
            Some(row) => is_droppable(row.closed_at(), dirty, now, retention, has_watchers),
            None => false,
        };
        if droppable {
            stats.remove(id);
        }
        assert forall|other: u64| #[trigger]
            stats@.contains_key(other) <==> old(stats)@.contains_key(other) && !((exists|j: int|
                0 <= j < i + 1 && ids@[j] == other) && should_drop(
                R::closed_at_of(old(stats)@[other].0),
                old(stats)@[other].1,
                now,
                retention,
                has_watchers,
            )) by {
            if other == id {
                assert(ids@[i as int] == other);
            }
        }
        i = i + 1;
    }
    proof {
        let kept = retained_stats::<R>(old(stats)@, now, retention, has_watchers);
        assert forall|id: u64| #[trigger] stats@.contains_key(id) <==> kept.contains_key(id) by {
            if old(stats)@.contains_key(id) {
                assert(ids@.to_set().contains(id));
                let j = choose|j: int| 0 <= j < ids@.len() && ids@[j] == id;
                assert(0 <= j < i && ids@[j] == id);
            }
        }
        assert(stats@ =~= kept);
    }
    drop_missing(entities, stats);
}

} // verus!
