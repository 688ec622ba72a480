//! The sink of the pipeline: lets a snapshot through only if it is newer
//! than every snapshot let through before.
//!
//! Fetch cycles started by successive notifications can finish out of
//! order, so a snapshot may arrive after a newer one. Such a snapshot, and
//! a repeat of the newest one, is dropped without a trace.

use crate::snapshot::TemplateSnapshot;
use vstd::prelude::*;

verus! {

/// The consumer's state: the height of the last snapshot it accepted, or 0
/// while it has accepted none. No valid height is that low.
#[derive(Debug)]
pub struct StalenessFilter {
    last_accepted_height: u64,
}

impl View for StalenessFilter {
    type V = nat;

    closed spec fn view(&self) -> nat {
        self.last_accepted_height as nat
    }
}

impl StalenessFilter {
    /// The state of a consumer that has accepted nothing yet.
    pub fn new() -> (filter: Self)
        ensures
            filter@ == 0,
    {
        StalenessFilter { last_accepted_height: 0 }
    }

    /// Height of the last accepted snapshot.
    pub fn last_accepted_height(&self) -> (height: u64)
        ensures
            height == self@,
    {
        self.last_accepted_height
    }
}

/// The staleness rule: a snapshot is accepted exactly if its height exceeds
/// the last accepted one, which it then replaces. The result is the new
/// last accepted height and the snapshot if it was accepted.
pub open spec fn consumer_step<P>(last_accepted: nat, snapshot: TemplateSnapshot<P>) -> (
    nat,
    Option<TemplateSnapshot<P>>,
) {
    if snapshot.height > last_accepted {
        (snapshot.height as nat, Some(snapshot))
    } else {
        (last_accepted, None)
    }
}

/// Handles one snapshot received from the delivery channel. Returns it if
/// it is accepted, for the caller to act on, and `None` if it is dropped.
pub fn consumer<P>(filter: &mut StalenessFilter, snapshot: TemplateSnapshot<P>) -> (accepted:
    Option<TemplateSnapshot<P>>)
    ensures
        (final(filter)@, accepted) == consumer_step(old(filter)@, snapshot),
{
    if snapshot.height > filter.last_accepted_height {
        filter.last_accepted_height = snapshot.height;
        Some(snapshot)
    } else {
        None
    }
}

/// What a consumer has done after a sequence of snapshots.
pub struct ConsumerRun<P> {
    /// Height of the last accepted snapshot.
    pub last_accepted: nat,
    /// The accepted snapshots, in the order they arrived.
    pub accepted: Seq<TemplateSnapshot<P>>,
}

/// Runs a consumer whose last accepted height is `last_accepted` over the
/// snapshots the channel delivers, first to last.
pub open spec fn consumer_run_from<P>(last_accepted: nat, snapshots: Seq<TemplateSnapshot<P>>)
    -> ConsumerRun<P>
    decreases snapshots.len(),
{
    if snapshots.len() == 0 {
        ConsumerRun { last_accepted, accepted: Seq::empty() }
    } else {
        let before = consumer_run_from(last_accepted, snapshots.drop_last());
        match consumer_step(before.last_accepted, snapshots.last()) {
            (last_accepted, Some(snapshot)) => ConsumerRun {
                last_accepted,
                accepted: before.accepted.push(snapshot),
            },
            (last_accepted, None) => ConsumerRun { last_accepted, accepted: before.accepted },
        }
    }
}

/// Runs a fresh consumer over the snapshots the channel delivers.
pub open spec fn consumer_run<P>(snapshots: Seq<TemplateSnapshot<P>>) -> ConsumerRun<P> {
    consumer_run_from(0, snapshots)
}

/// The height at index `i` exceeds `floor` and every height before it.
pub open spec fn is_new_high<P>(floor: nat, snapshots: Seq<TemplateSnapshot<P>>, i: int) -> bool {
    &&& snapshots[i].height > floor
    &&& forall|j: int| 0 <= j < i ==> (#[trigger] snapshots[j]).height < snapshots[i].height
}

/// The last accepted height is the running maximum: it is never below where
/// it started, never below a height that has been received, and is either
/// where it started or one of the received heights.
pub proof fn law_last_accepted_is_maximum<P>(last_accepted: nat, snapshots: Seq<TemplateSnapshot<P>>)
    ensures
        consumer_run_from(last_accepted, snapshots).last_accepted >= last_accepted,
        forall|i: int|
            0 <= i < snapshots.len() ==> (#[trigger] snapshots[i]).height <= consumer_run_from(
                last_accepted,
                snapshots,
            ).last_accepted,
        consumer_run_from(last_accepted, snapshots).last_accepted == last_accepted || exists|
            i: int,
        |
            0 <= i < snapshots.len() && (#[trigger] snapshots[i]).height == consumer_run_from(
                last_accepted,
                snapshots,
            ).last_accepted,
    decreases snapshots.len(),
{
    if snapshots.len() > 0 {
        let earlier = snapshots.drop_last();
        let before = consumer_run_from(last_accepted, earlier);
        let after = consumer_run_from(last_accepted, snapshots);
        law_last_accepted_is_maximum(last_accepted, earlier);
        assert forall|i: int| 0 <= i < snapshots.len() implies (#[trigger] snapshots[i]).height
            <= after.last_accepted by {
            if i < earlier.len() {
                assert(earlier[i] == snapshots[i]);
            }
        }
        if after.last_accepted != last_accepted {
            if snapshots.last().height > before.last_accepted {
                assert(snapshots[snapshots.len() - 1].height == after.last_accepted);
            } else {
                let i: int = choose|i: int|
                    0 <= i < earlier.len() && (#[trigger] earlier[i]).height
                        == before.last_accepted;
                assert(snapshots[i].height == after.last_accepted);
            }
        }
    }
}

/// The last accepted height never decreases over the lifetime of a
/// consumer: after more snapshots it is at least what it was after fewer.
pub proof fn law_last_accepted_never_decreases<P>(
    last_accepted: nat,
    earlier: Seq<TemplateSnapshot<P>>,
    later: Seq<TemplateSnapshot<P>>,
)
    ensures
        consumer_run_from(last_accepted, earlier).last_accepted <= consumer_run_from(
            last_accepted,
            earlier + later,
        ).last_accepted,
    decreases later.len(),
{
    if later.len() == 0 {
        assert(earlier + later =~= earlier);
    } else {
        assert((earlier + later).drop_last() =~= earlier + later.drop_last());
        law_last_accepted_never_decreases(last_accepted, earlier, later.drop_last());
    }
}

/// A snapshot is accepted exactly if its height is a new high: above the
/// height the consumer started from and above every height received
/// before it. It then goes to the end of the accepted snapshots.
pub proof fn law_accepts_exactly_new_highs<P>(
    last_accepted: nat,
    earlier: Seq<TemplateSnapshot<P>>,
    snapshot: TemplateSnapshot<P>,
)
    ensures
        consumer_run_from(last_accepted, earlier.push(snapshot)).accepted == (if is_new_high(
            last_accepted,
            earlier.push(snapshot),
            earlier.len() as int,
        ) {
            consumer_run_from(last_accepted, earlier).accepted.push(snapshot)
        } else {
            consumer_run_from(last_accepted, earlier).accepted
        }),
{
    let all = earlier.push(snapshot);
    let before = consumer_run_from(last_accepted, earlier);
    assert(all.drop_last() =~= earlier);
    assert(all.last() == snapshot);
    law_last_accepted_is_maximum(last_accepted, earlier);
    if snapshot.height > before.last_accepted {
        assert forall|j: int| 0 <= j < earlier.len() implies (#[trigger] all[j]).height
            < all[earlier.len() as int].height by {
            assert(all[j] == earlier[j]);
        }
    } else if before.last_accepted != last_accepted {
        let i: int = choose|i: int|
            0 <= i < earlier.len() && (#[trigger] earlier[i]).height == before.last_accepted;
        assert(all[i] == earlier[i]);
    }
}

/// The accepted snapshots have strictly increasing heights, all above the
/// height the consumer started from, and the last of them carries the last
/// accepted height.
pub proof fn law_accepted_heights_increase<P>(
    last_accepted: nat,
    snapshots: Seq<TemplateSnapshot<P>>,
)
    ensures
        forall|i: int, j: int|
            0 <= i < j < consumer_run_from(last_accepted, snapshots).accepted.len() ==> (
            #[trigger] consumer_run_from(last_accepted, snapshots).accepted[i]).height < (
            #[trigger] consumer_run_from(last_accepted, snapshots).accepted[j]).height,
        forall|i: int|
            0 <= i < consumer_run_from(last_accepted, snapshots).accepted.len() ==> (
            #[trigger] consumer_run_from(last_accepted, snapshots).accepted[i]).height
                > last_accepted,
        consumer_run_from(last_accepted, snapshots).accepted.len() > 0 ==> consumer_run_from(
            last_accepted,
            snapshots,
        ).accepted.last().height == consumer_run_from(last_accepted, snapshots).last_accepted,
        consumer_run_from(last_accepted, snapshots).accepted.len() == 0 ==> consumer_run_from(
            last_accepted,
            snapshots,
        ).last_accepted == last_accepted,
    decreases snapshots.len(),
{
    if snapshots.len() > 0 {
        law_accepted_heights_increase(last_accepted, snapshots.drop_last());
    }
}

} // verus!
