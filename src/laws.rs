//! Properties of runs of grid steps.
use vstd::prelude::*;

use crate::simulation::Simulation;

verus! {

/// Each state of `run` is the one before it after one grid step.
pub open spec fn is_run(run: Seq<Simulation>) -> bool {
    forall|i: int| 0 <= i < run.len() - 1 ==> #[trigger] Simulation::is_step(&run[i], &run[i + 1])
}

/// A grid step changes the number of waypoints by at most one: it adds one
/// exactly when it resolves the oldest growth marker, and otherwise keeps it.
pub proof fn lemma_step_length(pre: Simulation, post: Simulation)
    requires
        pre.wf(),
        Simulation::is_step(&pre, &post),
    ensures
        post.path_seq().len() == pre.path_seq().len() + (if pre.grows_next() {
            1int
        } else {
            0int
        }),
        post.segments() == pre.segments() + (if pre.grows_next() {
            1int
        } else {
            0int
        }),
{
}

/// Along a run, while the oldest marker is not yet due, the path keeps its
/// length and that marker stays in front, one step further from the head
/// after each grid step.
proof fn lemma_front_marker_advances(run: Seq<Simulation>, i: int)
    requires
        is_run(run),
        forall|k: int| 0 <= k < run.len() ==> #[trigger] run[k].wf(),
        run[0].marker_seq().len() > 0,
        0 <= i < run.len(),
        i <= run[0].tail_index() - run[0].marker_seq()[0],
    ensures
        run[i].marker_seq().len() > 0,
        run[i].marker_seq()[0] == run[0].marker_seq()[0] + i,
        run[i].path_seq().len() == run[0].path_seq().len(),
    decreases i,
{
    if i > 0 {
        let j = i - 1;
        lemma_front_marker_advances(run, j);
        let pre = run[j];
        assert(Simulation::is_step(&run[j], &run[j + 1]));
        assert(pre.wf());
        assert(!pre.grows_next());
        assert(run[i].marker_seq()[0] == pre.markers_after_step()[0]);
    }
}

/// The oldest growth marker, recorded at `m` while the tail index is `t`, is
/// resolved by exactly the `t - m + 1`-th grid step from then on: the grid
/// steps before it keep the number of segments, and that step adds exactly
/// one segment.
pub proof fn lemma_marker_resolved_on_time(run: Seq<Simulation>)
    requires
        run.len() > 0,
        is_run(run),
        forall|k: int| 0 <= k < run.len() ==> #[trigger] run[k].wf(),
        run[0].marker_seq().len() > 0,
        run.len() == run[0].tail_index() - run[0].marker_seq()[0] + 2,
    ensures
        forall|k: int| 0 <= k < run.len() - 2 ==> !(#[trigger] run[k].grows_next()),
        forall|k: int| 0 <= k < run.len() - 1 ==> #[trigger] run[k].segments() == run[0].segments(),
        run[run.len() - 2].grows_next(),
        run[run.len() - 1].segments() == run[0].segments() + 1,
{
    assert(run[0].wf());
    let n = run.len() - 2;
    assert forall|k: int| 0 <= k < run.len() - 1 implies #[trigger] run[k].segments()
        == run[0].segments() by {
        lemma_front_marker_advances(run, k);
    }
    assert forall|k: int| 0 <= k < run.len() - 2 implies !(#[trigger] run[k].grows_next()) by {
        lemma_front_marker_advances(run, k);
    }
    lemma_front_marker_advances(run, n);
    assert(Simulation::is_step(&run[n], &run[n + 1]));
    lemma_step_length(run[n], run[n + 1]);
}

} // verus!
