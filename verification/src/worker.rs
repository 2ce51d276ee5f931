//! Model of the cursor-recenter worker: an independently scheduled loop
//! that warps the cursor to a fixed target at each wake-up until it
//! observes its stop flag, then terminates without warping again. The
//! target is copied in at creation and never changes; the stop flag is the
//! only shared state, written once by the controller and only read here.
//! The host runs the actual loop (the X11 warp calls and the sleeps) and
//! drives this state one step per wake-up.

use vstd::prelude::*;

verus! {

/// The worker's control state: its immutable target and whether it has
/// observed the stop flag.
#[derive(Clone, Copy, PartialEq, Eq, Structural, Debug)]
pub struct WarpWorker {
    pub target_x: i64,
    pub target_y: i64,
    pub stopped: bool,
}

impl WarpWorker {
    /// A worker freshly started at a target.
    pub fn start(target_x: i64, target_y: i64) -> (w: WarpWorker)
        ensures
            w == (WarpWorker { target_x, target_y, stopped: false }),
    {
        WarpWorker { target_x, target_y, stopped: false }
    }

    /// The state after one wake-up that read the stop flag: once stopped,
    /// stopped for good.
    pub open spec fn spec_step(self, stop_flag: bool) -> WarpWorker {
        WarpWorker { stopped: self.stopped || stop_flag, ..self }
    }

    /// One wake-up: read the stop flag and decide. Warps exactly when the
    /// flag has still not been observed; the target never changes.
    pub fn step(&mut self, stop_flag: bool) -> (warp: bool)
        ensures
            *final(self) == old(self).spec_step(stop_flag),
            warp == !final(self).stopped,
    {
        if stop_flag {
            self.stopped = true;
        }
        !self.stopped
    }
}

/// The worker state after a whole sequence of stop-flag readings.
pub open spec fn spec_worker_run(w: WarpWorker, stops: Seq<bool>) -> WarpWorker
    decreases stops.len(),
{
    if stops.len() == 0 {
        w
    } else {
        spec_worker_run(w, stops.drop_last()).spec_step(stops.last())
    }
}

/// Whether the worker warps at each wake-up of a sequence.
pub open spec fn spec_worker_warps(w: WarpWorker, stops: Seq<bool>) -> Seq<bool> {
    Seq::new(stops.len(), |i: int| !spec_worker_run(w, stops.take(i + 1)).stopped)
}

/// A run ends stopped exactly when it started stopped or some reading saw
/// the flag set.
proof fn lemma_worker_run_stopped(w: WarpWorker, stops: Seq<bool>)
    ensures
        spec_worker_run(w, stops).stopped == (w.stopped || exists|k: int|
            0 <= k < stops.len() && stops[k]),
        spec_worker_run(w, stops).target_x == w.target_x,
        spec_worker_run(w, stops).target_y == w.target_y,
    decreases stops.len(),
{
    if stops.len() > 0 {
        lemma_worker_run_stopped(w, stops.drop_last());
        let prefix = stops.drop_last();
        if spec_worker_run(w, stops).stopped {
            if !w.stopped {
                if stops.last() {
                    assert(stops[stops.len() - 1]);
                } else {
                    let k = choose|k: int| 0 <= k < prefix.len() && prefix[k];
                    assert(stops[k]);
                }
            }
        } else {
            assert forall|k: int| 0 <= k < stops.len() implies !stops[k] by {
                if k < stops.len() - 1 {
                    assert(prefix[k] == stops[k]);
                }
            }
        }
    }
}

/// The shutdown law: once some wake-up has seen the stop flag set (or the
/// worker was already stopped), no warp happens at that wake-up or any
/// later one.
pub proof fn lemma_no_warp_after_stop(w: WarpWorker, stops: Seq<bool>, i: int, j: int)
    requires
        0 <= i <= j < stops.len(),
        w.stopped || stops[i],
    ensures
        !spec_worker_warps(w, stops)[j],
{
    lemma_worker_run_stopped(w, stops.take(j + 1));
    if !w.stopped {
        assert(stops.take(j + 1)[i] == stops[i]);
    }
}

} // verus!
