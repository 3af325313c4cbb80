//! Decisions of the time-marching driver: when to take another step and how
//! a run ends.
use vstd::prelude::*;

verus! {

/// Bookkeeping of one time-marching run.
///
/// The caller performs each step and reports its residual and whether that
/// residual fell below the tolerance; the driver keeps the residual history and
/// decides when the run is over: on convergence, after `max_iter` steps, or on
/// cancellation between steps.
pub struct MarchDriver<R> {
    max_iter: usize,
    history: Vec<R>,
    converged: bool,
    cancelled: bool,
}

/// How a run ended, or the one-shot result of a closed-form solve.
pub struct SolveOutcome<R> {
    /// Residual of each step taken, in order.
    pub residual_history: Vec<R>,
    /// The last step's residual fell below the tolerance.
    pub converged: bool,
    /// Number of steps taken.
    pub iterations: usize,
}

impl<R> SolveOutcome<R> {
    /// One iteration counted per recorded residual.
    pub open spec fn wf(&self) -> bool {
        self.iterations == self.residual_history@.len()
    }

    /// The outcome of a closed-form solve: one residual, `residual`, and
    /// converged after a single iteration.
    pub fn instant(residual: R) -> (r: SolveOutcome<R>)
        ensures
            r.wf(),
            r.residual_history@ == seq![residual],
            r.converged,
            r.iterations == 1,
    {
        let mut residual_history: Vec<R> = Vec::with_capacity(1);
        residual_history.push(residual);
        SolveOutcome { residual_history, converged: true, iterations: 1 }
    }
}

impl<R> MarchDriver<R> {
    /// Most steps the run may take.
    pub closed spec fn spec_max_iter(&self) -> usize {
        self.max_iter
    }

    /// Residuals recorded so far.
    pub closed spec fn spec_history(&self) -> Seq<R> {
        self.history@
    }

    /// The last recorded step fell below the tolerance.
    pub closed spec fn spec_converged(&self) -> bool {
        self.converged
    }

    /// The run was cancelled.
    pub closed spec fn spec_cancelled(&self) -> bool {
        self.cancelled
    }

    /// The run takes no more steps.
    pub open spec fn spec_finished(&self) -> bool {
        self.spec_converged() || self.spec_cancelled() || self.spec_history().len() >= self.spec_max_iter()
    }

    /// No more than `max_iter` steps; convergence needs a recorded step and is
    /// never reported together with cancellation.
    pub open spec fn wf(&self) -> bool {
        &&& self.spec_history().len() <= self.spec_max_iter()
        &&& self.spec_converged() ==> self.spec_history().len() > 0
        &&& !(self.spec_converged() && self.spec_cancelled())
    }

    /// A run of at most `max_iter` steps, none taken yet.
    pub fn new(max_iter: usize) -> (r: MarchDriver<R>)
        ensures
            r.wf(),
            r.spec_max_iter() == max_iter,
            r.spec_history() == Seq::<R>::empty(),
            !r.spec_converged(),
            !r.spec_cancelled(),
    {
        MarchDriver { max_iter, history: Vec::new(), converged: false, cancelled: false }
    }

    /// Whether the run is over.
    pub fn is_finished(&self) -> (r: bool)
        ensures
            r == self.spec_finished(),
    {
        self.converged || self.cancelled || self.history.len() >= self.max_iter
    }

    /// Number of steps taken so far.
    pub fn iterations(&self) -> (r: usize)
        ensures
            r == self.spec_history().len(),
    {
        self.history.len()
    }

    /// Records a step that produced `residual`; `below_tolerance` says whether
    /// it fell below the tolerance, which ends the run as converged.
    pub fn record(&mut self, residual: R, below_tolerance: bool)
        requires
            old(self).wf(),
            !old(self).spec_finished(),
        ensures
            final(self).wf(),
            final(self).spec_max_iter() == old(self).spec_max_iter(),
            final(self).spec_history() == old(self).spec_history().push(residual),
            final(self).spec_converged() == below_tolerance,
            !final(self).spec_cancelled(),
    {
        self.history.push(residual);
        self.converged = below_tolerance;
    }

    /// Cancels the run between steps; it ends unconverged with the steps
    /// taken so far.
    pub fn cancel(&mut self)
        requires
            old(self).wf(),
            !old(self).spec_finished(),
        ensures
            final(self).wf(),
            final(self).spec_max_iter() == old(self).spec_max_iter(),
            final(self).spec_history() == old(self).spec_history(),
            !final(self).spec_converged(),
            final(self).spec_cancelled(),
    {
        self.cancelled = true;
    }

    /// The outcome of the run: its residual history, whether it converged, and
    /// the number of steps taken.
    pub fn into_outcome(self) -> (r: SolveOutcome<R>)
        requires
            self.wf(),
        ensures
            r.wf(),
            r.residual_history@ == self.spec_history(),
            r.converged == self.spec_converged(),
            r.iterations == self.spec_history().len(),
    {
        let iterations = self.history.len();
        SolveOutcome { residual_history: self.history, converged: self.converged, iterations }
    }
}

/// A run that was allowed at least one step and ended without cancellation has
/// a non-empty residual history.
pub proof fn lemma_finished_run_has_history<R>(d: MarchDriver<R>)
    requires
        d.wf(),
        d.spec_finished(),
        !d.spec_cancelled(),
        d.spec_max_iter() > 0,
    ensures
        d.spec_history().len() > 0,
{
}

/// A run that ended neither converged nor cancelled took exactly `max_iter`
/// steps.
pub proof fn lemma_unconverged_run_reaches_limit<R>(d: MarchDriver<R>)
    requires
        d.wf(),
        d.spec_finished(),
        !d.spec_converged(),
        !d.spec_cancelled(),
    ensures
        d.spec_history().len() == d.spec_max_iter(),
{
}

} // verus!
