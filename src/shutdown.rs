use vstd::prelude::*;

verus! {

/// The shutdown pair: `dart_stopped` is set when the host stops,
/// `rust_stopped` when the background context has drained.
#[derive(Debug, Clone, Copy, PartialEq, Eq, Structural)]
pub struct ShutdownEvents {
    pub dart_stopped: bool,
    pub rust_stopped: bool,
}

/// One action on the shutdown pair, performed by the thread that runs it.
#[derive(Debug, Clone, Copy, PartialEq, Eq, Structural)]
pub enum Step {
    SetDartStopped,
    ClearDartStopped,
    ClearRustStopped,
    /// Runs the application's main function; leaves the pair alone.
    RunMain,
    SetRustStopped,
    /// Blocks until `rust_stopped` is set.
    WaitRustStopped,
}

/// The pair before anything has happened.
pub open spec fn fresh_events() -> ShutdownEvents {
    ShutdownEvents { dart_stopped: false, rust_stopped: false }
}

/// Whether `step` can go ahead now; only a wait can be held back.
pub open spec fn step_ready(s: ShutdownEvents, step: Step) -> bool {
    step == Step::WaitRustStopped ==> s.rust_stopped
}

/// The pair after `step`.
pub open spec fn after_step(s: ShutdownEvents, step: Step) -> ShutdownEvents {
    match step {
        Step::SetDartStopped => ShutdownEvents { dart_stopped: true, ..s },
        Step::ClearDartStopped => ShutdownEvents { dart_stopped: false, ..s },
        Step::ClearRustStopped => ShutdownEvents { rust_stopped: false, ..s },
        Step::RunMain => s,
        Step::SetRustStopped => ShutdownEvents { rust_stopped: true, ..s },
        Step::WaitRustStopped => s,
    }
}

/// The pair after a whole sequence of steps, in order.
pub open spec fn after_steps(s: ShutdownEvents, steps: Seq<Step>) -> ShutdownEvents
    decreases steps.len(),
{
    if steps.len() == 0 {
        s
    } else {
        after_steps(after_step(s, steps[0]), steps.drop_first())
    }
}

/// Whether every step of the sequence can go ahead when its turn comes.
pub open spec fn steps_ready(s: ShutdownEvents, steps: Seq<Step>) -> bool
    decreases steps.len(),
{
    if steps.len() == 0 {
        true
    } else {
        step_ready(s, steps[0]) && steps_ready(after_step(s, steps[0]), steps.drop_first())
    }
}

/// Both sides are done: the process may exit.
pub open spec fn is_terminal(s: ShutdownEvents) -> bool {
    s.dart_stopped && s.rust_stopped
}

/// What the background thread does: in debug builds it first stops any
/// earlier run and clears the pair, then runs main and marks the core done.
pub open spec fn background_plan(debug: bool) -> Seq<Step> {
    if debug {
        seq![
            Step::SetDartStopped,
            Step::ClearDartStopped,
            Step::ClearRustStopped,
            Step::RunMain,
            Step::SetRustStopped,
        ]
    } else {
        seq![Step::RunMain, Step::SetRustStopped]
    }
}

/// What `start` does on the calling thread before it spawns the background
/// thread: in debug builds it stops any earlier run and clears the pair, so
/// that no flag left by that run is seen by the new one.
pub open spec fn start_plan(debug: bool) -> Seq<Step> {
    if debug {
        seq![Step::SetDartStopped, Step::ClearDartStopped, Step::ClearRustStopped]
    } else {
        Seq::empty()
    }
}

/// What the finalizer on the host's thread does when that thread ends.
pub open spec fn finalizer_plan() -> Seq<Step> {
    seq![Step::SetDartStopped, Step::WaitRustStopped]
}

impl ShutdownEvents {
    pub fn new() -> (r: ShutdownEvents)
        ensures
            r == fresh_events(),
    {
        ShutdownEvents { dart_stopped: false, rust_stopped: false }
    }

    /// Performs `step` if it can go ahead and says whether it did; a wait
    /// that cannot go ahead leaves the pair as it is.
    pub fn apply(&mut self, step: Step) -> (done: bool)
        ensures
            done == step_ready(*old(self), step),
            *final(self) == if done { after_step(*old(self), step) } else { *old(self) },
    {
        match step {
            Step::SetDartStopped => {
                self.dart_stopped = true;
                true
            },
            Step::ClearDartStopped => {
                self.dart_stopped = false;
                true
            },
            Step::ClearRustStopped => {
                self.rust_stopped = false;
                true
            },
            Step::RunMain => true,
            Step::SetRustStopped => {
                self.rust_stopped = true;
                true
            },
            Step::WaitRustStopped => self.rust_stopped,
        }
    }

    /// Whether a main loop that checks the host each pass keeps going.
    pub fn keeps_running(&self) -> (r: bool)
        ensures
            r == !self.dart_stopped,
    {
        !self.dart_stopped
    }

    /// Whether both sides are done.
    pub fn is_finished(&self) -> (r: bool)
        ensures
            r == is_terminal(*self),
    {
        self.dart_stopped && self.rust_stopped
    }
}

/// Asks the background context to stop; never waits.
pub fn stop_rust_logic_extern(events: &mut ShutdownEvents)
    ensures
        *final(events) == after_step(*old(events), Step::SetDartStopped),
{
    events.dart_stopped = true;
}

/// The steps of the background thread, in order.
pub fn background_steps(debug: bool) -> (r: Vec<Step>)
    ensures
        r@ == background_plan(debug),
{
    let mut r: Vec<Step> = Vec::new();
    if debug {
        r.push(Step::SetDartStopped);
        r.push(Step::ClearDartStopped);
        r.push(Step::ClearRustStopped);
    }
    r.push(Step::RunMain);
    r.push(Step::SetRustStopped);
    proof {
        if debug {
            assert(r@ =~= background_plan(debug));
        } else {
            assert(r@ =~= background_plan(debug));
        }
    }
    r
}

/// The steps that `start` runs on the calling thread before the spawn.
pub fn start_steps(debug: bool) -> (r: Vec<Step>)
    ensures
        r@ == start_plan(debug),
{
    let mut r: Vec<Step> = Vec::new();
    if debug {
        r.push(Step::SetDartStopped);
        r.push(Step::ClearDartStopped);
        r.push(Step::ClearRustStopped);
    }
    proof {
        assert(r@ =~= start_plan(debug));
    }
    r
}

/// Notifies the background context that the host's thread has exited, and
/// holds that thread until the context has drained.
#[derive(Debug)]
pub struct ShutdownDropper;

impl ShutdownDropper {
    /// The steps to run when the host's thread is torn down.
    pub fn drop_steps(&self) -> (r: Vec<Step>)
        ensures
            r@ == finalizer_plan(),
    {
        let r: Vec<Step> = vec![Step::SetDartStopped, Step::WaitRustStopped];
        proof {
            assert(r@ =~= finalizer_plan());
        }
        r
    }
}


/// `n` stop requests in a row.
pub open spec fn stop_calls(n: nat) -> Seq<Step> {
    Seq::new(n, |i: int| Step::SetDartStopped)
}

/// Stopping any positive number of times leaves the pair as stopping once
/// does: `dart_stopped` ends set and `rust_stopped` is untouched.
pub proof fn lemma_stop_idempotent(s: ShutdownEvents, n: nat)
    requires
        n >= 1,
    ensures
        after_steps(s, stop_calls(n)) == after_step(s, Step::SetDartStopped),
        after_steps(s, stop_calls(n)).dart_stopped,
    decreases n,
{
    let stops = stop_calls(n);
    let once = after_step(s, Step::SetDartStopped);
    assert(stops[0] == Step::SetDartStopped);
    if n == 1 {
        assert(stops.drop_first() =~= Seq::<Step>::empty());
        assert(after_steps(once, stops.drop_first()) == once);
    } else {
        assert(stops.drop_first() =~= stop_calls((n - 1) as nat));
        lemma_stop_idempotent(once, (n - 1) as nat);
        assert(after_step(once, Step::SetDartStopped) == once);
    }
}

/// Whether `steps` leave `dart_stopped` alone or set it; only the debug
/// reset at the start of a run clears it.
pub open spec fn keeps_stop(steps: Seq<Step>) -> bool {
    forall|i: int| 0 <= i < steps.len() ==> #[trigger] steps[i] != Step::ClearDartStopped
}

/// Once a stop is requested, no step that keeps the stop can undo it, so a
/// main loop that checks the host on every pass returns on its very next
/// pass; after that the background thread's last step leaves the pair
/// terminal.
pub proof fn lemma_stop_ends_main_loop(s: ShutdownEvents, between: Seq<Step>)
    requires
        keeps_stop(between),
    ensures
        after_steps(after_step(s, Step::SetDartStopped), between).dart_stopped,
        is_terminal(
            after_step(
                after_steps(after_step(s, Step::SetDartStopped), between),
                Step::SetRustStopped,
            ),
        ),
{
    lemma_stop_survives(after_step(s, Step::SetDartStopped), between);
}

proof fn lemma_stop_survives(s: ShutdownEvents, steps: Seq<Step>)
    requires
        s.dart_stopped,
        keeps_stop(steps),
    ensures
        after_steps(s, steps).dart_stopped,
    decreases steps.len(),
{
    if steps.len() > 0 {
        assert(steps[0] != Step::ClearDartStopped);
        let rest = steps.drop_first();
        assert forall|i: int| 0 <= i < rest.len() implies #[trigger] rest[i]
            != Step::ClearDartStopped by {
            assert(rest[i] == steps[i + 1]);
        }
        lemma_stop_survives(after_step(s, steps[0]), rest);
    }
}

/// Whether none of `steps` marks the core as done.
pub open spec fn leaves_core_running(steps: Seq<Step>) -> bool {
    forall|i: int| 0 <= i < steps.len() ==> #[trigger] steps[i] != Step::SetRustStopped
}

/// Once `start` has run its steps (in a debug build, or from a pair whose
/// core flag is unset), the finalizer's wait cannot go ahead, whatever other
/// steps run meanwhile, until the new run's own `SetRustStopped`: the
/// background thread takes that step last and no step before it.
pub proof fn lemma_no_stale_core_stop(s: ShutdownEvents, debug: bool, between: Seq<Step>)
    requires
        debug || !s.rust_stopped,
        leaves_core_running(between),
    ensures
        !step_ready(after_steps(after_steps(s, start_plan(debug)), between), Step::WaitRustStopped),
        background_plan(debug).last() == Step::SetRustStopped,
        leaves_core_running(background_plan(debug).drop_last()),
{
    reveal_with_fuel(after_steps, 4);
    lemma_plan_unfolds(start_plan(debug));
    lemma_core_stays_running(after_steps(s, start_plan(debug)), between);
    let plan = background_plan(debug);
    assert forall|i: int| 0 <= i < plan.drop_last().len() implies #[trigger] plan.drop_last()[i]
        != Step::SetRustStopped by {
        assert(plan.drop_last()[i] == plan[i]);
    }
}

proof fn lemma_core_stays_running(s: ShutdownEvents, steps: Seq<Step>)
    requires
        !s.rust_stopped,
        leaves_core_running(steps),
    ensures
        !after_steps(s, steps).rust_stopped,
    decreases steps.len(),
{
    if steps.len() > 0 {
        assert(steps[0] != Step::SetRustStopped);
        let rest = steps.drop_first();
        assert forall|i: int| 0 <= i < rest.len() implies #[trigger] rest[i]
            != Step::SetRustStopped by {
            assert(rest[i] == steps[i + 1]);
        }
        lemma_core_stays_running(after_step(s, steps[0]), rest);
    }
}

/// The background thread never blocks, and once it has run, the
/// finalizer's wait goes through at once and leaves the pair terminal.
pub proof fn lemma_finalizer_after_return(s: ShutdownEvents, debug: bool)
    ensures
        steps_ready(s, background_plan(debug)),
        steps_ready(after_steps(s, background_plan(debug)), finalizer_plan()),
        is_terminal(after_steps(after_steps(s, background_plan(debug)), finalizer_plan())),
{
    reveal_with_fuel(after_steps, 6);
    reveal_with_fuel(steps_ready, 6);
    lemma_plan_unfolds(background_plan(debug));
    lemma_plan_unfolds(finalizer_plan());
}

/// Whatever an earlier run left behind, a debug start clears the pair
/// before main runs, and the whole run ends as a first run would.
pub proof fn lemma_restart_is_fresh(s: ShutdownEvents)
    ensures
        after_steps(s, background_plan(true).take(3)) == fresh_events(),
        after_steps(s, background_plan(true)) == after_steps(
            fresh_events(),
            background_plan(true),
        ),
{
    reveal_with_fuel(after_steps, 6);
    lemma_plan_unfolds(background_plan(true));
    lemma_plan_unfolds(background_plan(true).take(3));
}

/// Spells out the suffixes of a short plan, so that the recursive
/// definitions can be unfolded on it.
proof fn lemma_plan_unfolds(p: Seq<Step>)
    requires
        p.len() <= 5,
    ensures
        forall|k: int|
            0 <= k < p.len() ==> #[trigger] p.skip(k).drop_first() == p.skip(k + 1),
        forall|k: int| 0 <= k < p.len() ==> #[trigger] p.skip(k)[0] == p[k],
        p.skip(0) == p,
        p.skip(p.len() as int).len() == 0,
{
    assert forall|k: int| 0 <= k < p.len() implies #[trigger] p.skip(k).drop_first() == p.skip(
        k + 1,
    ) by {
        assert(p.skip(k).drop_first() =~= p.skip(k + 1));
    }
    assert(p.skip(0) =~= p);
}

} // verus!
