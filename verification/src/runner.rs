//! A compensation run: the shared run state, the runner that walks one
//! profile, and what a run emits under every order of ticks and stops.

use crate::profile::Step;
use crate::scale::lemma_scaled_fits;
use crate::scale::lemma_scaled_is_nearest;
use crate::scale::scale_delta;
use crate::scale::scaled;
use crate::scale::Sensitivity;
use crate::scale::UNITS;
use vstd::prelude::*;

verus! {

/// Milliseconds that a runner waits after a movement before its next step.
pub const STEP_INTERVAL_MS: u64 = 100;

/// One relative mouse movement, in whole pixels.
#[derive(Clone, Copy, Debug, PartialEq, Eq)]
pub struct MouseMove {
    pub dx: i32,
    pub dy: i32,
}

/// The movement that `step` gives at `sensitivity`.
pub open spec fn scaled_step(step: Step, sensitivity: Sensitivity) -> MouseMove {
    MouseMove {
        dx: scaled(step.dx as int, sensitivity.value()) as i32,
        dy: scaled(step.dy as int, sensitivity.value()) as i32,
    }
}

/// The movements that `steps` give at `sensitivity`, one for each step and
/// in the same order.
pub open spec fn plan_of(steps: Seq<Step>, sensitivity: Sensitivity) -> Seq<MouseMove> {
    Seq::new(steps.len(), |i: int| scaled_step(steps[i], sensitivity))
}

/// The movement that `step` gives at `sensitivity`.
pub fn scale_step(step: Step, sensitivity: Sensitivity) -> (m: MouseMove)
    ensures
        m == scaled_step(step, sensitivity),
        m.dx == scaled(step.dx as int, sensitivity.value()),
        m.dy == scaled(step.dy as int, sensitivity.value()),
{
    MouseMove { dx: scale_delta(step.dx, sensitivity), dy: scale_delta(step.dy, sensitivity) }
}

/// The movements that `steps` give at `sensitivity`.
pub fn plan(steps: &Vec<Step>, sensitivity: Sensitivity) -> (moves: Vec<MouseMove>)
    ensures
        moves@ == plan_of(steps@, sensitivity),
{
    let mut moves: Vec<MouseMove> = Vec::new();
    let mut i: usize = 0;
    while i < steps.len()
        invariant
            i <= steps.len(),
            moves@ == plan_of(steps@, sensitivity).take(i as int),
        decreases steps.len() - i,
    {
        moves.push(scale_step(steps[i], sensitivity));
        i += 1;
    }
    moves
}

/// What the thread of a run has to do next.
#[derive(Clone, Copy, Debug, PartialEq, Eq)]
pub enum Action {
    /// Perform `movement`, wait `wait_ms` milliseconds, then ask again.
    Move { movement: MouseMove, wait_ms: u64 },
    /// End: the run is over.
    Finish,
}

/// One run as a single value: the shared flag, the movements planned and
/// how many of them have been emitted.
pub struct Run {
    pub active: bool,
    pub plan: Seq<MouseMove>,
    pub cursor: nat,
}

impl Run {
    /// No more movements have been emitted than were planned.
    pub open spec fn wf(self) -> bool {
        self.cursor <= self.plan.len()
    }

    /// The run just after a start with `plan`.
    pub open spec fn started(plan: Seq<MouseMove>) -> Run {
        Run { active: true, plan, cursor: 0 }
    }

    /// The movements emitted so far.
    pub open spec fn emitted(self) -> Seq<MouseMove> {
        self.plan.take(self.cursor as int)
    }

    /// What the next tick emits: the next planned movement while the run is
    /// active and has one left, else nothing.
    pub open spec fn next_move(self) -> Option<MouseMove> {
        if self.active && self.cursor < self.plan.len() {
            Some(self.plan[self.cursor as int])
        } else {
            None
        }
    }

    /// What the next tick asks of the runner's thread: the next movement and
    /// the wait that follows it, or to end.
    pub open spec fn next_action(self) -> Action {
        match self.next_move() {
            Some(movement) => Action::Move { movement, wait_ms: STEP_INTERVAL_MS },
            None => Action::Finish,
        }
    }

    /// The run after one tick of its runner. A stopped run stays as it is; an
    /// active one moves on by one movement, or ends where none is left.
    pub open spec fn tick(self) -> Run {
        if !self.active {
            self
        } else if self.cursor < self.plan.len() {
            Run { cursor: self.cursor + 1, ..self }
        } else {
            Run { active: false, ..self }
        }
    }

    /// The run after a stop.
    pub open spec fn stop(self) -> Run {
        Run { active: false, ..self }
    }

    /// The run after `n` ticks.
    pub open spec fn ticks(self, n: nat) -> Run
        decreases n,
    {
        if n == 0 {
            self
        } else {
            self.tick().ticks((n - 1) as nat)
        }
    }
}

/// Whether a run is in progress.
#[derive(Clone, Copy, Debug, PartialEq, Eq)]
pub enum Status {
    Idle,
    Running,
}

impl Status {
    /// The text of the status label.
    pub open spec fn label_text(self) -> Seq<char> {
        match self {
            Status::Idle => "等待中"@,
            Status::Running => "压枪中..."@,
        }
    }

    /// The text of the status label.
    pub fn label(&self) -> (text: &'static str)
        ensures
            text@ == self.label_text(),
    {
        match self {
            Status::Idle => "等待中",
            Status::Running => "压枪中...",
        }
    }
}

/// The state that the control surface and the runner share: whether a run
/// is active.
pub struct RunState {
    active: bool,
}

/// The walk of one run over its planned movements.
pub struct Runner {
    plan: Vec<MouseMove>,
    cursor: usize,
}

impl RunState {
    /// Whether a run is active.
    pub closed spec fn active(&self) -> bool {
        self.active
    }

    /// The status that the state shows.
    pub open spec fn status_of(&self) -> Status {
        if self.active() {
            Status::Running
        } else {
            Status::Idle
        }
    }

    /// The state at startup: no run is active.
    pub fn new() -> (state: RunState)
        ensures
            !state.active(),
    {
        RunState { active: false }
    }

    /// Whether a run is active.
    pub fn is_active(&self) -> (active: bool)
        ensures
            active == self.active(),
    {
        self.active
    }

    /// `Running` while a run is active, else `Idle`.
    pub fn status(&self) -> (status: Status)
        ensures
            status == self.status_of(),
    {
        if self.active {
            Status::Running
        } else {
            Status::Idle
        }
    }

    /// Starts a run over `steps` at `sensitivity`, unless one is active.
    ///
    /// On an idle state this marks the state active and returns the runner
    /// of the new run, which has emitted nothing yet. On an active state it
    /// changes nothing and returns no runner, so that a second start never
    /// adds a second stream of movements.
    pub fn start(&mut self, steps: &Vec<Step>, sensitivity: Sensitivity) -> (runner: Option<Runner>)
        ensures
            final(self).active(),
            old(self).active() <==> runner is None,
            old(self).active() ==> *final(self) == *old(self),
            runner matches Some(r) ==> r.run(*final(self)) == Run::started(
                plan_of(steps@, sensitivity),
            ),
    {
        if self.active {
            None
        } else {
            self.active = true;
            Some(Runner { plan: plan(steps, sensitivity), cursor: 0 })
        }
    }

    /// Clears the active flag. The runner sees it at its next step and emits
    /// nothing more.
    pub fn stop(&mut self)
        ensures
            !final(self).active(),
    {
        self.active = false;
    }
}

impl Default for RunState {
    fn default() -> (state: RunState)
        ensures
            !state.active(),
    {
        RunState::new()
    }
}

impl Runner {
    /// The cursor lies within the plan. Every runner that the library hands
    /// out is well formed.
    #[verifier::type_invariant]
    pub closed spec fn wf(&self) -> bool {
        self.cursor <= self.plan.len()
    }

    /// The movements planned for the run, in order.
    pub closed spec fn plan(&self) -> Seq<MouseMove> {
        self.plan@
    }

    /// The number of movements emitted so far.
    pub closed spec fn cursor(&self) -> nat {
        self.cursor as nat
    }

    /// The run that this runner and `state` make up.
    pub open spec fn run(&self, state: RunState) -> Run {
        Run { active: state.active(), plan: self.plan(), cursor: self.cursor() }
    }

    /// One step of the run: what the runner's thread has to do now.
    ///
    /// While `state` is active and a movement is left, this asks for it and
    /// for the wait after it, and moves on. Where `state` was stopped, it
    /// asks to end and changes nothing. Where no movement is left, it asks to
    /// end and marks `state` idle.
    pub fn advance(&mut self, state: &mut RunState) -> (action: Action)
        ensures
            old(self).run(*old(state)).wf(),
            action == old(self).run(*old(state)).next_action(),
            final(self).run(*final(state)) == old(self).run(*old(state)).tick(),
    {
        proof {
            use_type_invariant(&*self);
        }
        if !state.active {
            Action::Finish
        } else if self.cursor < self.plan.len() {
            let movement = self.plan[self.cursor];
            self.cursor += 1;
            Action::Move { movement, wait_ms: STEP_INTERVAL_MS }
        } else {
            state.active = false;
            Action::Finish
        }
    }

    /// The number of movements emitted so far.
    pub fn emitted(&self) -> (n: usize)
        ensures
            n == self.cursor(),
            n <= self.plan().len(),
    {
        proof {
            use_type_invariant(self);
        }
        self.cursor
    }

    /// The number of movements planned for the run.
    pub fn planned(&self) -> (n: usize)
        ensures
            n == self.plan().len(),
    {
        self.plan.len()
    }
}

/// Whether `pixels` is the product of `delta` and `sensitivity`, both in
/// thousandths, to within half a pixel.
pub open spec fn within_rounding(pixels: int, delta: int, sensitivity: int) -> bool {
    -(UNITS * UNITS) <= 2 * (pixels * (UNITS * UNITS) - delta * sensitivity) <= UNITS * UNITS
}

/// Every planned movement is its step's deltas times the sensitivity, to
/// within rounding, and the plan has one movement for each step.
pub proof fn lemma_plan_follows_steps(steps: Seq<Step>, sensitivity: Sensitivity)
    requires
        sensitivity.wf(),
    ensures
        plan_of(steps, sensitivity).len() == steps.len(),
        forall|i: int|
            #![trigger plan_of(steps, sensitivity)[i]]
            0 <= i < steps.len() ==> {
                let m = plan_of(steps, sensitivity)[i];
                &&& m.dx == scaled(steps[i].dx as int, sensitivity.value())
                &&& m.dy == scaled(steps[i].dy as int, sensitivity.value())
                &&& within_rounding(m.dx as int, steps[i].dx as int, sensitivity.value())
                &&& within_rounding(m.dy as int, steps[i].dy as int, sensitivity.value())
            },
{
    assert forall|i: int| 0 <= i < steps.len() implies {
        let m = #[trigger] plan_of(steps, sensitivity)[i];
        &&& m.dx == scaled(steps[i].dx as int, sensitivity.value())
        &&& m.dy == scaled(steps[i].dy as int, sensitivity.value())
        &&& within_rounding(m.dx as int, steps[i].dx as int, sensitivity.value())
        &&& within_rounding(m.dy as int, steps[i].dy as int, sensitivity.value())
    } by {
        lemma_scaled_fits(steps[i].dx, sensitivity.value());
        lemma_scaled_fits(steps[i].dy, sensitivity.value());
        lemma_scaled_is_nearest(steps[i].dx as int, sensitivity.value());
        lemma_scaled_is_nearest(steps[i].dy as int, sensitivity.value());
    }
}

/// A tick adds to what was emitted exactly the movement that it asks for.
pub proof fn lemma_tick_emits(run: Run)
    requires
        run.wf(),
    ensures
        run.tick().wf(),
        run.tick().emitted() == match run.next_action() {
            Action::Move { movement, wait_ms } => run.emitted().push(movement),
            Action::Finish => run.emitted(),
        },
{
    if run.active && run.cursor < run.plan.len() {
        assert(run.tick().emitted() =~= run.emitted().push(run.plan[run.cursor as int]));
    }
}

/// Where `n` ticks leave a run: a stopped run where it is; an active one
/// `n` movements further, or ended with its whole plan emitted where fewer
/// than `n` were left.
pub proof fn lemma_ticks(run: Run, n: nat)
    requires
        run.wf(),
    ensures
        run.ticks(n).wf(),
        !run.active ==> run.ticks(n) == run,
        run.active && run.cursor + n <= run.plan.len() ==> run.ticks(n) == (Run {
            cursor: run.cursor + n,
            ..run
        }),
        run.active && run.cursor + n > run.plan.len() ==> run.ticks(n) == (Run {
            active: false,
            cursor: run.plan.len(),
            ..run
        }),
    decreases n,
{
    if n > 0 {
        lemma_ticks(run.tick(), (n - 1) as nat);
    }
}

/// A run that is never stopped has, after as many ticks as its profile has
/// steps, emitted one movement for each step, in order, each the step's
/// deltas times the sensitivity to within rounding. One tick later it is
/// idle.
pub proof fn lemma_completed_run_emits_every_step(
    steps: Seq<Step>,
    sensitivity: Sensitivity,
    n: nat,
)
    requires
        sensitivity.wf(),
        n >= steps.len(),
    ensures
        ({
            let run = Run::started(plan_of(steps, sensitivity)).ticks(n);
            &&& run.active <==> n == steps.len()
            &&& run.emitted() == plan_of(steps, sensitivity)
            &&& run.emitted().len() == steps.len()
            &&& forall|i: int|
                #![trigger run.emitted()[i]]
                0 <= i < steps.len() ==> {
                    let m = run.emitted()[i];
                    &&& m.dx == scaled(steps[i].dx as int, sensitivity.value())
                    &&& m.dy == scaled(steps[i].dy as int, sensitivity.value())
                    &&& within_rounding(m.dx as int, steps[i].dx as int, sensitivity.value())
                    &&& within_rounding(m.dy as int, steps[i].dy as int, sensitivity.value())
                }
        }),
{
    let plan = plan_of(steps, sensitivity);
    lemma_ticks(Run::started(plan), n);
    lemma_plan_follows_steps(steps, sensitivity);
    assert(plan.take(plan.len() as int) =~= plan);
}

/// A run that is stopped before its first step emits nothing, however long
/// its runner goes on: the runner's first tick asks it to end.
pub proof fn lemma_stop_before_first_step(plan: Seq<MouseMove>, n: nat)
    ensures
        Run::started(plan).stop().next_action() == Action::Finish,
        Run::started(plan).stop().ticks(n).emitted() == Seq::<MouseMove>::empty(),
        !Run::started(plan).stop().ticks(n).active,
{
    lemma_ticks(Run::started(plan).stop(), n);
    assert(plan.take(0) =~= Seq::<MouseMove>::empty());
}

/// A run that is stopped after `k` of its steps has emitted the first `k`
/// planned movements and emits no more, however long its runner goes on:
/// the runner's next tick asks it to end.
pub proof fn lemma_stop_after_steps(plan: Seq<MouseMove>, k: nat, n: nat)
    requires
        k <= plan.len(),
    ensures
        Run::started(plan).ticks(k).stop().next_action() == Action::Finish,
        Run::started(plan).ticks(k).stop().ticks(n).emitted() == plan.take(k as int),
        Run::started(plan).ticks(k).stop().ticks(n).emitted().len() == k,
        !Run::started(plan).ticks(k).stop().ticks(n).active,
{
    lemma_ticks(Run::started(plan), k);
    lemma_ticks(Run::started(plan).ticks(k).stop(), n);
}

} // verus!
