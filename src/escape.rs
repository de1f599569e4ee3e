use vstd::prelude::*;

verus! {

/// What the escape-time iteration does after the magnitude test at one step.
#[derive(Clone, Copy, Debug, PartialEq, Eq, Structural)]
pub enum EscapeStep {
    /// The orbit left the disc of radius 2 at this iteration: the count is final.
    Escaped(usize),
    /// Apply z <- z * z + c and test again at this next iteration.
    Continue(usize),
    /// Every test up to the cap passed: the point counts as bounded.
    Bounded(usize),
}

/// The decision taken at iteration `i` given whether |z| > 2 held there.
pub open spec fn step_of(i: nat, max_iters: nat, exceeded: bool) -> EscapeStep {
    if exceeded {
        EscapeStep::Escaped(i as usize)
    } else if i >= max_iters {
        EscapeStep::Bounded(max_iters as usize)
    } else {
        EscapeStep::Continue((i + 1) as usize)
    }
}

/// `n` is the escape-time count of an orbit whose magnitude tests, from
/// iteration 0 on, gave `exceeded`: the first iteration whose test
/// succeeded, or `max_iters` when none up to `max_iters` did.
pub open spec fn is_escape_time(exceeded: Seq<bool>, max_iters: nat, n: nat) -> bool {
    &&& n <= max_iters
    &&& forall|i: int| 0 <= i < n ==> !#[trigger] exceeded[i]
    &&& (exceeded[n as int] || n == max_iters)
}

/// The count that driving `step_of` from iteration `i` over the test
/// outcomes `exceeded` ends with.
pub open spec fn run_from(exceeded: Seq<bool>, i: nat, max_iters: nat) -> nat
    decreases max_iters - i,
{
    match step_of(i, max_iters, exceeded[i as int]) {
        EscapeStep::Continue(_) => if i < max_iters {
            run_from(exceeded, i + 1, max_iters)
        } else {
            max_iters
        },
        EscapeStep::Escaped(n) => n as nat,
        EscapeStep::Bounded(n) => n as nat,
    }
}

/// Decides the next move of the escape-time iteration at iteration `i`,
/// where `exceeded` tells whether |z| > 2 held before the update of that step.
pub fn escape_step(i: usize, max_iters: usize, exceeded: bool) -> (s: EscapeStep)
    requires
        i <= max_iters,
    ensures
        s == step_of(i as nat, max_iters as nat, exceeded),
        exceeded ==> s == EscapeStep::Escaped(i),
        !exceeded && i == max_iters ==> s == EscapeStep::Bounded(max_iters),
        !exceeded && i < max_iters ==> s == EscapeStep::Continue((i + 1) as usize),
{
    if exceeded {
        EscapeStep::Escaped(i)
    } else if i == max_iters {
        EscapeStep::Bounded(max_iters)
    } else {
        EscapeStep::Continue(i + 1)
    }
}

proof fn lemma_run_from(exceeded: Seq<bool>, i: nat, max_iters: nat)
    requires
        i <= max_iters,
        max_iters < exceeded.len(),
        max_iters <= usize::MAX,
        forall|k: int| 0 <= k < i ==> !#[trigger] exceeded[k],
    ensures
        is_escape_time(exceeded, max_iters, run_from(exceeded, i, max_iters)),
    decreases max_iters - i,
{
    if !exceeded[i as int] && i < max_iters {
        lemma_run_from(exceeded, i + 1, max_iters);
    }
}

/// Driving the step decisions from iteration 0 over the outcomes of the
/// magnitude tests yields the escape-time count: the first iteration whose
/// test succeeded, or the cap when none did. In particular the count never
/// exceeds the cap.
pub proof fn lemma_steps_give_escape_time(exceeded: Seq<bool>, max_iters: usize)
    requires
        max_iters < exceeded.len(),
    ensures
        is_escape_time(exceeded, max_iters as nat, run_from(exceeded, 0, max_iters as nat)),
        run_from(exceeded, 0, max_iters as nat) <= max_iters,
{
    lemma_run_from(exceeded, 0, max_iters as nat);
}

/// The escape-time count is unique: the outcomes of the magnitude tests fix it.
pub proof fn lemma_escape_time_unique(exceeded: Seq<bool>, max_iters: nat, n: nat, m: nat)
    requires
        is_escape_time(exceeded, max_iters, n),
        is_escape_time(exceeded, max_iters, m),
    ensures
        n == m,
{
    if n < m {
        assert(!exceeded[n as int]);
    } else if m < n {
        assert(!exceeded[m as int]);
    }
}

/// An orbit whose magnitude never exceeds 2 up to the cap (as that of c = 0,
/// which stays at 0) gets the count `max_iters`.
pub proof fn lemma_bounded_orbit(exceeded: Seq<bool>, max_iters: usize)
    requires
        max_iters < exceeded.len(),
        forall|i: int| 0 <= i <= max_iters ==> !#[trigger] exceeded[i],
    ensures
        run_from(exceeded, 0, max_iters as nat) == max_iters,
{
    lemma_steps_give_escape_time(exceeded, max_iters);
    let n = run_from(exceeded, 0, max_iters as nat);
    assert(!exceeded[n as int]);
}

/// An orbit that first leaves the disc right after the first update (as that
/// of c = 3, whose first iterate is 3) gets the count 1, since the test at
/// iteration 0 sees z = 0.
pub proof fn lemma_escape_after_first_update(exceeded: Seq<bool>, max_iters: usize)
    requires
        1 <= max_iters < exceeded.len(),
        !exceeded[0],
        exceeded[1],
    ensures
        run_from(exceeded, 0, max_iters as nat) == 1,
{
    lemma_steps_give_escape_time(exceeded, max_iters);
    lemma_escape_time_unique(exceeded, max_iters as nat, run_from(exceeded, 0, max_iters as nat), 1);
}

} // verus!
