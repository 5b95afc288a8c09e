//! The time-stepping schedule. Step `i` (for `i` in `0..k`) first records the
//! time, the classical position at that time and the quantum observable of the
//! current state, then advances the state by one application of the
//! propagator. The state after the last advance is computed but never recorded.

use vstd::prelude::*;

verus! {

/// Three parallel series, one entry per recorded step.
pub struct Series<T> {
    pub time_points: Vec<T>,
    pub quantum_positions: Vec<T>,
    pub classical_positions: Vec<T>,
}

impl<T> Series<T> {
    /// The three series have one common length.
    pub open spec fn wf(&self) -> bool {
        &&& self.quantum_positions.len() == self.time_points.len()
        &&& self.classical_positions.len() == self.time_points.len()
    }

    /// The number of recorded steps.
    pub open spec fn steps(&self) -> nat {
        self.time_points.len() as nat
    }
}

/// `states` is a run of `k` advances from `init`, and `r` records, at each step
/// `i < k`, the time of step `i`, the classical position at that time and the
/// quantum observable of `states[i]`.
pub open spec fn follows_schedule<S, T, Tm, Cl, Qu, Ad>(
    k: nat,
    init: S,
    time: Tm,
    classical: Cl,
    quantum: Qu,
    advance: Ad,
    r: Series<T>,
    states: Seq<S>,
) -> bool where
    Tm: Fn(usize) -> T,
    Cl: Fn(T) -> T,
    Qu: Fn(&S) -> T,
    Ad: Fn(&S) -> S,
 {
    &&& r.wf()
    &&& r.steps() == k
    &&& states.len() == k + 1
    &&& states[0] == init
    &&& forall|i: int|
        0 <= i < k ==> #[trigger] advance.ensures((&states[i],), states[i + 1])
    &&& forall|i: int|
        0 <= i < k ==> time.ensures((i as usize,), #[trigger] r.time_points[i])
    &&& forall|i: int|
        0 <= i < k ==> classical.ensures(
            (r.time_points[i],),
            #[trigger] r.classical_positions[i],
        )
    &&& forall|i: int|
        0 <= i < k ==> quantum.ensures((&states[i],), #[trigger] r.quantum_positions[i])
}

/// Runs `k` steps from `init`, recording one entry of each series per step.
pub fn run_steps<S, T: Copy, Tm, Cl, Qu, Ad>(
    k: usize,
    init: S,
    time: Tm,
    classical: Cl,
    quantum: Qu,
    advance: Ad,
) -> (r: Series<T>) where
    Tm: Fn(usize) -> T,
    Cl: Fn(T) -> T,
    Qu: Fn(&S) -> T,
    Ad: Fn(&S) -> S,

    requires
        forall|i: usize| i < k ==> time.requires((i,)),
        forall|t: T| classical.requires((t,)),
        forall|s: S| quantum.requires((&s,)),
        forall|s: S| advance.requires((&s,)),
    ensures
        r.wf(),
        r.steps() == k,
        forall|i: int| 0 <= i < k ==> time.ensures((i as usize,), #[trigger] r.time_points[i]),
        forall|i: int|
            0 <= i < k ==> classical.ensures(
                (r.time_points[i],),
                #[trigger] r.classical_positions[i],
            ),
        exists|states: Seq<S>|
            follows_schedule(k as nat, init, time, classical, quantum, advance, r, states),
{
    let ghost mut states: Seq<S> = seq![init];
    let mut state = init;
    let mut time_points: Vec<T> = Vec::new();
    let mut quantum_positions: Vec<T> = Vec::new();
    let mut classical_positions: Vec<T> = Vec::new();
    let mut i: usize = 0;
    while i < k
        invariant
            0 <= i <= k,
            forall|j: usize| j < k ==> time.requires((j,)),
            forall|t: T| classical.requires((t,)),
            forall|s: S| quantum.requires((&s,)),
            forall|s: S| advance.requires((&s,)),
            time_points.len() == i,
            quantum_positions.len() == i,
            classical_positions.len() == i,
            states.len() == i + 1,
            states[0] == init,
            states[i as int] == state,
            forall|j: int|
                0 <= j < i ==> #[trigger] advance.ensures((&states[j],), states[j + 1]),
            forall|j: int| 0 <= j < i ==> time.ensures((j as usize,), #[trigger] time_points[j]),
            forall|j: int|
                0 <= j < i ==> classical.ensures(
                    (time_points[j],),
                    #[trigger] classical_positions[j],
                ),
            forall|j: int|
                0 <= j < i ==> quantum.ensures((&states[j],), #[trigger] quantum_positions[j]),
        decreases k - i,
    {
        let t = time(i);
        let c = classical(t);
        let q = quantum(&state);
        time_points.push(t);
        classical_positions.push(c);
        quantum_positions.push(q);
        let next = advance(&state);
        proof {
            states = states.push(next);
        }
        state = next;
        i = i + 1;
    }
    let r = Series { time_points, quantum_positions, classical_positions };
    assert(follows_schedule(k as nat, init, time, classical, quantum, advance, r, states));
    r
}

/// Each of the four per-step computations gives one result for one input.
pub open spec fn deterministic_steps<S, T, Tm, Cl, Qu, Ad>(
    time: Tm,
    classical: Cl,
    quantum: Qu,
    advance: Ad,
) -> bool where
    Tm: Fn(usize) -> T,
    Cl: Fn(T) -> T,
    Qu: Fn(&S) -> T,
    Ad: Fn(&S) -> S,
 {
    &&& forall|i: usize, a: T, b: T|
        #[trigger] time.ensures((i,), a) && #[trigger] time.ensures((i,), b) ==> a == b
    &&& forall|t: T, a: T, b: T|
        #[trigger] classical.ensures((t,), a) && #[trigger] classical.ensures((t,), b) ==> a == b
    &&& forall|s: S, a: T, b: T|
        #[trigger] quantum.ensures((&s,), a) && #[trigger] quantum.ensures((&s,), b) ==> a == b
    &&& forall|s: S, a: S, b: S|
        #[trigger] advance.ensures((&s,), a) && #[trigger] advance.ensures((&s,), b) ==> a == b
}

proof fn lemma_states_agree<S, T, Tm, Cl, Qu, Ad>(
    k: nat,
    init: S,
    time: Tm,
    classical: Cl,
    quantum: Qu,
    advance: Ad,
    r1: Series<T>,
    r2: Series<T>,
    st1: Seq<S>,
    st2: Seq<S>,
    j: nat,
) where
    Tm: Fn(usize) -> T,
    Cl: Fn(T) -> T,
    Qu: Fn(&S) -> T,
    Ad: Fn(&S) -> S,

    requires
        deterministic_steps(time, classical, quantum, advance),
        follows_schedule(k, init, time, classical, quantum, advance, r1, st1),
        follows_schedule(k, init, time, classical, quantum, advance, r2, st2),
        j <= k,
    ensures
        st1[j as int] == st2[j as int],
    decreases j,
{
    if j > 0 {
        lemma_states_agree(k, init, time, classical, quantum, advance, r1, r2, st1, st2, (j - 1) as nat);
        assert(advance.ensures((&st1[j - 1],), st1[j - 1 + 1]));
        assert(advance.ensures((&st2[j - 1],), st2[j - 1 + 1]));
    }
}

/// A run is determined by its parameters: when every per-step computation
/// gives one result for one input, two runs of `k` steps from the same state
/// record the same three series.
pub proof fn lemma_run_deterministic<S, T, Tm, Cl, Qu, Ad>(
    k: nat,
    init: S,
    time: Tm,
    classical: Cl,
    quantum: Qu,
    advance: Ad,
    r1: Series<T>,
    r2: Series<T>,
) where
    Tm: Fn(usize) -> T,
    Cl: Fn(T) -> T,
    Qu: Fn(&S) -> T,
    Ad: Fn(&S) -> S,

    requires
        deterministic_steps(time, classical, quantum, advance),
        exists|st: Seq<S>| follows_schedule(k, init, time, classical, quantum, advance, r1, st),
        exists|st: Seq<S>| follows_schedule(k, init, time, classical, quantum, advance, r2, st),
    ensures
        r1.time_points@ == r2.time_points@,
        r1.quantum_positions@ == r2.quantum_positions@,
        r1.classical_positions@ == r2.classical_positions@,
{
    let st1 = choose|st: Seq<S>| follows_schedule(k, init, time, classical, quantum, advance, r1, st);
    let st2 = choose|st: Seq<S>| follows_schedule(k, init, time, classical, quantum, advance, r2, st);
    assert forall|i: int| 0 <= i < k implies {
        &&& r1.time_points[i] == r2.time_points[i]
        &&& r1.classical_positions[i] == r2.classical_positions[i]
        &&& r1.quantum_positions[i] == r2.quantum_positions[i]
    } by {
        lemma_states_agree(k, init, time, classical, quantum, advance, r1, r2, st1, st2, i as nat);
        assert(time.ensures((i as usize,), r1.time_points[i]));
        assert(time.ensures((i as usize,), r2.time_points[i]));
        assert(classical.ensures((r1.time_points[i],), r1.classical_positions[i]));
        assert(classical.ensures((r2.time_points[i],), r2.classical_positions[i]));
        assert(quantum.ensures((&st1[i],), r1.quantum_positions[i]));
        assert(quantum.ensures((&st2[i],), r2.quantum_positions[i]));
    }
    assert(r1.time_points@ =~= r2.time_points@);
    assert(r1.quantum_positions@ =~= r2.quantum_positions@);
    assert(r1.classical_positions@ =~= r2.classical_positions@);
}

} // verus!
