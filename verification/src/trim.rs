//! The trim solver: a particle-swarm search over a bounded 3-dimensional
//! control box for steady-flight control settings.
//!
//! The cost functional is supplied by the caller through [`CostFunction`]
//! (in the full system it is built on the dynamics engine); the solver only
//! relies on it being a deterministic, nonnegative function of the candidate
//! alone, which is exactly what the trait contract says.  The search itself
//! is a standard particle-swarm iteration with a fixed population: each
//! particle's velocity blends inertia with attraction toward its personal
//! best and the global best, and positions are clamped to the box.
//!
//! All randomness comes from the seeded [`crate::rng::SplitMix`] generator,
//! so a fixed seed reproduces the search: the whole run is mirrored by
//! spec functions, and the outcome is proved equal to [`trim_mirror`], a
//! pure function of the cost, the box, the seed and the iteration cap.
//! The initial population is a named function of the seed
//! ([`init_particle_spec`]), which lets the solver promise that the result
//! it returns is at least as good as every member of the initial
//! population.  A cost evaluation that fails does not abort the process:
//! the search stops and reports the best estimate found so far.

use vstd::prelude::*;

verus! {

use crate::fixed::{abs_spec, clamp, clamp_spec, lemma_mul_bound, sat_abs_diff, sat_add, sat_i64,
    tdiv, tdiv_spec, MICRO};
use crate::rng::{draw_at, mix_spec, next_state_spec, range_val, state_at, SplitMix};

/// Number of particles in the swarm.
pub const SWARM_SIZE: usize = 40;

/// Largest control-coordinate magnitude the solver accepts, milli-units.
pub const CTRL_LIMIT: i64 = 1_000_000;

/// Inertia weight of the velocity update, milli-units (~0.721).
pub const INERTIA_MILLI: i64 = 721;

/// Attraction toward the personal best, milli-units (~1.193).
pub const COGNITIVE_MILLI: i64 = 1_193;

/// Attraction toward the global best, milli-units (~1.193).
pub const SOCIAL_MILLI: i64 = 1_193;

/// Pitch-like control range of the standard search box: 20 degrees either
/// way, millidegrees.
pub const TRIM_PITCH_RANGE: i64 = 20_000;

/// Secondary-control range of the standard search box: 4 degrees either
/// way, millidegrees.
pub const TRIM_SECONDARY_RANGE: i64 = 4_000;

/// Throttle range of the standard search box: zero to full scale,
/// milli-units.
pub const TRIM_THROTTLE_MAX: i64 = 1_000;

/// A candidate trim setting: a pitch-like control and a secondary control
/// in millidegrees, and a throttle in milli-units.
#[derive(Clone, Copy, Debug, PartialEq, Eq, Structural)]
pub struct ControlVector {
    pub pitch: i64,
    pub secondary: i64,
    pub throttle: i64,
}

/// The dimension-wise bounds of the search space, a solver configuration.
#[derive(Clone, Copy, Debug, PartialEq, Eq, Structural)]
pub struct SearchBox {
    pub lo: ControlVector,
    pub hi: ControlVector,
}

/// Whether the box is ordered and within the solver's machine bounds.
pub open spec fn box_wf(b: SearchBox) -> bool {
    &&& -CTRL_LIMIT <= b.lo.pitch <= b.hi.pitch <= CTRL_LIMIT
    &&& -CTRL_LIMIT <= b.lo.secondary <= b.hi.secondary <= CTRL_LIMIT
    &&& -CTRL_LIMIT <= b.lo.throttle <= b.hi.throttle <= CTRL_LIMIT
}

/// Whether `p` lies within the box `b`.
pub open spec fn in_box(b: SearchBox, p: ControlVector) -> bool {
    &&& b.lo.pitch <= p.pitch <= b.hi.pitch
    &&& b.lo.secondary <= p.secondary <= b.hi.secondary
    &&& b.lo.throttle <= p.throttle <= b.hi.throttle
}

impl SearchBox {
    /// The standard trim search box.
    pub fn standard() -> (r: SearchBox)
        ensures
            r == (SearchBox {
                lo: ControlVector {
                    pitch: (-TRIM_PITCH_RANGE) as i64,
                    secondary: (-TRIM_SECONDARY_RANGE) as i64,
                    throttle: 0,
                },
                hi: ControlVector {
                    pitch: TRIM_PITCH_RANGE,
                    secondary: TRIM_SECONDARY_RANGE,
                    throttle: TRIM_THROTTLE_MAX,
                },
            }),
            box_wf(r),
    {
        SearchBox {
            lo: ControlVector {
                pitch: -TRIM_PITCH_RANGE,
                secondary: -TRIM_SECONDARY_RANGE,
                throttle: 0,
            },
            hi: ControlVector {
                pitch: TRIM_PITCH_RANGE,
                secondary: TRIM_SECONDARY_RANGE,
                throttle: TRIM_THROTTLE_MAX,
            },
        }
    }
}

/// The scalar error a candidate trim setting is scored by.  `cost` must
/// compute a deterministic function of the candidate alone — its own
/// `cost_spec` — so the search is reproducible; a nonnegative score means a
/// valid evaluation, `None` a failed one (the counterpart of a non-finite
/// cost in a floating-point model).
pub trait CostFunction {
    /// The function this cost computes.
    spec fn cost_spec(&self, p: ControlVector) -> Option<i64>;

    /// Evaluates the cost of candidate `p`.
    fn cost(&self, p: &ControlVector) -> (r: Option<i64>)
        ensures
            r == self.cost_spec(*p),
            r matches Some(c) ==> c >= 0,
    ;
}

/// The cost [`DeviationCost`] computes: the saturating L1 distance from the
/// target setting.
pub open spec fn deviation_cost_spec(target: ControlVector, p: ControlVector) -> Option<i64> {
    let dp = sat_i64(abs_spec(p.pitch - target.pitch));
    let ds = sat_i64(abs_spec(p.secondary - target.secondary));
    let dt = sat_i64(abs_spec(p.throttle - target.throttle));
    Some(sat_i64(sat_i64(dp + ds) + dt) as i64)
}

/// A simple verified cost: the L1 distance from a known target setting.
/// Zero exactly at the target, so exact trim corresponds to zero cost.
pub struct DeviationCost {
    pub target: ControlVector,
}

impl CostFunction for DeviationCost {
    open spec fn cost_spec(&self, p: ControlVector) -> Option<i64> {
        deviation_cost_spec(self.target, p)
    }

    fn cost(&self, p: &ControlVector) -> (r: Option<i64>) {
        let dp = sat_abs_diff(p.pitch, self.target.pitch);
        let ds = sat_abs_diff(p.secondary, self.target.secondary);
        let dt = sat_abs_diff(p.throttle, self.target.throttle);
        Some(sat_add(sat_add(dp, ds), dt))
    }
}

/// Initial particle `j` of the swarm drawn from `seed`: three consecutive
/// range-reduced draws of the generator, one per dimension.
pub open spec fn init_particle_spec(seed: u64, j: nat, b: SearchBox) -> ControlVector {
    ControlVector {
        pitch: range_val(draw_at(seed, 3 * j), b.lo.pitch as int, b.hi.pitch as int) as i64,
        secondary: range_val(
            draw_at(seed, 3 * j + 1),
            b.lo.secondary as int,
            b.hi.secondary as int,
        ) as i64,
        throttle: range_val(
            draw_at(seed, 3 * j + 2),
            b.lo.throttle as int,
            b.hi.throttle as int,
        ) as i64,
    }
}

/// The outcome of a trim search: either the best control setting the swarm
/// converged on, or an aborted search carrying the candidate whose cost
/// evaluation failed and the best estimate found before that.
#[derive(Clone, Copy, Debug, PartialEq, Eq)]
pub enum TrimOutcome {
    Converged { best: ControlVector, cost: i64 },
    Aborted { failed_candidate: ControlVector, best: Option<(ControlVector, i64)> },
}

/// Whether `gc` is at or below the cost of each of the first `n` members of
/// the initial population drawn from `seed` — the monotonic-improvement
/// guarantee of the swarm search.
pub open spec fn dominates_initials<C: CostFunction>(
    cost: &C,
    seed: u64,
    b: SearchBox,
    gc: i64,
    n: int,
) -> bool {
    forall|j: int| 0 <= j < n ==> {
        let oc = cost.cost_spec(#[trigger] init_particle_spec(seed, j as nat, b));
        oc is Some && gc <= oc->0
    }
}

/// Whether a velocity component is within plus or minus the box span.
pub open spec fn vel_ok(b: SearchBox, v: ControlVector) -> bool {
    &&& b.lo.pitch - b.hi.pitch <= v.pitch <= b.hi.pitch - b.lo.pitch
    &&& b.lo.secondary - b.hi.secondary <= v.secondary <= b.hi.secondary - b.lo.secondary
    &&& b.lo.throttle - b.hi.throttle <= v.throttle <= b.hi.throttle - b.lo.throttle
}

/// One particle of the swarm: current position and velocity, and the best
/// position this particle has visited with its cost.
#[derive(Clone, Copy, Debug)]
pub struct Particle {
    pub pos: ControlVector,
    pub vel: ControlVector,
    pub best_pos: ControlVector,
    pub best_cost: i64,
}

/// The solver's bookkeeping invariant for one particle.
spec fn particle_inv<C: CostFunction>(cost: &C, b: SearchBox, p: Particle) -> bool {
    &&& in_box(b, p.pos)
    &&& in_box(b, p.best_pos)
    &&& vel_ok(b, p.vel)
    &&& cost.cost_spec(p.best_pos) == Some(p.best_cost)
    &&& p.best_cost >= 0
}

/// The solver's bookkeeping invariant for the whole swarm.
spec fn swarm_inv<C: CostFunction>(cost: &C, b: SearchBox, ps: Seq<Particle>) -> bool {
    forall|i: int| 0 <= i < ps.len() ==> particle_inv(cost, b, #[trigger] ps[i])
}

/// The solver's bookkeeping invariant for the global best.
spec fn gbest_inv<C: CostFunction>(cost: &C, b: SearchBox, gp: ControlVector, gc: i64) -> bool {
    &&& cost.cost_spec(gp) == Some(gc)
    &&& gc >= 0
    &&& in_box(b, gp)
}

/// The generator state after three draws from `s`.
pub open spec fn rng_after3(s: u64) -> u64 {
    next_state_spec(next_state_spec(next_state_spec(s)))
}

/// The control vector that three consecutive range-reduced draws from
/// generator state `s` produce.
pub open spec fn draw_cv(s: u64, b: SearchBox) -> ControlVector {
    let s1 = next_state_spec(s);
    let s2 = next_state_spec(s1);
    let s3 = next_state_spec(s2);
    ControlVector {
        pitch: range_val(mix_spec(s1), b.lo.pitch as int, b.hi.pitch as int) as i64,
        secondary: range_val(mix_spec(s2), b.lo.secondary as int, b.hi.secondary as int) as i64,
        throttle: range_val(mix_spec(s3), b.lo.throttle as int, b.hi.throttle as int) as i64,
    }
}

/// Draws the next particle position of the initial population: three
/// consecutive range-reduced draws, one per dimension.
fn draw_particle(
    rng: &mut SplitMix,
    b: &SearchBox,
    Ghost(seed): Ghost<u64>,
    Ghost(j): Ghost<nat>,
) -> (r: ControlVector)
    requires
        box_wf(*b),
        old(rng).state == state_at(seed, 3 * j),
    ensures
        final(rng).state == state_at(seed, 3 * j + 3),
        final(rng).state == rng_after3(old(rng).state),
        r == init_particle_spec(seed, j, *b),
        r == draw_cv(old(rng).state, *b),
        in_box(*b, r),
{
    proof {
        assert(state_at(seed, 3 * j + 1) == next_state_spec(state_at(seed, 3 * j)));
        assert(state_at(seed, 3 * j + 2) == next_state_spec(state_at(seed, 3 * j + 1)));
        assert(state_at(seed, 3 * j + 3) == next_state_spec(state_at(seed, 3 * j + 2)));
    }
    let pitch = rng.next_in_range(b.lo.pitch, b.hi.pitch);
    let secondary = rng.next_in_range(b.lo.secondary, b.hi.secondary);
    let throttle = rng.next_in_range(b.lo.throttle, b.hi.throttle);
    ControlVector { pitch, secondary, throttle }
}

/// The velocity update of one dimension: inertia plus the two random
/// attractions, scaled back to milli-units and clamped to the box span.
pub open spec fn pso_velocity_spec(
    v: i64,
    x: i64,
    pb: i64,
    gb: i64,
    r1: i64,
    r2: i64,
    lo: i64,
    hi: i64,
) -> int {
    let num = INERTIA_MILLI * v * 1000 + COGNITIVE_MILLI * r1 * (pb - x) + SOCIAL_MILLI * r2 * (
    gb - x);
    clamp_spec(tdiv_spec(num, MICRO as int), lo - hi, hi - lo)
}

/// Computes [`pso_velocity_spec`] for one dimension.
fn pso_velocity(v: i64, x: i64, pb: i64, gb: i64, r1: i64, r2: i64, lo: i64, hi: i64) -> (nv:
    i64)
    requires
        -CTRL_LIMIT <= lo <= hi <= CTRL_LIMIT,
        lo <= x <= hi,
        lo <= pb <= hi,
        lo <= gb <= hi,
        lo - hi <= v <= hi - lo,
        0 <= r1 <= 1000,
        0 <= r2 <= 1000,
    ensures
        nv as int == pso_velocity_spec(v, x, pb, gb, r1, r2, lo, hi),
        lo - hi <= nv <= hi - lo,
{
    let c1 = COGNITIVE_MILLI * r1;
    let c2 = SOCIAL_MILLI * r2;
    proof {
        lemma_mul_bound(c1 as int, pb as int - x as int, 1_193_000, 2 * CTRL_LIMIT as int);
        lemma_mul_bound(c2 as int, gb as int - x as int, 1_193_000, 2 * CTRL_LIMIT as int);
    }
    let t1 = c1 * (pb - x);
    let t2 = c2 * (gb - x);
    let num = INERTIA_MILLI * v * 1000 + t1 + t2;
    let raw = tdiv(num, MICRO);
    clamp(raw, lo - hi, hi - lo)
}

/// The swarm state the mirror of the search threads through the
/// generations: the particles, the global best, and the generator state.
pub struct SwarmMirror {
    pub particles: Seq<Particle>,
    pub gb_pos: ControlVector,
    pub gb_cost: i64,
    pub rng: u64,
}

/// The initialization mirror's state: the swarm built so far with its
/// global best and generator state, or the outcome the search halted with.
pub enum InitPhase {
    Building { particles: Seq<Particle>, gbest: Option<(ControlVector, i64)>, rng: u64 },
    Halted(TrimOutcome),
}

/// A generation mirror's state: the running swarm, or the outcome the
/// search halted with.
pub enum SearchPhase {
    Running(SwarmMirror),
    Halted(TrimOutcome),
}

/// The mirror of the initialization phase after `n` particles.  The mirror
/// is total: a failed evaluation halts it with the aborted outcome, exactly
/// as the search stops.
pub open spec fn init_mirror<C: CostFunction>(cost: &C, b: SearchBox, seed: u64, n: nat)
    -> InitPhase
    decreases n,
{
    if n == 0 {
        InitPhase::Building { particles: Seq::<Particle>::empty(), gbest: None, rng: seed }
    } else {
        match init_mirror(cost, b, seed, (n - 1) as nat) {
            InitPhase::Halted(o) => InitPhase::Halted(o),
            InitPhase::Building { particles, gbest, rng } => {
                let p = draw_cv(rng, b);
                match cost.cost_spec(p) {
                    None => InitPhase::Halted(
                        TrimOutcome::Aborted { failed_candidate: p, best: gbest },
                    ),
                    Some(c) => {
                        let zero_vel = ControlVector { pitch: 0, secondary: 0, throttle: 0 };
                        let part = Particle { pos: p, vel: zero_vel, best_pos: p, best_cost: c };
                        let gb = match gbest {
                            None => Some((p, c)),
                            Some(g) => if c < g.1 {
                                Some((p, c))
                            } else {
                                Some(g)
                            },
                        };
                        InitPhase::Building {
                            particles: particles.push(part),
                            gbest: gb,
                            rng: rng_after3(rng),
                        }
                    },
                }
            },
        }
    }
}

/// The candidate one particle update proposes: six draws, the velocity
/// update of each dimension, and the position clamped to the box.  Returns
/// the new position, the new velocity, and the generator state after the
/// draws.
pub open spec fn gen_move(b: SearchBox, st: SwarmMirror, j: int) -> (
    ControlVector,
    ControlVector,
    u64,
) {
    let s1 = next_state_spec(st.rng);
    let s2 = next_state_spec(s1);
    let s3 = next_state_spec(s2);
    let s4 = next_state_spec(s3);
    let s5 = next_state_spec(s4);
    let s6 = next_state_spec(s5);
    let r1p = range_val(mix_spec(s1), 0, 1000) as i64;
    let r2p = range_val(mix_spec(s2), 0, 1000) as i64;
    let r1s = range_val(mix_spec(s3), 0, 1000) as i64;
    let r2s = range_val(mix_spec(s4), 0, 1000) as i64;
    let r1t = range_val(mix_spec(s5), 0, 1000) as i64;
    let r2t = range_val(mix_spec(s6), 0, 1000) as i64;
    let pt = st.particles[j];
    let nvp = pso_velocity_spec(
        pt.vel.pitch,
        pt.pos.pitch,
        pt.best_pos.pitch,
        st.gb_pos.pitch,
        r1p,
        r2p,
        b.lo.pitch,
        b.hi.pitch,
    );
    let nvs = pso_velocity_spec(
        pt.vel.secondary,
        pt.pos.secondary,
        pt.best_pos.secondary,
        st.gb_pos.secondary,
        r1s,
        r2s,
        b.lo.secondary,
        b.hi.secondary,
    );
    let nvt = pso_velocity_spec(
        pt.vel.throttle,
        pt.pos.throttle,
        pt.best_pos.throttle,
        st.gb_pos.throttle,
        r1t,
        r2t,
        b.lo.throttle,
        b.hi.throttle,
    );
    let npos = ControlVector {
        pitch: clamp_spec(pt.pos.pitch + nvp, b.lo.pitch as int, b.hi.pitch as int) as i64,
        secondary: clamp_spec(
            pt.pos.secondary + nvs,
            b.lo.secondary as int,
            b.hi.secondary as int,
        ) as i64,
        throttle: clamp_spec(
            pt.pos.throttle + nvt,
            b.lo.throttle as int,
            b.hi.throttle as int,
        ) as i64,
    };
    let nvel = ControlVector { pitch: nvp as i64, secondary: nvs as i64, throttle: nvt as i64 };
    (npos, nvel, s6)
}

/// The mirror of one particle's update when its candidate evaluates: the
/// move of [`gen_move`] with the personal/global best bookkeeping.
pub open spec fn gen_one_mirror<C: CostFunction>(cost: &C, b: SearchBox, st: SwarmMirror, j: int)
    -> SwarmMirror {
    let mv = gen_move(b, st, j);
    let pt = st.particles[j];
    let c = cost.cost_spec(mv.0)->0;
    let newp = if c < pt.best_cost {
        Particle { pos: mv.0, vel: mv.1, best_pos: mv.0, best_cost: c }
    } else {
        Particle { pos: mv.0, vel: mv.1, best_pos: pt.best_pos, best_cost: pt.best_cost }
    };
    let gb2 = if c < st.gb_cost {
        (mv.0, c)
    } else {
        (st.gb_pos, st.gb_cost)
    };
    SwarmMirror {
        particles: st.particles.update(j, newp),
        gb_pos: gb2.0,
        gb_cost: gb2.1,
        rng: mv.2,
    }
}

/// The mirror of one particle's update: the candidate's evaluation either
/// succeeds, giving [`gen_one_mirror`], or fails, halting the search with
/// the aborted outcome.
pub open spec fn gen_step_mirror<C: CostFunction>(cost: &C, b: SearchBox, st: SwarmMirror, j: int)
    -> SearchPhase {
    let mv = gen_move(b, st, j);
    if cost.cost_spec(mv.0) is None {
        SearchPhase::Halted(
            TrimOutcome::Aborted { failed_candidate: mv.0, best: Some((st.gb_pos, st.gb_cost)) },
        )
    } else {
        SearchPhase::Running(gen_one_mirror(cost, b, st, j))
    }
}

/// The mirror of one generation's first `j` particle updates; a halt
/// absorbs the rest of the generation.
pub open spec fn gen_inner_mirror<C: CostFunction>(
    cost: &C,
    b: SearchBox,
    st: SearchPhase,
    j: nat,
) -> SearchPhase
    decreases j,
{
    if j == 0 {
        st
    } else {
        match gen_inner_mirror(cost, b, st, (j - 1) as nat) {
            SearchPhase::Running(sm) => gen_step_mirror(cost, b, sm, j - 1),
            SearchPhase::Halted(o) => SearchPhase::Halted(o),
        }
    }
}

/// The mirror of the first `iters` generations: a halt absorbs the rest of
/// the run, and a best cost of zero (exact trim) stops early, as the
/// search does.
pub open spec fn gen_outer_mirror<C: CostFunction>(
    cost: &C,
    b: SearchBox,
    st: SearchPhase,
    iters: nat,
) -> SearchPhase
    decreases iters,
{
    if iters == 0 {
        st
    } else {
        match gen_outer_mirror(cost, b, st, (iters - 1) as nat) {
            SearchPhase::Halted(o) => SearchPhase::Halted(o),
            SearchPhase::Running(sm) => if sm.gb_cost == 0 {
                SearchPhase::Running(sm)
            } else {
                gen_inner_mirror(cost, b, SearchPhase::Running(sm), SWARM_SIZE as nat)
            },
        }
    }
}

/// The outcome the search computes, for every cost function: the converged
/// global best of the full mirrored run, or the outcome the mirror halted
/// with.
pub open spec fn trim_mirror<C: CostFunction>(
    cost: &C,
    b: SearchBox,
    seed: u64,
    max_iters: u64,
) -> TrimOutcome {
    match init_mirror(cost, b, seed, SWARM_SIZE as nat) {
        InitPhase::Halted(o) => o,
        InitPhase::Building { particles, gbest, rng } => {
            let g = gbest->0;
            let st = SwarmMirror { particles, gb_pos: g.0, gb_cost: g.1, rng };
            match gen_outer_mirror(cost, b, SearchPhase::Running(st), max_iters as nat) {
                SearchPhase::Running(fin) => TrimOutcome::Converged {
                    best: fin.gb_pos,
                    cost: fin.gb_cost,
                },
                SearchPhase::Halted(o) => o,
            }
        },
    }
}

/// Whether the cost evaluates everywhere in the box.
pub open spec fn total_in_box<C: CostFunction>(cost: &C, b: SearchBox) -> bool {
    forall|p: ControlVector| in_box(b, p) ==> (#[trigger] cost.cost_spec(p)) is Some
}

/// Determinism given seeded randomness: the outcome of the search is
/// [`trim_mirror`] — a function of the cost, the box, the seed and the
/// iteration cap alone — so two runs of [`trim`] with identical inputs and
/// the same seed return the same result, whether they converge or abort.
pub proof fn lemma_trim_deterministic<C: CostFunction>(
    cost: &C,
    b: SearchBox,
    seed: u64,
    max_iters: u64,
    r1: TrimOutcome,
    r2: TrimOutcome,
)
    requires
        r1 == trim_mirror(cost, b, seed, max_iters),
        r2 == trim_mirror(cost, b, seed, max_iters),
    ensures
        r1 == r2,
{
}

/// One particle update never worsens the global best, and leaves it at or
/// below the cost of the candidate it evaluated.
proof fn lemma_gen_one_never_worse<C: CostFunction>(cost: &C, b: SearchBox, st: SwarmMirror, j: int)
    ensures
        gen_one_mirror(cost, b, st, j).gb_cost <= st.gb_cost,
        cost.cost_spec(gen_move(b, st, j).0) matches Some(c) ==> gen_one_mirror(
            cost,
            b,
            st,
            j,
        ).gb_cost <= c,
{
}

/// Within one generation the global best never worsens between any two
/// running states.
proof fn lemma_gen_inner_never_worse<C: CostFunction>(
    cost: &C,
    b: SearchBox,
    st: SearchPhase,
    k: nat,
    m: nat,
    a: SwarmMirror,
    z: SwarmMirror,
)
    requires
        k <= m,
        gen_inner_mirror(cost, b, st, k) == SearchPhase::Running(a),
        gen_inner_mirror(cost, b, st, m) == SearchPhase::Running(z),
    ensures
        z.gb_cost <= a.gb_cost,
    decreases m,
{
    if m > k {
        match gen_inner_mirror(cost, b, st, (m - 1) as nat) {
            SearchPhase::Running(w) => {
                lemma_gen_inner_never_worse(cost, b, st, k, (m - 1) as nat, a, w);
                lemma_gen_one_never_worse(cost, b, w, m - 1);
            },
            SearchPhase::Halted(o) => {
                assert(false);
            },
        }
    }
}

/// Across generations the global best never worsens between any two
/// running states.
proof fn lemma_gen_outer_never_worse<C: CostFunction>(
    cost: &C,
    b: SearchBox,
    st: SearchPhase,
    k: nat,
    m: nat,
    a: SwarmMirror,
    z: SwarmMirror,
)
    requires
        k <= m,
        gen_outer_mirror(cost, b, st, k) == SearchPhase::Running(a),
        gen_outer_mirror(cost, b, st, m) == SearchPhase::Running(z),
    ensures
        z.gb_cost <= a.gb_cost,
    decreases m,
{
    if m > k {
        match gen_outer_mirror(cost, b, st, (m - 1) as nat) {
            SearchPhase::Running(w) => {
                lemma_gen_outer_never_worse(cost, b, st, k, (m - 1) as nat, a, w);
                if w.gb_cost != 0 {
                    lemma_gen_inner_never_worse(
                        cost,
                        b,
                        SearchPhase::Running(w),
                        0,
                        SWARM_SIZE as nat,
                        w,
                        z,
                    );
                }
            },
            SearchPhase::Halted(o) => {
                assert(false);
            },
        }
    }
}

/// The global best only improves: in a run that is still going after `m`
/// generations, the best it holds is at or below the cost of every
/// candidate evaluated on the way — here the candidate of particle `j` in
/// generation `k`, evaluated from the mid-generation state `mid`.
pub proof fn lemma_best_dominates_evaluated<C: CostFunction>(
    cost: &C,
    b: SearchBox,
    s0: SearchPhase,
    k: nat,
    j: nat,
    m: nat,
    a: SwarmMirror,
    mid: SwarmMirror,
    fin: SwarmMirror,
    c: i64,
)
    requires
        k < m,
        j < SWARM_SIZE,
        gen_outer_mirror(cost, b, s0, k) == SearchPhase::Running(a),
        a.gb_cost != 0,
        gen_inner_mirror(cost, b, SearchPhase::Running(a), j) == SearchPhase::Running(mid),
        cost.cost_spec(gen_move(b, mid, j as int).0) == Some(c),
        gen_outer_mirror(cost, b, s0, m) == SearchPhase::Running(fin),
    ensures
        fin.gb_cost <= c,
{
    let next = gen_one_mirror(cost, b, mid, j as int);
    lemma_gen_one_never_worse(cost, b, mid, j as int);
    assert(gen_step_mirror(cost, b, mid, j as int) == SearchPhase::Running(next));
    assert(gen_inner_mirror(cost, b, SearchPhase::Running(a), (j + 1) as nat)
        == SearchPhase::Running(next));
    let after = gen_inner_mirror(cost, b, SearchPhase::Running(a), SWARM_SIZE as nat);
    assert(gen_outer_mirror(cost, b, s0, (k + 1) as nat) == after);
    match after {
        SearchPhase::Halted(o) => {
            lemma_gen_outer_settled(cost, b, s0, (k + 1) as nat, m);
            assert(false);
        },
        SearchPhase::Running(b1) => {
            lemma_gen_inner_never_worse(
                cost,
                b,
                SearchPhase::Running(a),
                (j + 1) as nat,
                SWARM_SIZE as nat,
                next,
                b1,
            );
            lemma_gen_outer_never_worse(cost, b, s0, (k + 1) as nat, m, b1, fin);
        },
    }
}

/// Once the initialization mirror halts, drawing further particles changes
/// nothing.
proof fn lemma_init_halted<C: CostFunction>(cost: &C, b: SearchBox, seed: u64, k: nat, m: nat)
    requires
        k <= m,
        init_mirror(cost, b, seed, k) is Halted,
    ensures
        init_mirror(cost, b, seed, m) == init_mirror(cost, b, seed, k),
    decreases m,
{
    if m > k {
        lemma_init_halted(cost, b, seed, k, (m - 1) as nat);
    }
}

/// Once a generation's mirror halts, the remaining particle updates change
/// nothing.
proof fn lemma_gen_inner_halted<C: CostFunction>(
    cost: &C,
    b: SearchBox,
    st: SearchPhase,
    k: nat,
    m: nat,
)
    requires
        k <= m,
        gen_inner_mirror(cost, b, st, k) is Halted,
    ensures
        gen_inner_mirror(cost, b, st, m) == gen_inner_mirror(cost, b, st, k),
    decreases m,
{
    if m > k {
        lemma_gen_inner_halted(cost, b, st, k, (m - 1) as nat);
    }
}

/// Once the run's mirror halts, or its best cost reaches zero, further
/// generations change nothing.
proof fn lemma_gen_outer_settled<C: CostFunction>(
    cost: &C,
    b: SearchBox,
    st: SearchPhase,
    k: nat,
    m: nat,
)
    requires
        k <= m,
        gen_outer_mirror(cost, b, st, k) is Halted || (gen_outer_mirror(cost, b, st, k)
            matches SearchPhase::Running(sm) && sm.gb_cost == 0),
    ensures
        gen_outer_mirror(cost, b, st, m) == gen_outer_mirror(cost, b, st, k),
    decreases m,
{
    if m > k {
        lemma_gen_outer_settled(cost, b, st, k, (m - 1) as nat);
    }
}

/// Searches the box for the control setting of least cost: a seeded
/// particle-swarm iteration with [`SWARM_SIZE`] particles, run for
/// `max_iters` generations or until the best cost reaches zero (exact
/// trim).
///
/// On convergence the result's cost is exactly the cost of the returned
/// setting, and at or below the cost of every member of the initial
/// population.  If a cost evaluation fails the search stops and reports the
/// failing candidate together with the best estimate found so far; when the
/// cost function evaluates everywhere in the box, the search cannot abort.
pub fn trim<C: CostFunction>(cost: &C, bounds: &SearchBox, seed: u64, max_iters: u64) -> (r:
    TrimOutcome)
    requires
        box_wf(*bounds),
    ensures
        (match r {
            TrimOutcome::Converged { best, cost: best_cost } => {
                &&& cost.cost_spec(best) == Some(best_cost)
                &&& best_cost >= 0
                &&& in_box(*bounds, best)
                &&& dominates_initials(cost, seed, *bounds, best_cost, SWARM_SIZE as int)
            },
            TrimOutcome::Aborted { failed_candidate, best } => {
                &&& in_box(*bounds, failed_candidate)
                &&& cost.cost_spec(failed_candidate) is None
                &&& (best matches Some(g) ==> cost.cost_spec(g.0) == Some(g.1) && g.1 >= 0
                    && in_box(*bounds, g.0))
                &&& (best is None ==> failed_candidate == init_particle_spec(seed, 0, *bounds))
            },
        }),
        total_in_box(cost, *bounds) ==> r is Converged,
        r == trim_mirror(cost, *bounds, seed, max_iters),
{
    let mut rng = SplitMix::new(seed);
    let mut particles: Vec<Particle> = Vec::new();
    let mut gbest: Option<(ControlVector, i64)> = None;
    let mut i: usize = 0;
    while i < SWARM_SIZE
        invariant
            box_wf(*bounds),
            i <= SWARM_SIZE,
            particles@.len() == i,
            rng.state == state_at(seed, 3 * i as nat),
            swarm_inv(cost, *bounds, particles@),
            (match gbest {
                Some(g) => gbest_inv(cost, *bounds, g.0, g.1) && dominates_initials(
                    cost,
                    seed,
                    *bounds,
                    g.1,
                    i as int,
                ),
                None => i == 0,
            }),
            init_mirror(cost, *bounds, seed, i as nat) == (InitPhase::Building {
                particles: particles@,
                gbest: gbest,
                rng: rng.state,
            }),
        decreases SWARM_SIZE - i,
    {
        let ghost pre_rng = rng.state;
        let ghost pre_particles = particles@;
        let ghost pre_gbest = gbest;
        let p = draw_particle(&mut rng, bounds, Ghost(seed), Ghost(i as nat));
        match cost.cost(&p) {
            None => {
                proof {
                    assert(init_mirror(cost, *bounds, seed, (i + 1) as nat)
                        == (InitPhase::Halted(
                        TrimOutcome::Aborted { failed_candidate: p, best: gbest },
                    )));
                    lemma_init_halted(cost, *bounds, seed, (i + 1) as nat, SWARM_SIZE as nat);
                }
                return TrimOutcome::Aborted { failed_candidate: p, best: gbest };
            },
            Some(c) => {
                let zero_vel = ControlVector { pitch: 0, secondary: 0, throttle: 0 };
                particles.push(Particle { pos: p, vel: zero_vel, best_pos: p, best_cost: c });
                let ghost old_gbest = gbest;
                gbest = match gbest {
                    None => Some((p, c)),
                    Some(g) => if c < g.1 {
                        Some((p, c))
                    } else {
                        Some(g)
                    },
                };
                proof {
                    let g = gbest->0;
                    assert forall|j: int| 0 <= j < i + 1 implies {
                        let oc = cost.cost_spec(
                            #[trigger] init_particle_spec(seed, j as nat, *bounds),
                        );
                        oc is Some && g.1 <= oc->0
                    } by {
                        if j == i {
                            assert(cost.cost_spec(init_particle_spec(seed, j as nat, *bounds))
                                == Some(c));
                        } else {
                            let oc = cost.cost_spec(init_particle_spec(seed, j as nat, *bounds));
                            assert(old_gbest matches Some(og) && og.1 <= oc->0);
                        }
                    }
                    assert(cost.cost_spec(p) == Some(c));
                    assert(init_mirror(cost, *bounds, seed, (i + 1) as nat)
                        == (InitPhase::Building {
                        particles: particles@,
                        gbest: gbest,
                        rng: rng.state,
                    }));
                }
            },
        }
        i = i + 1;
    }
    let (mut gb_pos, mut gb_cost): (ControlVector, i64) = match gbest {
        Some(g) => g,
        None => {
            proof {
                assert(false);
            }
            (ControlVector { pitch: 0, secondary: 0, throttle: 0 }, 0)
        },
    };
    let ghost st0 = SwarmMirror {
        particles: particles@,
        gb_pos: gb_pos,
        gb_cost: gb_cost,
        rng: rng.state,
    };
    proof {
        assert(init_mirror(cost, *bounds, seed, SWARM_SIZE as nat) == (InitPhase::Building {
            particles: st0.particles,
            gbest: Some((st0.gb_pos, st0.gb_cost)),
            rng: st0.rng,
        }));
    }
    let mut iter: u64 = 0;
    while iter < max_iters && gb_cost != 0
        invariant
            box_wf(*bounds),
            particles@.len() == SWARM_SIZE,
            swarm_inv(cost, *bounds, particles@),
            gbest_inv(cost, *bounds, gb_pos, gb_cost),
            dominates_initials(cost, seed, *bounds, gb_cost, SWARM_SIZE as int),
            iter <= max_iters,
            init_mirror(cost, *bounds, seed, SWARM_SIZE as nat) == (InitPhase::Building {
                particles: st0.particles,
                gbest: Some((st0.gb_pos, st0.gb_cost)),
                rng: st0.rng,
            }),
            gen_outer_mirror(cost, *bounds, SearchPhase::Running(st0), iter as nat)
                == (SearchPhase::Running(SwarmMirror {
                particles: particles@,
                gb_pos: gb_pos,
                gb_cost: gb_cost,
                rng: rng.state,
            })),
        decreases max_iters - iter,
    {
        let ghost gst = SwarmMirror {
            particles: particles@,
            gb_pos: gb_pos,
            gb_cost: gb_cost,
            rng: rng.state,
        };
        let mut j: usize = 0;
        while j < SWARM_SIZE
            invariant
                box_wf(*bounds),
                j <= SWARM_SIZE,
                particles@.len() == SWARM_SIZE,
                swarm_inv(cost, *bounds, particles@),
                gbest_inv(cost, *bounds, gb_pos, gb_cost),
                dominates_initials(cost, seed, *bounds, gb_cost, SWARM_SIZE as int),
                iter < max_iters,
                gst.gb_cost != 0,
                init_mirror(cost, *bounds, seed, SWARM_SIZE as nat) == (InitPhase::Building {
                    particles: st0.particles,
                    gbest: Some((st0.gb_pos, st0.gb_cost)),
                    rng: st0.rng,
                }),
                gen_outer_mirror(cost, *bounds, SearchPhase::Running(st0), iter as nat)
                    == (SearchPhase::Running(gst)),
                gen_inner_mirror(cost, *bounds, SearchPhase::Running(gst), j as nat)
                    == (SearchPhase::Running(SwarmMirror {
                    particles: particles@,
                    gb_pos: gb_pos,
                    gb_cost: gb_cost,
                    rng: rng.state,
                })),
            decreases SWARM_SIZE - j,
        {
            proof {
                assert(particle_inv(cost, *bounds, particles@[j as int]));
            }
            let ghost pre = SwarmMirror {
                particles: particles@,
                gb_pos: gb_pos,
                gb_cost: gb_cost,
                rng: rng.state,
            };
            let pt = particles[j];
            let r1p = rng.next_in_range(0, 1000);
            let r2p = rng.next_in_range(0, 1000);
            let r1s = rng.next_in_range(0, 1000);
            let r2s = rng.next_in_range(0, 1000);
            let r1t = rng.next_in_range(0, 1000);
            let r2t = rng.next_in_range(0, 1000);
            let nvp = pso_velocity(
                pt.vel.pitch,
                pt.pos.pitch,
                pt.best_pos.pitch,
                gb_pos.pitch,
                r1p,
                r2p,
                bounds.lo.pitch,
                bounds.hi.pitch,
            );
            let nvs = pso_velocity(
                pt.vel.secondary,
                pt.pos.secondary,
                pt.best_pos.secondary,
                gb_pos.secondary,
                r1s,
                r2s,
                bounds.lo.secondary,
                bounds.hi.secondary,
            );
            let nvt = pso_velocity(
                pt.vel.throttle,
                pt.pos.throttle,
                pt.best_pos.throttle,
                gb_pos.throttle,
                r1t,
                r2t,
                bounds.lo.throttle,
                bounds.hi.throttle,
            );
            let npos = ControlVector {
                pitch: clamp(pt.pos.pitch + nvp, bounds.lo.pitch, bounds.hi.pitch),
                secondary: clamp(
                    pt.pos.secondary + nvs,
                    bounds.lo.secondary,
                    bounds.hi.secondary,
                ),
                throttle: clamp(pt.pos.throttle + nvt, bounds.lo.throttle, bounds.hi.throttle),
            };
            let nvel = ControlVector { pitch: nvp, secondary: nvs, throttle: nvt };
            match cost.cost(&npos) {
                None => {
                    proof {
                        assert(gen_move(*bounds, pre, j as int) == (npos, nvel, rng.state));
                        assert(gen_step_mirror(cost, *bounds, pre, j as int)
                            == (SearchPhase::Halted(TrimOutcome::Aborted {
                            failed_candidate: npos,
                            best: Some((gb_pos, gb_cost)),
                        })));
                        assert(gen_inner_mirror(
                            cost,
                            *bounds,
                            SearchPhase::Running(gst),
                            (j + 1) as nat,
                        ) == gen_step_mirror(cost, *bounds, pre, j as int));
                        lemma_gen_inner_halted(
                            cost,
                            *bounds,
                            SearchPhase::Running(gst),
                            (j + 1) as nat,
                            SWARM_SIZE as nat,
                        );
                        assert(gen_outer_mirror(
                            cost,
                            *bounds,
                            SearchPhase::Running(st0),
                            (iter + 1) as nat,
                        ) == gen_inner_mirror(
                            cost,
                            *bounds,
                            SearchPhase::Running(gst),
                            SWARM_SIZE as nat,
                        ));
                        lemma_gen_outer_settled(
                            cost,
                            *bounds,
                            SearchPhase::Running(st0),
                            (iter + 1) as nat,
                            max_iters as nat,
                        );
                    }
                    return TrimOutcome::Aborted {
                        failed_candidate: npos,
                        best: Some((gb_pos, gb_cost)),
                    };
                },
                Some(c) => {
                    let new_p = if c < pt.best_cost {
                        Particle { pos: npos, vel: nvel, best_pos: npos, best_cost: c }
                    } else {
                        Particle {
                            pos: npos,
                            vel: nvel,
                            best_pos: pt.best_pos,
                            best_cost: pt.best_cost,
                        }
                    };
                    let ghost prev_particles = particles@;
                    particles.set(j, new_p);
                    proof {
                        assert forall|ii: int| 0 <= ii < particles@.len() implies particle_inv(
                            cost,
                            *bounds,
                            #[trigger] particles@[ii],
                        ) by {
                            if ii != j {
                                assert(particles@[ii] == prev_particles[ii]);
                            }
                        }
                    }
                    if c < gb_cost {
                        let ghost old_gc = gb_cost;
                        gb_pos = npos;
                        gb_cost = c;
                        proof {
                            assert forall|jj: int| 0 <= jj < SWARM_SIZE as int implies {
                                let oc = cost.cost_spec(
                                    #[trigger] init_particle_spec(seed, jj as nat, *bounds),
                                );
                                oc is Some && gb_cost <= oc->0
                            } by {
                                let oc = cost.cost_spec(
                                    init_particle_spec(seed, jj as nat, *bounds),
                                );
                                assert(oc is Some && old_gc <= oc->0);
                            }
                        }
                    }
                },
            }
            proof {
                assert(gen_move(*bounds, pre, j as int) == (npos, nvel, rng.state));
                assert((SwarmMirror {
                    particles: particles@,
                    gb_pos: gb_pos,
                    gb_cost: gb_cost,
                    rng: rng.state,
                }) == gen_one_mirror(cost, *bounds, pre, j as int));
                assert(gen_step_mirror(cost, *bounds, pre, j as int) == (SearchPhase::Running(
                    gen_one_mirror(cost, *bounds, pre, j as int),
                )));
                assert(gen_inner_mirror(cost, *bounds, SearchPhase::Running(gst), (j + 1) as nat)
                    == gen_step_mirror(cost, *bounds, pre, j as int));
            }
            j = j + 1;
        }
        proof {
            assert(gen_outer_mirror(cost, *bounds, SearchPhase::Running(st0), (iter + 1) as nat)
                == gen_inner_mirror(cost, *bounds, SearchPhase::Running(gst), SWARM_SIZE as nat));
        }
        iter = iter + 1;
    }
    proof {
        if iter < max_iters {
            lemma_gen_outer_settled(
                cost,
                *bounds,
                SearchPhase::Running(st0),
                iter as nat,
                max_iters as nat,
            );
        }
    }
    TrimOutcome::Converged { best: gb_pos, cost: gb_cost }
}

} // verus!
