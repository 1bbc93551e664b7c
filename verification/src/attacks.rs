//! The attack phase sequencer: an ordered, timed queue of discrete phases
//! applied to one in-flight attack instance.
//!
//! Phases are consumed first-in first-out, one at a time.  A `Projectile`
//! phase moves the instance from the attacker toward the target's current
//! position at a fixed speed and completes when the remaining distance would
//! be covered within one tick; `Overlay` and `Hidden` are pure countdown
//! timers; `Damage` hands its fixed amount to the target exactly once and
//! completes immediately.  When the queue is exhausted the instance is
//! destroyed; if the target disappears, it is destroyed immediately whatever
//! the phase.  Entering `Projectile` or `Overlay` snaps the instance to the
//! attacker's or target's position and shows it; entering `Damage` or
//! `Hidden` hides it.

use vstd::prelude::*;
use vstd::seq_lib::*;
use crate::geometry::MAX_STEP_LEN;
use crate::geometry::between;
use crate::geometry::dist_sq;
use crate::geometry::spec_dist_sq;
use crate::geometry::spec_step_len;
use crate::geometry::step_len;
use crate::marshal::is_live_id;
use crate::values::Registry;

verus! {

/// One timed stage of a combat effect.
#[derive(Clone, Copy, Debug)]
pub enum AttackPhase {
    /// Travel from the attacker toward the target at `speed` world units per
    /// second, showing `sprite_index`.
    Projectile { sprite_index: usize, speed: i64 },
    /// Sit on the target for `duration` milliseconds, showing
    /// `sprite_index`.
    Overlay { sprite_index: usize, duration: i64 },
    /// Take `amount` health from the target, once.
    Damage { amount: i32 },
    /// Wait invisibly for `duration` milliseconds.
    Hidden { duration: i64 },
}

/// What every authored phase upholds: no negative speeds, durations or
/// amounts.
pub open spec fn attack_phase_wf(p: AttackPhase) -> bool {
    match p {
        AttackPhase::Projectile { speed, .. } => 0 <= speed,
        AttackPhase::Overlay { duration, .. } => 0 <= duration,
        AttackPhase::Damage { amount } => 0 <= amount,
        AttackPhase::Hidden { duration } => 0 <= duration,
    }
}

/// An authored attack kind: its phase list, and the cooldown it charges the
/// attacker.
#[derive(Clone, Debug)]
pub struct AttackType {
    /// The id the kind is keyed by; never negative, since a negated id
    /// marks a dodged attack.
    pub id: i32,
    /// Cooldown charged to the attacker, in milliseconds.
    pub cooldown: i64,
    /// The phases an instance of this kind runs through, in order.
    pub phases: Vec<AttackPhase>,
}

pub open spec fn attack_type_wf(t: AttackType) -> bool {
    &&& t.id >= 0
    &&& t.cooldown >= 0
    &&& forall|i: int| 0 <= i < t.phases@.len() ==> attack_phase_wf(#[trigger] t.phases@[i])
}

/// The table resolving a small integer id to an attack kind, filled by an
/// external loader.
pub type AttackTypes = Registry<AttackType>;

/// One in-flight attack instance, with the host-owned visual state the
/// phases drive.
#[derive(Clone, Debug)]
pub struct Attack {
    /// Who launched it.
    pub attacker: u64,
    /// Whose health it is aimed at.
    pub target: u64,
    /// The phase currently running, if any; a fresh instance starts with
    /// none and enters its first phase on its first tick.
    pub phase: Option<AttackPhase>,
    /// The phases still to run, oldest first.
    pub remaining_phases: Vec<AttackPhase>,
    /// The instance's world position.
    pub pos_x: i32,
    pub pos_y: i32,
    /// The sprite the instance currently shows.
    pub sprite_index: usize,
    /// Whether the instance is currently shown.
    pub visible: bool,
}

pub open spec fn attack_wf(a: Attack) -> bool {
    &&& is_live_id(a.attacker)
    &&& is_live_id(a.target)
    &&& a.phase matches Some(p) ==> attack_phase_wf(p)
    &&& forall|i: int|
        0 <= i < a.remaining_phases@.len() ==> attack_phase_wf(#[trigger] a.remaining_phases@[i])
}

/// The sequencer's abstract state: the running phase and the queue.
pub struct SequencerState {
    pub phase: Option<AttackPhase>,
    pub queue: Seq<AttackPhase>,
}

/// The abstract state of an instance.
pub open spec fn abs(a: Attack) -> SequencerState {
    SequencerState { phase: a.phase, queue: a.remaining_phases@ }
}

/// Whether a countdown or damage phase completes on a tick of `dt`
/// milliseconds.  A projectile's completion depends on positions, not on
/// time alone, so it is never "done" by this rule.
pub open spec fn timed_phase_done(p: AttackPhase, dt: int) -> bool {
    match p {
        AttackPhase::Projectile { .. } => false,
        AttackPhase::Overlay { duration, .. } => duration - dt < 0,
        AttackPhase::Damage { .. } => true,
        AttackPhase::Hidden { duration } => duration - dt < 0,
    }
}

/// A countdown phase after a tick of `dt` milliseconds.
pub open spec fn ticked_phase(p: AttackPhase, dt: int) -> AttackPhase {
    match p {
        AttackPhase::Overlay { sprite_index, duration } => AttackPhase::Overlay {
            sprite_index,
            duration: (duration - dt) as i64,
        },
        AttackPhase::Hidden { duration } => AttackPhase::Hidden { duration: (duration - dt) as i64 },
        _ => p,
    }
}

/// The damage a tick hands to the target: a running `Damage` phase applies
/// its amount, and nothing else ever does.
pub open spec fn spec_step_damage(s: SequencerState) -> int {
    match s.phase {
        Some(AttackPhase::Damage { amount }) => amount as int,
        _ => 0,
    }
}

/// Whether a tick destroys the instance (with the target still alive): the
/// running phase ends, or none is running, and the queue has nothing left.
pub open spec fn spec_step_destroyed(s: SequencerState, dt: int) -> bool {
    (match s.phase {
        None => true,
        Some(p) => timed_phase_done(p, dt),
    }) && s.queue.len() == 0
}

/// The abstract state after a tick that does not destroy the instance: the
/// running phase counts down or completes, and a completed (or absent)
/// phase is replaced by the head of the queue.
pub open spec fn spec_step_state(s: SequencerState, dt: int) -> SequencerState {
    let after = match s.phase {
        None => s,
        Some(p) => if timed_phase_done(p, dt) {
            SequencerState { phase: None, queue: s.queue }
        } else {
            SequencerState { phase: Some(ticked_phase(p, dt)), queue: s.queue }
        },
    };
    if after.phase is None && after.queue.len() > 0 {
        SequencerState { phase: Some(after.queue[0]), queue: after.queue.remove(0) }
    } else {
        after
    }
}

/// A phase that runs on time alone: anything but a projectile.
pub open spec fn timed_phase(p: AttackPhase) -> bool {
    !(p is Projectile) && attack_phase_wf(p)
}

/// A state whose running phase and queued phases all run on time alone.
pub open spec fn timed_state(s: SequencerState) -> bool {
    &&& s.phase matches Some(p) ==> timed_phase(p)
    &&& forall|i: int| 0 <= i < s.queue.len() ==> timed_phase(#[trigger] s.queue[i])
}

/// How many ticks of `dt` milliseconds a timed phase runs once entered: a
/// countdown of `d` survives `d / dt` full decrements and completes on the
/// next, and damage completes on its single tick.
pub open spec fn phase_ticks(p: AttackPhase, dt: int) -> int {
    match p {
        AttackPhase::Overlay { duration, .. } => (duration as int) / dt + 1,
        AttackPhase::Hidden { duration } => (duration as int) / dt + 1,
        _ => 1,
    }
}

/// How many ticks a queue of timed phases takes from entry of its head to
/// completion of its last phase.
pub open spec fn total_ticks(q: Seq<AttackPhase>, dt: int) -> int
    decreases q.len(),
{
    if q.len() == 0 {
        0
    } else {
        phase_ticks(q[0], dt) + total_ticks(q.remove(0), dt)
    }
}

/// The sum of the queue's countdown durations, in milliseconds.
pub open spec fn total_duration(q: Seq<AttackPhase>, dt: int) -> int
    decreases q.len(),
{
    if q.len() == 0 {
        0
    } else {
        (match q[0] {
            AttackPhase::Overlay { duration, .. } => duration as int,
            AttackPhase::Hidden { duration } => duration as int,
            _ => 0,
        }) + total_duration(q.remove(0), dt)
    }
}

/// How many ticks of `dt` milliseconds remain until the instance is
/// destroyed.
pub open spec fn ticks_remaining(s: SequencerState, dt: int) -> int {
    match s.phase {
        None => 1 + total_ticks(s.queue, dt),
        Some(p) => phase_ticks(p, dt) + total_ticks(s.queue, dt),
    }
}

/// Attack sequencer termination, one tick at a time: over timed phases and
/// with the target alive, every state is a positive number of ticks from
/// destruction, a tick destroys the instance exactly when one tick remains,
/// and any other tick brings destruction exactly one tick closer.  Iterating
/// this fact, an instance holding a finite queue of timed phases is
/// destroyed on tick `ticks_remaining` exactly — never earlier, never
/// later.
pub proof fn lemma_sequencer_termination(s: SequencerState, dt: int)
    requires
        dt > 0,
        timed_state(s),
    ensures
        ticks_remaining(s, dt) >= 1,
        spec_step_destroyed(s, dt) <==> ticks_remaining(s, dt) == 1,
        !spec_step_destroyed(s, dt) ==> {
            &&& timed_state(spec_step_state(s, dt))
            &&& ticks_remaining(spec_step_state(s, dt), dt) == ticks_remaining(s, dt) - 1
        },
{
    lemma_total_ticks_nonneg(s.queue, dt);
    match s.phase {
        None => {
            if s.queue.len() > 0 {
                assert(timed_phase(s.queue[0]));
                lemma_phase_ticks_pos(s.queue[0], dt);
                lemma_total_ticks_nonneg(s.queue.remove(0), dt);
            }
        },
        Some(p) => {
            assert(timed_phase(p));
            lemma_phase_ticks_pos(p, dt);
            if timed_phase_done(p, dt) {
                assert(phase_ticks(p, dt) == 1) by {
                    match p {
                        AttackPhase::Overlay { duration, .. } => {
                            vstd::arithmetic::div_mod::lemma_basic_div(duration as int, dt);
                        },
                        AttackPhase::Hidden { duration } => {
                            vstd::arithmetic::div_mod::lemma_basic_div(duration as int, dt);
                        },
                        _ => {},
                    }
                }
                if s.queue.len() > 0 {
                    assert(timed_phase(s.queue[0]));
                    lemma_phase_ticks_pos(s.queue[0], dt);
                    lemma_total_ticks_nonneg(s.queue.remove(0), dt);
                }
            } else {
                match p {
                    AttackPhase::Overlay { duration, .. } => {
                        lemma_countdown_ticks(duration as int, dt);
                    },
                    AttackPhase::Hidden { duration } => {
                        lemma_countdown_ticks(duration as int, dt);
                    },
                    _ => {},
                }
            }
        },
    }
}

/// What one tick of the sequencer asks the host to do.
#[derive(Clone, Copy, PartialEq, Eq, Structural)]
pub struct StepEffect {
    /// The instance is done (queue exhausted, or target gone) and is to be
    /// despawned.
    pub destroyed: bool,
    /// Health to take from the target this tick; zero unless a `Damage`
    /// phase ran.
    pub damage: i32,
}

/// Whether a projectile at `(px, py)` covers the remaining distance to
/// `(tx, ty)` within one tick.
pub open spec fn projectile_done(
    px: int,
    py: int,
    tx: int,
    ty: int,
    speed: int,
    dt: int,
) -> bool {
    spec_dist_sq(px, py, tx, ty) < spec_step_len(speed, dt) * spec_step_len(speed, dt)
}

impl Attack {
    /// A fresh instance of an attack kind, invisible until its first phase
    /// shows it.
    pub fn new(attacker: u64, target: u64, attack_type: &AttackType) -> (r: Attack)
        requires
            is_live_id(attacker),
            is_live_id(target),
            attack_type_wf(*attack_type),
        ensures
            attack_wf(r),
            r.attacker == attacker,
            r.target == target,
            r.phase is None,
            r.remaining_phases@ == attack_type.phases@,
            !r.visible,
    {
        let mut phases: Vec<AttackPhase> = Vec::new();
        let mut i: usize = 0;
        while i < attack_type.phases.len()
            invariant
                i <= attack_type.phases@.len(),
                phases@ =~= attack_type.phases@.take(i as int),
            decreases attack_type.phases@.len() - i,
        {
            phases.push(attack_type.phases[i]);
            i += 1;
        }
        proof {
            assert(phases@ =~= attack_type.phases@);
        }
        Attack {
            attacker,
            target,
            phase: None,
            remaining_phases: phases,
            pos_x: 0,
            pos_y: 0,
            sprite_index: 0,
            visible: false,
        }
    }

    /// One tick of the sequencer.
    ///
    /// With the target gone the instance is destroyed at once, untouched.
    /// Otherwise the running phase counts down, travels, or deals its
    /// damage; a completed phase is replaced by the head of the queue, whose
    /// entry snaps and shows or hides the instance; and an exhausted queue
    /// destroys the instance.  Over countdown and damage phases the
    /// instance follows the abstract sequencer exactly; a travelling
    /// projectile completes exactly when the remaining distance is covered
    /// within this tick, and otherwise moves toward the target without
    /// overshooting on either axis.
    pub fn step(&mut self, dt: i64, attacker_pos: Option<(i32, i32)>, target_pos: Option<
        (i32, i32),
    >) -> (eff: StepEffect)
        requires
            attack_wf(*old(self)),
            0 < dt,
        ensures
            attack_wf(*final(self)),
            final(self).attacker == old(self).attacker,
            final(self).target == old(self).target,
            target_pos is None ==> eff.destroyed && eff.damage == 0 && *final(self) == *old(
                self,
            ),
            target_pos is Some ==> eff.damage == spec_step_damage(abs(*old(self))),
            target_pos is Some && !(old(self).phase matches Some(p) && p is Projectile) ==> {
                &&& eff.destroyed == spec_step_destroyed(abs(*old(self)), dt as int)
                &&& !eff.destroyed ==> abs(*final(self)) == spec_step_state(
                    abs(*old(self)),
                    dt as int,
                )
            },
            target_pos matches Some((tx, ty)) ==> (old(self).phase matches Some(
                AttackPhase::Projectile { speed, .. },
            ) ==> {
                let done = projectile_done(
                    old(self).pos_x as int,
                    old(self).pos_y as int,
                    tx as int,
                    ty as int,
                    speed as int,
                    dt as int,
                );
                &&& done ==> eff.destroyed == spec_step_destroyed(
                    SequencerState { phase: None, queue: old(self).remaining_phases@ },
                    dt as int,
                )
                &&& done && !eff.destroyed ==> abs(*final(self)) == spec_step_state(
                    SequencerState { phase: None, queue: old(self).remaining_phases@ },
                    dt as int,
                )
                &&& !done ==> {
                    &&& !eff.destroyed
                    &&& final(self).phase == old(self).phase
                    &&& final(self).remaining_phases@ == old(self).remaining_phases@
                    &&& (final(self).pos_x as int, final(self).pos_y as int)
                        == crate::geometry::spec_step_toward(
                        old(self).pos_x as int,
                        old(self).pos_y as int,
                        tx as int,
                        ty as int,
                        spec_step_len(speed as int, dt as int),
                    )
                    &&& between(old(self).pos_x as int, final(self).pos_x as int, tx as int)
                    &&& between(old(self).pos_y as int, final(self).pos_y as int, ty as int)
                }
            }),
            // entry effects: a tick that pops a phase snaps and shows or
            // hides the instance as the entered phase asks
            ({
                let popped = target_pos is Some && !eff.destroyed && final(self).remaining_phases@.len() < old(self).remaining_phases@.len();
                popped ==> match (final(self).phase, target_pos, attacker_pos) {
                    (Some(AttackPhase::Projectile { sprite_index, .. }), _, apos) => {
                        &&& final(self).sprite_index == sprite_index
                        &&& final(self).visible
                        &&& apos matches Some((ax, ay)) ==> final(self).pos_x == ax && final(self).pos_y == ay
                    },
                    (Some(AttackPhase::Overlay { sprite_index, .. }), Some((tx, ty)), _) => {
                        &&& final(self).sprite_index == sprite_index
                        &&& final(self).visible
                        &&& final(self).pos_x == tx && final(self).pos_y == ty
                    },
                    (Some(AttackPhase::Damage { .. }), _, _) => !final(self).visible,
                    (Some(AttackPhase::Hidden { .. }), _, _) => !final(self).visible,
                    _ => false,
                }
            }),
    {
        let (tx, ty) = match target_pos {
            None => {
                return StepEffect { destroyed: true, damage: 0 };
            },
            Some(p) => p,
        };
        let mut damage: i32 = 0;
        match self.phase {
            None => {},
            Some(AttackPhase::Projectile { sprite_index: _, speed }) => {
                let d_sq = dist_sq(self.pos_x, self.pos_y, tx, ty);
                let step = step_len(speed, dt);
                proof {
                    assert(0 <= step <= MAX_STEP_LEN);
                    assert((step as int) * (step as int) <= (MAX_STEP_LEN as int) * (
                    MAX_STEP_LEN as int)) by (nonlinear_arith)
                        requires
                            0 <= step <= MAX_STEP_LEN,
                    ;
                }
                if d_sq < (step as i128) * (step as i128) {
                    self.phase = None;
                } else {
                    self.travel_toward(tx, ty, step);
                }
            },
            Some(AttackPhase::Overlay { sprite_index, duration }) => {
                let nd = duration - dt;
                if nd < 0 {
                    self.phase = None;
                } else {
                    self.phase = Some(AttackPhase::Overlay { sprite_index, duration: nd });
                }
            },
            Some(AttackPhase::Damage { amount }) => {
                damage = amount;
                self.phase = None;
            },
            Some(AttackPhase::Hidden { duration }) => {
                let nd = duration - dt;
                if nd < 0 {
                    self.phase = None;
                } else {
                    self.phase = Some(AttackPhase::Hidden { duration: nd });
                }
            },
        }
        if self.phase.is_none() {
            if self.remaining_phases.len() > 0 {
                let next = self.remaining_phases.remove(0);
                match next {
                    AttackPhase::Projectile { sprite_index, .. } => {
                        if let Some((ax, ay)) = attacker_pos {
                            self.pos_x = ax;
                            self.pos_y = ay;
                        }
                        self.sprite_index = sprite_index;
                        self.visible = true;
                    },
                    AttackPhase::Overlay { sprite_index, .. } => {
                        self.pos_x = tx;
                        self.pos_y = ty;
                        self.sprite_index = sprite_index;
                        self.visible = true;
                    },
                    AttackPhase::Damage { .. } => {
                        self.visible = false;
                    },
                    AttackPhase::Hidden { .. } => {
                        self.visible = false;
                    },
                }
                self.phase = Some(next);
                StepEffect { destroyed: false, damage }
            } else {
                StepEffect { destroyed: true, damage }
            }
        } else {
            StepEffect { destroyed: false, damage }
        }
    }

    /// Move toward `(tx, ty)` by `step` world units along the straight
    /// line, never overshooting on either axis.  Called only while the
    /// remaining distance is at least the step.
    fn travel_toward(&mut self, tx: i32, ty: i32, step: i64)
        requires
            0 <= step <= MAX_STEP_LEN,
            (step as int) * (step as int) <= spec_dist_sq(
                old(self).pos_x as int,
                old(self).pos_y as int,
                tx as int,
                ty as int,
            ),
        ensures
            *final(self) == (Attack {
                pos_x: final(self).pos_x,
                pos_y: final(self).pos_y,
                ..*old(self)
            }),
            (final(self).pos_x as int, final(self).pos_y as int)
                == crate::geometry::spec_step_toward(
                old(self).pos_x as int,
                old(self).pos_y as int,
                tx as int,
                ty as int,
                step as int,
            ),
            between(old(self).pos_x as int, final(self).pos_x as int, tx as int),
            between(old(self).pos_y as int, final(self).pos_y as int, ty as int),
    {
        let (nx, ny) = crate::geometry::step_toward(self.pos_x, self.pos_y, tx, ty, step);
        self.pos_x = nx;
        self.pos_y = ny;
    }
}

/// The abstract state after `n` ticks of `dt` milliseconds.
pub open spec fn spec_run(s: SequencerState, dt: int, n: nat) -> SequencerState
    decreases n,
{
    if n == 0 {
        s
    } else {
        spec_run(spec_step_state(s, dt), dt, (n - 1) as nat)
    }
}

/// Attack sequencer termination, iterated: over timed phases and with the
/// target alive, the instance is destroyed on exactly its `ticks_remaining`-th
/// tick — the tick numbered `ticks_remaining - 1` counting from zero — and
/// on no earlier one.  For the travel phase the counterpart is
/// [`lemma_projectile_phase_progress`]: its squared distance to the target
/// is the strictly decreasing measure.
pub proof fn lemma_sequencer_destroyed_exactly(s: SequencerState, dt: int, k: nat)
    requires
        dt > 0,
        timed_state(s),
        k < ticks_remaining(s, dt),
    ensures
        timed_state(spec_run(s, dt, k)),
        spec_step_destroyed(spec_run(s, dt, k), dt) <==> k == ticks_remaining(s, dt) - 1,
    decreases k,
{
    lemma_sequencer_termination(s, dt);
    if k > 0 {
        lemma_sequencer_destroyed_exactly(spec_step_state(s, dt), dt, (k - 1) as nat);
    }
}

/// A projectile phase makes progress: against a fixed target, a tick that
/// covers at least two world units and does not yet complete the phase
/// strictly decreases the instance's squared distance to the target, so the
/// travel phase completes in finitely many ticks.  A one-unit tick can
/// round both axis shares of the move down to nothing on a diagonal, which
/// is why the bound asks for two.
pub proof fn lemma_projectile_phase_progress(
    px: int,
    py: int,
    tx: int,
    ty: int,
    speed: int,
    dt: int,
)
    requires
        spec_step_len(speed, dt) >= 2,
        !projectile_done(px, py, tx, ty, speed, dt),
    ensures
        ({
            let moved = crate::geometry::spec_step_toward(
                px,
                py,
                tx,
                ty,
                spec_step_len(speed, dt),
            );
            spec_dist_sq(moved.0, moved.1, tx, ty) < spec_dist_sq(px, py, tx, ty)
        }),
{
    crate::geometry::lemma_projectile_progress(px, py, tx, ty, spec_step_len(speed, dt));
}

/// A countdown that survives a decrement has one tick fewer left.
proof fn lemma_countdown_ticks(d: int, dt: int)
    requires
        dt > 0,
        d >= 0,
        d - dt >= 0,
    ensures
        (d - dt) / dt == d / dt - 1,
{
    vstd::arithmetic::div_mod::lemma_fundamental_div_mod(d, dt);
    vstd::arithmetic::div_mod::lemma_mod_bound(d, dt);
    let q = d / dt;
    let r = d % dt;
    assert(d - dt == (q - 1) * dt + r) by (nonlinear_arith)
        requires
            d == dt * q + r,
    ;
    vstd::arithmetic::div_mod::lemma_fundamental_div_mod_converse_div(d - dt, dt, q - 1, r);
}

/// Every timed phase occupies at least one tick.
proof fn lemma_phase_ticks_pos(p: AttackPhase, dt: int)
    requires
        dt > 0,
        timed_phase(p),
    ensures
        phase_ticks(p, dt) >= 1,
{
    vstd::arithmetic::div_mod::lemma_basic_div(0, dt);
    match p {
        AttackPhase::Overlay { duration, .. } => {
            vstd::arithmetic::div_mod::lemma_div_is_ordered(0, duration as int, dt);
        },
        AttackPhase::Hidden { duration } => {
            vstd::arithmetic::div_mod::lemma_div_is_ordered(0, duration as int, dt);
        },
        _ => {},
    }
}

/// A queue of timed phases occupies a non-negative number of ticks.
proof fn lemma_total_ticks_nonneg(q: Seq<AttackPhase>, dt: int)
    requires
        dt > 0,
        forall|i: int| 0 <= i < q.len() ==> timed_phase(#[trigger] q[i]),
    ensures
        total_ticks(q, dt) >= 0,
        q.len() > 0 ==> total_ticks(q, dt) >= 1,
    decreases q.len(),
{
    if q.len() > 0 {
        lemma_phase_ticks_pos(q[0], dt);
        assert(forall|i: int|
            0 <= i < q.remove(0).len() ==> #[trigger] q.remove(0)[i] == q[i + 1]);
        lemma_total_ticks_nonneg(q.remove(0), dt);
    }
}

/// The instance outlives the sum of its countdown durations: the ticks a
/// timed queue takes cover its total duration.
pub proof fn lemma_ticks_cover_duration(q: Seq<AttackPhase>, dt: int)
    requires
        dt > 0,
        forall|i: int| 0 <= i < q.len() ==> timed_phase(#[trigger] q[i]),
    ensures
        total_ticks(q, dt) * dt > total_duration(q, dt) || q.len() == 0,
    decreases q.len(),
{
    if q.len() > 0 {
        let head = q[0];
        let rest = q.remove(0);
        assert(forall|i: int| 0 <= i < rest.len() ==> #[trigger] rest[i] == q[i + 1]);
        lemma_total_ticks_nonneg(rest, dt);
        lemma_ticks_cover_duration(rest, dt);
        let hd = match head {
            AttackPhase::Overlay { duration, .. } => duration as int,
            AttackPhase::Hidden { duration } => duration as int,
            _ => 0,
        };
        assert(phase_ticks(head, dt) * dt > hd) by {
            match head {
                AttackPhase::Overlay { duration, .. } => {
                    lemma_countdown_covers(duration as int, dt);
                },
                AttackPhase::Hidden { duration } => {
                    lemma_countdown_covers(duration as int, dt);
                },
                _ => {},
            }
        }
        assert((phase_ticks(head, dt) + total_ticks(rest, dt)) * dt == phase_ticks(head, dt) * dt
            + total_ticks(rest, dt) * dt) by (nonlinear_arith);
        if rest.len() == 0 {
            assert(total_duration(rest, dt) == 0);
        }
    }
}

/// A countdown's tick count, times the tick length, exceeds the countdown.
proof fn lemma_countdown_covers(d: int, dt: int)
    requires
        dt > 0,
        d >= 0,
    ensures
        (d / dt + 1) * dt > d,
{
    vstd::arithmetic::div_mod::lemma_fundamental_div_mod(d, dt);
    vstd::arithmetic::div_mod::lemma_mod_bound(d, dt);
    let q = d / dt;
    let r = d % dt;
    assert((q + 1) * dt > dt * q + r) by (nonlinear_arith)
        requires
            r < dt,
    ;
}

} // verus!
