//! Units, factions, and the host-side core of the unit-AI import surface:
//! scanning for opponents, nearest-opponent selection, distances, movement
//! and retreat orders, cooldown bookkeeping, and the dodge rule for
//! incoming attacks.

use vstd::prelude::*;
use crate::dispatch::ScriptHandle;
use crate::geometry::MAX_STEP_LEN;
use crate::geometry::between;
use crate::geometry::clamp_i64;
use crate::geometry::dist_sq;
use crate::geometry::is_isqrt;
use crate::geometry::isqrt;
use crate::geometry::spec_dist_sq;
use crate::geometry::spec_step_len;
use crate::geometry::step_len;
use crate::geometry::step_toward;
use crate::values::Registry;

verus! {

/// Which side an entity fights for.
#[derive(Clone, Copy, PartialEq, Eq, Structural)]
pub struct Faction {
    pub faction_id: i32,
}

impl Faction {
    /// The player's side.
    pub fn player() -> (r: Faction)
        ensures
            r.faction_id == 0,
    {
        Faction { faction_id: 0 }
    }

    /// The invaders' side.
    pub fn enemy() -> (r: Faction)
        ensures
            r.faction_id == 1,
    {
        Faction { faction_id: 1 }
    }
}

/// An authored unit kind, resolved from a small integer id by an external
/// loader.
#[derive(Clone, Debug)]
pub struct TroopType {
    /// The id the kind is keyed by; never negative, since `-1` stands for
    /// "no unit kind" at the guest boundary.
    pub id: i32,
    /// Health a fresh unit of this kind starts with.
    pub health: i64,
    /// Sprite for units of this kind.
    pub sprite_index: usize,
    /// Body radius used to keep units apart, in world units.
    pub size: i32,
    /// The behavior module attached to units of this kind.
    pub script: ScriptHandle,
}

pub open spec fn troop_type_wf(t: TroopType) -> bool {
    &&& t.id >= 0
    &&& t.health > 0
    &&& t.size >= 0
}

/// The table resolving a small integer id to a unit kind, filled by an
/// external loader.
pub type TroopTypes = Registry<TroopType>;

/// One autonomous unit.
pub struct Troop {
    /// What kind of unit this is.
    pub troop_type: TroopType,
    /// Current health; the unit is due its death hook at zero or below.
    pub health: i64,
    /// Where the unit was deployed, and where a retreat order sends it.
    pub staging_point: (i32, i32),
    /// A standing movement order: destination and speed in world units per
    /// second, if any.
    pub target: Option<((i32, i32), i64)>,
    /// The opponents found by the last scan, in scan order.
    pub seen_troops: Vec<u64>,
}

pub open spec fn troop_wf(t: Troop) -> bool {
    &&& troop_type_wf(t.troop_type)
    &&& t.target matches Some((_pos, speed)) ==> speed >= 0
}

impl Troop {
    /// A fresh unit of a kind, deployed at its staging point with full
    /// health, no order, and nothing scanned.
    pub fn new(troop_type: TroopType, staging_point: (i32, i32)) -> (r: Troop)
        requires
            troop_type_wf(troop_type),
        ensures
            troop_wf(r),
            r.troop_type == troop_type,
            r.health == troop_type.health,
            r.staging_point == staging_point,
            r.target is None,
            r.seen_troops@.len() == 0,
    {
        Troop {
            health: troop_type.health,
            troop_type,
            staging_point,
            target: None,
            seen_troops: Vec::new(),
        }
    }

    /// Replace the scan result.
    pub fn scan(&mut self, seen_troops: Vec<u64>)
        requires
            troop_wf(*old(self)),
        ensures
            troop_wf(*final(self)),
            *final(self) == (Troop { seen_troops: final(self).seen_troops, ..*old(self) }),
            final(self).seen_troops == seen_troops,
    {
        self.seen_troops = seen_troops;
    }

    /// Order the unit back to its staging point, as the `retreat` import
    /// does.
    pub fn retreat(&mut self, speed: i64)
        requires
            troop_wf(*old(self)),
            speed >= 0,
        ensures
            troop_wf(*final(self)),
            *final(self) == (Troop {
                target: Some((old(self).staging_point, speed)),
                ..*old(self)
            }),
    {
        self.target = Some((self.staging_point, speed));
    }

    /// Order the unit toward a point, as the `move_towards` import does.
    pub fn move_towards(&mut self, x: i32, y: i32, speed: i64)
        requires
            troop_wf(*old(self)),
            speed >= 0,
        ensures
            troop_wf(*final(self)),
            *final(self) == (Troop { target: Some(((x, y), speed)), ..*old(self) }),
    {
        self.target = Some(((x, y), speed));
    }

    /// Add to the unit's health, as the `heal_troop` import does, clamping
    /// only at the numeric limits.
    pub fn heal(&mut self, amount: i32)
        requires
            troop_wf(*old(self)),
        ensures
            troop_wf(*final(self)),
            *final(self) == (Troop { health: final(self).health, ..*old(self) }),
            final(self).health == clamp_i64(old(self).health + amount),
    {
        self.health = match self.health.checked_add(amount as i64) {
            Some(h) => h,
            None => if amount >= 0 {
                i64::MAX
            } else {
                i64::MIN
            },
        };
    }

    /// Take health from the unit, as a `Damage` phase asks, clamping only
    /// at the numeric limits.
    pub fn apply_damage(&mut self, amount: i32)
        requires
            troop_wf(*old(self)),
        ensures
            troop_wf(*final(self)),
            *final(self) == (Troop { health: final(self).health, ..*old(self) }),
            final(self).health == clamp_i64(old(self).health - amount),
    {
        self.health = match self.health.checked_sub(amount as i64) {
            Some(h) => h,
            None => if amount >= 0 {
                i64::MIN
            } else {
                i64::MAX
            },
        };
    }
}

/// Seconds a unit must wait before its behavior script runs again, in
/// milliseconds; the component is removed once it runs out.
#[derive(Clone, Copy, PartialEq, Eq, Structural)]
pub struct TroopCooldown(pub i64);

/// One clock tick of a cooldown: it loses the elapsed time and expires once
/// negative, as the original charge semantics have it.
pub fn cooldown_tick(c: &mut TroopCooldown, delta_millis: i64) -> (expired: bool)
    requires
        0 <= delta_millis,
    ensures
        final(c).0 == clamp_i64(old(c).0 - delta_millis),
        expired <==> final(c).0 < 0,
{
    c.0 = match c.0.checked_sub(delta_millis) {
        Some(v) => v,
        None => i64::MIN,
    };
    c.0 < 0
}

/// The opponents a scan finds: every listed unit, in order, that is not the
/// scanner itself and fights for another faction.
pub open spec fn spec_opponents(me: u64, my_faction: int, ts: Seq<(u64, i32)>) -> Seq<u64>
    decreases ts.len(),
{
    if ts.len() == 0 {
        Seq::empty()
    } else {
        let rest = spec_opponents(me, my_faction, ts.drop_last());
        if ts.last().0 != me && ts.last().1 != my_faction {
            rest.push(ts.last().0)
        } else {
            rest
        }
    }
}

/// Rescan the field for a unit: every other unit of another faction, in
/// the order given.
pub fn visible_opponents(me: u64, my_faction: i32, troops: &Vec<(u64, i32)>) -> (r: Vec<u64>)
    ensures
        r@ == spec_opponents(me, my_faction as int, troops@),
{
    let mut r: Vec<u64> = Vec::new();
    let mut i: usize = 0;
    while i < troops.len()
        invariant
            i <= troops@.len(),
            r@ == spec_opponents(me, my_faction as int, troops@.take(i as int)),
        decreases troops@.len() - i,
    {
        let (id, faction) = troops[i];
        proof {
            assert(troops@.take(i + 1).drop_last() =~= troops@.take(i as int));
            assert(troops@.take(i + 1).last() == troops@[i as int]);
        }
        if id != me && faction != my_faction {
            r.push(id);
        }
        i += 1;
    }
    proof {
        assert(troops@.take(troops@.len() as int) =~= troops@);
    }
    r
}

/// The selection key for the nearest-opponent search: squared distance, or
/// a key beyond every real distance for an opponent with no known position.
pub open spec fn enemy_key(e: (u64, Option<(i32, i32)>), mx: int, my: int) -> int {
    match e.1 {
        Some((x, y)) => spec_dist_sq(mx, my, x as int, y as int),
        None => 0x100_0000_0000_0000_0000,
    }
}

/// Entry `i` wins the nearest-opponent search: no entry has a smaller key,
/// and every earlier entry has a strictly larger one.
pub open spec fn is_nearest(s: Seq<(u64, Option<(i32, i32)>)>, mx: int, my: int, i: int) -> bool {
    &&& 0 <= i < s.len()
    &&& forall|j: int|
        0 <= j < s.len() ==> enemy_key(s[i], mx, my) <= enemy_key(#[trigger] s[j], mx, my)
    &&& forall|j: int|
        0 <= j < i ==> enemy_key(s[i], mx, my) < enemy_key(#[trigger] s[j], mx, my)
}

/// Find the seen opponent nearest to `(mx, my)`, earliest on ties; one
/// without a known position counts as beyond every real distance.  Returns
/// the index into the list, or nothing for an empty list.
pub fn nearest_seen_index(mx: i32, my: i32, others: &Vec<(u64, Option<(i32, i32)>)>) -> (r: Option<
    usize,
>)
    ensures
        match r {
            Some(i) => is_nearest(others@, mx as int, my as int, i as int),
            None => others@.len() == 0,
        },
        r is None <==> others@.len() == 0,
{
    if others.len() == 0 {
        return None;
    }
    let ghost gmx = mx as int;
    let ghost gmy = my as int;
    let mut best: usize = 0;
    let mut best_key: i128 = enemy_key_exec(mx, my, &others[0]);
    let mut k: usize = 1;
    while k < others.len()
        invariant
            gmx == mx as int,
            gmy == my as int,
            others@.len() > 0,
            1 <= k <= others@.len(),
            best < k,
            best_key == enemy_key(others@[best as int], gmx, gmy),
            forall|j: int|
                0 <= j < k ==> enemy_key(others@[best as int], gmx, gmy) <= enemy_key(
                    #[trigger] others@[j],
                    gmx,
                    gmy,
                ),
            forall|j: int|
                0 <= j < best ==> enemy_key(others@[best as int], gmx, gmy) < enemy_key(
                    #[trigger] others@[j],
                    gmx,
                    gmy,
                ),
        decreases others@.len() - k,
    {
        let key = enemy_key_exec(mx, my, &others[k]);
        if key < best_key {
            best = k;
            best_key = key;
        }
        k += 1;
    }
    Some(best)
}

/// The selection key, computed.
fn enemy_key_exec(mx: i32, my: i32, e: &(u64, Option<(i32, i32)>)) -> (r: i128)
    ensures
        r == enemy_key(*e, mx as int, my as int),
{
    match e.1 {
        Some((x, y)) => dist_sq(mx, my, x, y),
        None => 0x100_0000_0000_0000_0000,
    }
}

/// The distance between two entities, as the `get_distance` import reports
/// it: the rounded-down Euclidean distance, or `-1` if either has no
/// position.
pub fn get_distance(a: Option<(i32, i32)>, b: Option<(i32, i32)>) -> (r: i64)
    ensures
        a is None || b is None ==> r == -1,
        ({
            &&& a matches Some((ax, ay))
            &&& b matches Some((bx, by))
        }) ==> r >= 0 && is_isqrt(
            spec_dist_sq(a.unwrap().0 as int, a.unwrap().1 as int, b.unwrap().0 as int, b.unwrap().1 as int),
            r as int,
        ),
{
    match (a, b) {
        (Some((ax, ay)), Some((bx, by))) => {
            let d = dist_sq(ax, ay, bx, by);
            let root = isqrt(d as u128);
            proof {
                let n = spec_dist_sq(ax as int, ay as int, bx as int, by as int);
                let r = root as int;
                let dx = bx as int - ax as int;
                let dy = by as int - ay as int;
                assert(n <= 0x2_0000_0000_0000_0000) by (nonlinear_arith)
                    requires
                        n == dx * dx + dy * dy,
                        -0x1_0000_0000 <= dx <= 0x1_0000_0000,
                        -0x1_0000_0000 <= dy <= 0x1_0000_0000,
                ;
                assert(r * r <= n);
                assert(r <= 0x2_0000_0000) by (nonlinear_arith)
                    requires
                        0 <= r,
                        r * r <= n,
                        n <= 0x2_0000_0000_0000_0000,
                ;
            }
            root as i64
        },
        _ => -1,
    }
}

/// Whether an incoming attack is dodged, and the attack-kind id the damage
/// script then sees: a roll under the victim's dodge chance negates the id,
/// so damage scripts can special-case a dodged hit.  The id comes straight
/// off the wire, so any signed value is taken; the one id with no negation
/// in the type passes through unchanged, and no authored kind carries it.
pub fn resolved_attack_kind(attack_id: i32, roll_permille: i64, dodge_chance_permille: i64) -> (r:
    i32)
    ensures
        r == if roll_permille < dodge_chance_permille {
            if attack_id == i32::MIN {
                i32::MIN as int
            } else {
                -attack_id as int
            }
        } else {
            attack_id as int
        },
{
    if roll_permille < dodge_chance_permille {
        if attack_id == i32::MIN {
            i32::MIN
        } else {
            -attack_id
        }
    } else {
        attack_id
    }
}

/// Issue an attack, as the `attack_enemy` import does: the victim's dodge
/// roll may negate the attack-kind id, the possibly negated id is resolved
/// through the table — a dodged id names no kind unless the author provided
/// one — and a resolved kind yields a fresh attack instance and charges the
/// kind's cooldown.  An unresolved id yields nothing and charges none.
pub fn attack_enemy(
    me: u64,
    enemy: u64,
    attack_id: i32,
    roll_permille: i64,
    dodge_chance_permille: i64,
    kinds: &crate::attacks::AttackTypes,
) -> (r: (Option<crate::attacks::Attack>, i64))
    requires
        crate::marshal::is_live_id(me),
        crate::marshal::is_live_id(enemy),
        kinds.wf(),
        forall|k: int|
            #[trigger] kinds.spec_get(k) matches Some(t) ==> crate::attacks::attack_type_wf(t),
    ensures
        ({
            let resolved: int = if roll_permille < dodge_chance_permille {
                if attack_id == i32::MIN {
                    i32::MIN as int
                } else {
                    -attack_id as int
                }
            } else {
                attack_id as int
            };
            match kinds.spec_get(resolved) {
                Some(kind) => {
                    &&& r.1 == kind.cooldown
                    &&& r.0 matches Some(a)
                    &&& r.0 matches Some(a) ==> {
                        &&& crate::attacks::attack_wf(a)
                        &&& a.attacker == me
                        &&& a.target == enemy
                        &&& a.phase is None
                        &&& a.remaining_phases@ == kind.phases@
                    }
                },
                None => r.0 is None && r.1 == 0,
            }
        }),
{
    let resolved = resolved_attack_kind(attack_id, roll_permille, dodge_chance_permille);
    match kinds.get(resolved) {
        Some(kind) => {
            let cooldown = kind.cooldown;
            let attack = crate::attacks::Attack::new(me, enemy, kind);
            (Some(attack), cooldown)
        },
        None => (None, 0),
    }
}

/// What the movement system decides for a unit this tick.
pub enum MoveOutcome {
    /// No standing order.
    Idle,
    /// The destination would be reached within this tick; the order is
    /// fulfilled and cleared.
    Arrived,
    /// Keep travelling: the unit's new position.
    Travel { x: i32, y: i32 },
}

/// One movement tick: a unit with a standing order travels toward its
/// destination at the order's speed, never overshooting on either axis, and
/// the order is cleared in the tick that would reach the destination.
pub fn movement_step(troop: &mut Troop, px: i32, py: i32, delta_millis: i64) -> (r: MoveOutcome)
    requires
        troop_wf(*old(troop)),
        0 < delta_millis,
    ensures
        troop_wf(*final(troop)),
        old(troop).target is None ==> r is Idle && *final(troop) == *old(troop),
        old(troop).target matches Some(((tx, ty), speed)) ==> {
            let step = spec_step_len(speed as int, delta_millis as int);
            let d = spec_dist_sq(px as int, py as int, tx as int, ty as int);
            if d <= step * step {
                &&& r is Arrived
                &&& *final(troop) == (Troop { target: None, ..*old(troop) })
            } else {
                &&& r matches MoveOutcome::Travel { x, y } && (x as int, y as int)
                    == crate::geometry::spec_step_toward(
                    px as int,
                    py as int,
                    tx as int,
                    ty as int,
                    step,
                ) && between(px as int, x as int, tx as int) && between(py as int, y as int, ty as int)
                &&& *final(troop) == *old(troop)
            }
        },
{
    match troop.target {
        None => MoveOutcome::Idle,
        Some(((tx, ty), speed)) => {
            let d = dist_sq(px, py, tx, ty);
            let step = step_len(speed, delta_millis);
            proof {
                assert((step as int) * (step as int) <= (MAX_STEP_LEN as int) * (
                MAX_STEP_LEN as int)) by (nonlinear_arith)
                    requires
                        0 <= step <= MAX_STEP_LEN,
                ;
            }
            if d <= (step as i128) * (step as i128) {
                troop.target = None;
                MoveOutcome::Arrived
            } else {
                let (nx, ny) = step_toward(px, py, tx, ty, step);
                MoveOutcome::Travel { x: nx, y: ny }
            }
        },
    }
}

} // verus!
