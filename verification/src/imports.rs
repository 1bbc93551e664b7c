//! The host import surface: what a guest reads and writes through the
//! catalog of functions the host offers it.
//!
//! Every accessor has one contract shape: if the named entity lacks the
//! component the accessor needs, it returns its documented default — `-1`,
//! `0`, or the reserved "missing" pattern — rather than failing.  The host
//! loop resolves an entity to its component and hands the result in as an
//! `Option`; mutators on an entity that is not materialized yet are
//! buffered as commands instead (see the command buffer).

use vstd::prelude::*;
use crate::battle::Troop;
use crate::harvest::HarvestSpot;
use crate::harvest::Harvestable;
use crate::harvest::HarvestableType;
use crate::harvest::harvest_spot_wf;
use crate::marshal::Bool;
use crate::marshal::MISSING_ID;
use crate::marshal::is_live_id;
use crate::values::ScriptValues;

verus! {

/// A product's definition id, `-1` when the entity is no product.
pub fn get_harvestable_id(h: Option<&Harvestable>) -> (r: i32)
    ensures
        r == match h {
            Some(hv) => hv.0.id as int,
            None => -1,
        },
{
    match h {
        Some(hv) => hv.0.id,
        None => -1,
    }
}

/// A product's market value, `-1` when the entity is no product or the
/// product is not yet mature.
pub fn get_harvestable_value(h: Option<&Harvestable>) -> (r: i32)
    ensures
        r == match h {
            Some(hv) => if hv.1 {
                hv.0.value as int
            } else {
                -1
            },
            None => -1,
        },
{
    match h {
        Some(hv) => if hv.1 {
            hv.0.value
        } else {
            -1
        },
        None => -1,
    }
}

/// Whether the entity is a mature, collectible product; a missing product
/// reads as "no".
pub fn get_harvestable_is_real(h: Option<&Harvestable>) -> (r: Bool)
    ensures
        r.0 == 1 <==> (h matches Some(hv) && hv.1),
        r.0 == 1 || r.0 == 0,
{
    match h {
        Some(hv) => Bool::from_bool(hv.1),
        None => Bool::FALSE(),
    }
}

/// Whether the product is a plant or seed kind; a missing product reads as
/// "no".
pub fn get_harvestable_is_plant(h: Option<&Harvestable>) -> (r: Bool)
    ensures
        r.0 == 1 <==> (h matches Some(hv) && hv.0.plant),
        r.0 == 1 || r.0 == 0,
{
    match h {
        Some(hv) => Bool::from_bool(hv.0.plant),
        None => Bool::FALSE(),
    }
}

/// The unit type recruited from the product, `-1` when the entity is no
/// product or its kind recruits none.
pub fn get_harvestable_troop_id(h: Option<&Harvestable>) -> (r: i32)
    ensures
        r == match h {
            Some(hv) => match hv.0.troop_id {
                Some(t) => t as int,
                None => -1,
            },
            None => -1,
        },
{
    match h {
        Some(hv) => match hv.0.troop_id {
            Some(t) => t,
            None => -1,
        },
        None => -1,
    }
}

/// A spot's raw progress in milliseconds, `0` when the entity is no spot.
pub fn get_harvest_spot_progress(s: Option<&HarvestSpot>) -> (r: i64)
    ensures
        r == match s {
            Some(sp) => sp.progress as int,
            None => 0,
        },
{
    match s {
        Some(sp) => sp.progress,
        None => 0,
    }
}

/// A spot's progress as a clamped per-thousand fraction of its duration,
/// `0` when the entity is no spot.
pub fn get_harvest_spot_progress_perc(s: Option<&HarvestSpot>) -> (r: i64)
    requires
        s matches Some(sp) ==> harvest_spot_wf(*sp),
    ensures
        r == match s {
            Some(sp) => crate::harvest::spec_progress_scaled(*sp, 1000),
            None => 0,
        },
        0 <= r <= 1000,
{
    match s {
        Some(sp) => sp.progress_permille(),
        None => 0,
    }
}

/// A spot's duration in milliseconds, `0` when the entity is no spot.
pub fn get_harvest_spot_harvest_time(s: Option<&HarvestSpot>) -> (r: i64)
    ensures
        r == match s {
            Some(sp) => sp.harvest_time as int,
            None => 0,
        },
{
    match s {
        Some(sp) => sp.harvest_time,
        None => 0,
    }
}

/// The spot's current product entity on the wire: its handle, or the
/// reserved pattern when the entity is no spot or no product is
/// materialized.
pub fn get_harvest_spot_harvestable(s: Option<&HarvestSpot>) -> (r: u64)
    requires
        s matches Some(sp) ==> harvest_spot_wf(*sp),
    ensures
        r == match s {
            Some(sp) => match sp.harvestable_entity {
                Some(e) => e,
                None => MISSING_ID,
            },
            None => MISSING_ID,
        },
{
    match s {
        Some(sp) => match sp.harvestable_entity {
            Some(e) => e,
            None => MISSING_ID,
        },
        None => MISSING_ID,
    }
}

/// A station's child slot that has no definition assigned: each child with
/// whether its spot is occupied, in child order.
pub struct ChildSpot {
    /// The child entity.
    pub id: u64,
    /// Whether its harvest spot currently has a definition.
    pub occupied: bool,
}

/// The first child slot with no definition assigned, or the reserved
/// pattern when every slot is taken — capacity exhaustion is the script's
/// to handle.
pub fn get_free_child_harvest_spot(children: &Vec<ChildSpot>) -> (r: u64)
    requires
        forall|i: int| 0 <= i < children@.len() ==> is_live_id((#[trigger] children@[i]).id),
    ensures
        r == MISSING_ID ==> forall|i: int| 0 <= i < children@.len() ==> (#[trigger] children@[i]).occupied,
        r != MISSING_ID ==> exists|i: int|
            {
                &&& 0 <= i < children@.len()
                &&& (#[trigger] children@[i]).id == r
                &&& !children@[i].occupied
                &&& forall|j: int| 0 <= j < i ==> (#[trigger] children@[j]).occupied
            },
{
    let mut i: usize = 0;
    while i < children.len()
        invariant
            i <= children@.len(),
            forall|j: int| 0 <= j < i ==> (#[trigger] children@[j]).occupied,
            forall|j: int| 0 <= j < children@.len() ==> is_live_id((#[trigger] children@[j]).id),
        decreases children@.len() - i,
    {
        if !children[i].occupied {
            return children[i].id;
        }
        i += 1;
    }
    MISSING_ID
}

/// A script-local value, or the caller's default when the entity has no
/// storage or the id is unbound.
pub fn get_script_value(values: Option<&ScriptValues>, value_id: i32, default: i64) -> (r: i64)
    requires
        values matches Some(v) ==> v.wf(),
    ensures
        r == match values {
            Some(v) => match v.spec_get(value_id as int) {
                Some(x) => x,
                None => default,
            },
            None => default,
        },
{
    match values {
        Some(v) => match v.get(value_id) {
            Some(x) => *x,
            None => default,
        },
        None => default,
    }
}

/// How many opponents the unit's last scan found, `0` when the entity is no
/// unit; a count beyond the wire's range is clamped to it.
pub fn get_enemy_count(t: Option<&Troop>) -> (r: i32)
    ensures
        r == match t {
            Some(tr) => if tr.seen_troops@.len() <= i32::MAX {
                tr.seen_troops@.len() as int
            } else {
                i32::MAX as int
            },
            None => 0,
        },
{
    match t {
        Some(tr) => {
            let n = tr.seen_troops.len();
            if n <= i32::MAX as usize {
                n as i32
            } else {
                i32::MAX
            }
        },
        None => 0,
    }
}

/// The indexed opponent from the unit's last scan on the wire, or the
/// reserved pattern when the entity is no unit or the index is out of
/// range.
pub fn get_enemy(t: Option<&Troop>, index: i32) -> (r: u64)
    requires
        t matches Some(tr) ==> forall|i: int|
            0 <= i < tr.seen_troops@.len() ==> is_live_id(#[trigger] tr.seen_troops@[i]),
    ensures
        r == match t {
            Some(tr) => if 0 <= index < tr.seen_troops@.len() {
                tr.seen_troops@[index as int]
            } else {
                MISSING_ID
            },
            None => MISSING_ID,
        },
{
    match t {
        Some(tr) => {
            if index >= 0 && (index as usize) < tr.seen_troops.len() {
                tr.seen_troops[index as usize]
            } else {
                MISSING_ID
            }
        },
        None => MISSING_ID,
    }
}

/// An entity's horizontal position, `0` when it has none.
pub fn get_x_of(pos: Option<(i32, i32)>) -> (r: i32)
    ensures
        r == match pos {
            Some((x, _y)) => x as int,
            None => 0,
        },
{
    match pos {
        Some((x, _y)) => x,
        None => 0,
    }
}

/// An entity's vertical position, `0` when it has none.
pub fn get_y_of(pos: Option<(i32, i32)>) -> (r: i32)
    ensures
        r == match pos {
            Some((_x, y)) => y as int,
            None => 0,
        },
{
    match pos {
        Some((_x, y)) => y,
        None => 0,
    }
}

/// The sprite a spawned product entity shows: the grown sprite for a mature
/// product, the seed sprite — or the grown one where the kind has no seed
/// form — for a placeholder.
pub fn product_sprite(definition: &HarvestableType, mature: bool) -> (r: usize)
    ensures
        r == if mature {
            definition.sprite_index as int
        } else {
            match definition.seed_sprite_index {
                Some(s) => s as int,
                None => definition.sprite_index as int,
            }
        },
{
    if mature {
        definition.sprite_index
    } else {
        match definition.seed_sprite_index {
            Some(s) => s,
            None => definition.sprite_index,
        }
    }
}

/// Resolve a `spawn_harvestable_by_id` request: what the spawned product
/// entity is tagged with and which sprite it shows — the mature form for
/// the byte `1`, the seed form otherwise — or nothing when no definition
/// carries the id, which the host answers with the reserved pattern.
pub fn spawn_harvestable_by_id(
    defs: &crate::harvest::HarvestableTypes,
    id: i32,
    is_real: Bool,
) -> (r: Option<(Harvestable, usize)>)
    requires
        defs.wf(),
    ensures
        match defs.spec_get(id as int) {
            Some(t) => r matches Some((h, sprite)) && h.0 == t && h.1 == (is_real.0 == 1) && sprite
                == if is_real.0 == 1 {
                t.sprite_index as int
            } else {
                match t.seed_sprite_index {
                    Some(s) => s as int,
                    None => t.sprite_index as int,
                }
            },
            None => r is None,
        },
{
    match defs.get(id) {
        Some(t) => {
            let definition = t.clone_definition();
            let mature = is_real.truth();
            let sprite = product_sprite(&definition, mature);
            Some((Harvestable(definition, mature), sprite))
        },
        None => None,
    }
}

/// Show or hide an entity, as the `set_visibility` import does: exactly the
/// byte `1` shows it.
pub fn set_visibility(visible: &mut bool, new_visibility: Bool)
    ensures
        *final(visible) <==> new_visibility.0 == 1,
{
    *visible = new_visibility.0 == 1;
}

} // verus!
