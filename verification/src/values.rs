//! Small id-keyed stores the host owns on behalf of the guests.
//!
//! A [`Registry`] maps small integer ids to entries, with each id present at
//! most once; it backs the static definition tables (products, units, attack
//! kinds) and the per-entity script-local numeric storage.  A
//! [`StagingLocation`] is the per-station ordered queue of pending unit
//! spawn requests, drained by an external spawner each tick.

use vstd::prelude::*;

verus! {

/// An id-keyed table with unique keys, looked up by small integer ids.
pub struct Registry<T> {
    pub items: Vec<(i32, T)>,
}

impl<T> Registry<T> {
    /// Keys are pairwise distinct.
    pub open spec fn wf(self) -> bool {
        forall|i: int, j: int|
            0 <= i < j < self.items@.len() ==> (#[trigger] self.items@[i]).0 != (
            #[trigger] self.items@[j]).0
    }

    /// Whether some entry carries the key.
    pub open spec fn contains_key(self, k: int) -> bool {
        exists|i: int| 0 <= i < self.items@.len() && (#[trigger] self.items@[i]).0 == k
    }

    /// The index of the entry carrying the key.
    pub open spec fn spec_index_of(self, k: int) -> int {
        choose|i: int| 0 <= i < self.items@.len() && (#[trigger] self.items@[i]).0 == k
    }

    /// What a lookup yields.
    pub open spec fn spec_get(self, k: int) -> Option<T> {
        if self.contains_key(k) {
            Some(self.items@[self.spec_index_of(k)].1)
        } else {
            None
        }
    }

    /// How many entries the table holds.
    pub open spec fn spec_len(self) -> nat {
        self.items@.len()
    }

    pub fn new() -> (r: Registry<T>)
        ensures
            r.wf(),
            r.spec_len() == 0,
            forall|k: int| r.spec_get(k) is None,
    {
        Registry { items: Vec::new() }
    }

    /// Look an id up.
    pub fn get(&self, id: i32) -> (r: Option<&T>)
        requires
            self.wf(),
        ensures
            match r {
                Some(t) => self.spec_get(id as int) == Some(*t),
                None => self.spec_get(id as int) is None,
            },
    {
        let mut i: usize = 0;
        while i < self.items.len()
            invariant
                self.wf(),
                i <= self.items@.len(),
                forall|j: int| 0 <= j < i ==> (#[trigger] self.items@[j]).0 != id,
            decreases self.items@.len() - i,
        {
            if self.items[i].0 == id {
                proof {
                    let w = self.spec_index_of(id as int);
                    assert(0 <= w < self.items@.len() && self.items@[w].0 == id);
                    assert(w == i);
                }
                return Some(&self.items[i].1);
            }
            i += 1;
        }
        None
    }

    /// Bind an id: replace its entry if present, append one otherwise.
    pub fn set(&mut self, id: i32, value: T)
        requires
            old(self).wf(),
        ensures
            final(self).wf(),
            final(self).spec_get(id as int) == Some(value),
            forall|k: int| k != id ==> final(self).spec_get(k) == old(self).spec_get(k),
    {
        let ghost orig = *self;
        let mut i: usize = 0;
        while i < self.items.len()
            invariant
                *self == orig,
                orig == *old(self),
                orig.wf(),
                i <= self.items@.len(),
                forall|j: int| 0 <= j < i ==> (#[trigger] self.items@[j]).0 != id,
            decreases self.items@.len() - i,
        {
            if self.items[i].0 == id {
                self.items.set(i, (id, value));
                proof {
                    assert(self.items@ == orig.items@.update(i as int, (id, value)));
                    assert(self.wf());
                    lemma_registry_update(orig, *self, id as int, i as int);
                }
                return;
            }
            i += 1;
        }
        self.items.push((id, value));
        proof {
            assert(forall|j: int|
                0 <= j < orig.items@.len() ==> #[trigger] self.items@[j] == orig.items@[j]);
            assert(final(self).wf());
            lemma_registry_append(orig, *self, id as int);
        }
    }
}

/// After replacing the one entry that carried `id`, a lookup of `id` finds
/// the new entry and every other lookup is unchanged.
proof fn lemma_registry_update<T>(orig: Registry<T>, upd: Registry<T>, id: int, i: int)
    requires
        orig.wf(),
        upd.wf(),
        0 <= i < orig.items@.len(),
        orig.items@[i].0 == id,
        upd.items@ == orig.items@.update(i, (id as i32, upd.items@[i].1)),
        upd.items@[i].0 == id,
    ensures
        upd.spec_get(id) == Some(upd.items@[i].1),
        forall|k: int| k != id ==> upd.spec_get(k) == orig.spec_get(k),
{
    assert(upd.contains_key(id));
    let w = upd.spec_index_of(id);
    assert(0 <= w < upd.items@.len() && upd.items@[w].0 == id);
    assert(w == i);
    assert forall|k: int| k != id implies upd.spec_get(k) == orig.spec_get(k) by {
        assert(forall|j: int|
            0 <= j < upd.items@.len() && j != i ==> #[trigger] upd.items@[j] == orig.items@[j]);
        if orig.contains_key(k) {
            let a = orig.spec_index_of(k);
            assert(0 <= a < orig.items@.len() && orig.items@[a].0 == k);
            assert(a != i);
            assert(upd.items@[a].0 == k);
            assert(upd.contains_key(k));
            let b = upd.spec_index_of(k);
            assert(0 <= b < upd.items@.len() && upd.items@[b].0 == k);
            assert(b != i);
            assert(orig.items@[b].0 == k);
            assert(a == b);
        } else {
            if upd.contains_key(k) {
                let b = upd.spec_index_of(k);
                assert(0 <= b < upd.items@.len() && upd.items@[b].0 == k);
                assert(b != i);
                assert(orig.items@[b].0 == k);
            }
        }
    }
}

/// After appending an entry with a key no other entry carries, a lookup of
/// that key finds it and every other lookup is unchanged.
proof fn lemma_registry_append<T>(orig: Registry<T>, upd: Registry<T>, id: int)
    requires
        orig.wf(),
        upd.wf(),
        upd.items@.len() == orig.items@.len() + 1,
        forall|j: int| 0 <= j < orig.items@.len() ==> #[trigger] upd.items@[j] == orig.items@[j],
        upd.items@[orig.items@.len() as int].0 == id,
        !orig.contains_key(id),
    ensures
        upd.spec_get(id) == Some(upd.items@[orig.items@.len() as int].1),
        forall|k: int| k != id ==> upd.spec_get(k) == orig.spec_get(k),
{
    let n = orig.items@.len() as int;
    assert(upd.contains_key(id));
    let w = upd.spec_index_of(id);
    assert(0 <= w < upd.items@.len() && upd.items@[w].0 == id);
    assert(w == n);
    assert forall|k: int| k != id implies upd.spec_get(k) == orig.spec_get(k) by {
        if orig.contains_key(k) {
            let a = orig.spec_index_of(k);
            assert(0 <= a < n && orig.items@[a].0 == k);
            assert(upd.items@[a].0 == k);
            assert(upd.contains_key(k));
            let b = upd.spec_index_of(k);
            assert(0 <= b < upd.items@.len() && upd.items@[b].0 == k);
            assert(b != n);
            assert(orig.items@[b].0 == k);
            assert(a == b);
        } else {
            if upd.contains_key(k) {
                let b = upd.spec_index_of(k);
                assert(0 <= b < upd.items@.len() && upd.items@[b].0 == k);
                assert(b != n);
                assert(orig.items@[b].0 == k);
            }
        }
    }
}

/// Script-local numeric storage: per-entity values keyed by small value ids,
/// in fixed-point thousandths.  Guests read with a caller-supplied default
/// and write freely; the host gives the ids below a meaning.
pub type ScriptValues = Registry<i64>;

/// Movement speed multiplier, in thousandths.
pub const SPEED_MOD_ID: i32 = 0;

/// Attack cooldown multiplier, in thousandths.
pub const ATTACK_SPEED_MOD_ID: i32 = 1;

/// Attack range multiplier, in thousandths.
pub const ATTACK_RANGE_MOD_ID: i32 = 2;

/// Chance to dodge an incoming attack, in thousandths.
pub const DODGE_CHANCE_ID: i32 = 3;

/// A pending unit spawn request: the unit type to spawn and the script-local
/// values it starts with.
pub struct StagedTroop {
    pub troop_id: i32,
    pub buffs: ScriptValues,
}

/// The per-station ordered queue of pending unit spawn requests.
pub struct StagingLocation {
    pub staged: Vec<StagedTroop>,
}

impl StagingLocation {
    pub fn new() -> (r: StagingLocation)
        ensures
            r.staged@.len() == 0,
    {
        StagingLocation { staged: Vec::new() }
    }

    /// Queue a unit with no starting buffs.
    pub fn stage(&mut self, new_troop: i32)
        ensures
            final(self).staged@.len() == old(self).staged@.len() + 1,
            forall|j: int|
                0 <= j < old(self).staged@.len() ==> #[trigger] final(self).staged@[j] == old(
                    self,
                ).staged@[j],
            final(self).staged@[old(self).staged@.len() as int].troop_id == new_troop,
            final(self).staged@[old(self).staged@.len() as int].buffs.spec_len() == 0,
    {
        self.staged.push(StagedTroop { troop_id: new_troop, buffs: Registry::new() });
    }

    /// Queue a unit that starts with the given buffs.
    pub fn stage_with_buffs(&mut self, new_troop: i32, buffs: ScriptValues)
        ensures
            final(self).staged@ == old(self).staged@.push(
                StagedTroop { troop_id: new_troop, buffs },
            ),
    {
        self.staged.push(StagedTroop { troop_id: new_troop, buffs });
    }

    /// Hand the whole queue to the spawner, oldest request first, leaving
    /// the queue empty.
    pub fn drain(&mut self) -> (r: Vec<StagedTroop>)
        ensures
            r@ == old(self).staged@,
            final(self).staged@.len() == 0,
    {
        let mut out: Vec<StagedTroop> = Vec::new();
        core::mem::swap(&mut out, &mut self.staged);
        out
    }
}

impl Default for StagingLocation {
    /// A station starts with nothing staged.
    fn default() -> (r: StagingLocation)
        ensures
            r.staged@.len() == 0,
    {
        StagingLocation { staged: Vec::new() }
    }
}

} // verus!
