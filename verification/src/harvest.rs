//! The harvest spot state machine: a station slot that grows a product over
//! time and yields it once mature.
//!
//! A spot is *empty* while it has no definition, *growing* while its
//! progress is short of its duration, and *ready* once progress reaches the
//! duration.  Time drives progress; guest calls are the only way the
//! definition changes from outside.  The spot's product entity is lazily
//! materialized once per definition and always implies a definition is set.
//!
//! Progress fractions are read in clamped thousandths and percent; the
//! visual frame is a clamped floor-division of the fraction into a fixed
//! number of frames, with a distinct frame for an empty spot.

use vstd::prelude::*;
use crate::geometry::clamp_i64;
use crate::geometry::trunc_div;
use crate::marshal::is_live_id;
use crate::values::Registry;

verus! {

/// How many growth frames the spot's sprite sheet has; an empty spot shows
/// the distinct frame right after them.
pub const HARVEST_FRAMES: usize = 12;

/// A producible or harvestable definition, resolved from a small integer id
/// by an external loader.
#[derive(Clone, Debug)]
pub struct HarvestableType {
    /// The id the definition is keyed by; never negative, since `-1` stands
    /// for "no definition" at the guest boundary.
    pub id: i32,
    /// How long the product takes to grow, in milliseconds.
    pub base_harvest_time: i64,
    /// Sprite for the grown product.
    pub sprite_index: usize,
    /// Sprite for the seed form, if it has one.
    pub seed_sprite_index: Option<usize>,
    /// Market value of the mature product; never negative, since `-1`
    /// stands for "not sellable" at the guest boundary.
    pub value: i32,
    /// Whether the product is a plant or seed kind.
    pub plant: bool,
    /// Unit type recruited from this product, if any; never negative.
    pub troop_id: Option<i32>,
}

/// What every definition upholds.
pub open spec fn harvestable_type_wf(t: HarvestableType) -> bool {
    &&& t.id >= 0
    &&& t.base_harvest_time > 0
    &&& t.value >= 0
    &&& t.troop_id matches Some(u) ==> u >= 0
}

impl HarvestableType {
    /// An exact copy of the definition.
    pub fn clone_definition(&self) -> (r: HarvestableType)
        ensures
            r == *self,
    {
        HarvestableType {
            id: self.id,
            base_harvest_time: self.base_harvest_time,
            sprite_index: self.sprite_index,
            seed_sprite_index: self.seed_sprite_index,
            value: self.value,
            plant: self.plant,
            troop_id: self.troop_id,
        }
    }
}

/// Tags an item entity as a product: its definition, and whether it is the
/// collectible form (`true`) or a seed placeholder (`false`).
#[derive(Clone, Debug)]
pub struct Harvestable(pub HarvestableType, pub bool);

/// A station slot that grows one product at a time.
#[derive(Clone, Debug)]
pub struct HarvestSpot {
    /// The definition being grown, if any.
    pub harvestable_type: Option<HarvestableType>,
    /// The lazily materialized product entity, if it exists yet.
    pub harvestable_entity: Option<u64>,
    /// Elapsed growth, in milliseconds.
    pub progress: i64,
    /// Growth needed for maturity, in milliseconds.
    pub harvest_time: i64,
}

/// The spot's invariant: a product entity exists only under a definition,
/// and handles are live.  The clock fields are whatever the guests last
/// wrote — only the read forms clamp.
pub open spec fn harvest_spot_wf(s: HarvestSpot) -> bool {
    &&& s.harvestable_entity is Some ==> s.harvestable_type is Some
    &&& s.harvestable_entity matches Some(e) ==> is_live_id(e)
    &&& s.harvestable_type matches Some(t) ==> harvestable_type_wf(t)
}

/// Progress as a fraction of the duration, clamped on the read into
/// `0 ..= scale` (thousandths, percent, frames).  A spot with no duration
/// left counts as fully grown as soon as it has any progress.
pub open spec fn spec_progress_scaled(s: HarvestSpot, scale: int) -> int {
    if s.harvest_time == 0 {
        if s.progress > 0 {
            scale
        } else {
            0
        }
    } else {
        let q = trunc_div(s.progress * scale, s.harvest_time as int);
        if q < 0 {
            0
        } else if q > scale {
            scale
        } else {
            q
        }
    }
}

impl HarvestSpot {
    /// A fresh, empty spot.
    pub fn new() -> (r: HarvestSpot)
        ensures
            harvest_spot_wf(r),
            r.harvestable_type is None,
            r.harvestable_entity is None,
            r.progress == 0,
            r.harvest_time == 0,
    {
        HarvestSpot {
            harvestable_type: None,
            harvestable_entity: None,
            progress: 0,
            harvest_time: 0,
        }
    }

    /// Install a new definition or clear the spot.  A new definition resets
    /// progress, clears the product entity, and adopts the definition's
    /// base duration; clearing also resets the duration.
    pub fn set_harvestable(&mut self, harvestable_type: Option<HarvestableType>)
        requires
            harvest_spot_wf(*old(self)),
            harvestable_type matches Some(t) ==> harvestable_type_wf(t),
        ensures
            harvest_spot_wf(*final(self)),
            final(self).harvestable_type == harvestable_type,
            final(self).harvestable_entity is None,
            final(self).progress == 0,
            final(self).harvest_time == match harvestable_type {
                Some(t) => t.base_harvest_time,
                None => 0,
            },
    {
        match harvestable_type {
            Some(t) => {
                self.harvest_time = t.base_harvest_time;
                self.harvestable_type = Some(t);
            },
            None => {
                self.harvest_time = 0;
                self.harvestable_type = None;
            },
        }
        self.progress = 0;
        self.harvestable_entity = None;
    }

    /// One clock tick.  Under a definition, elapsed time accrues to
    /// progress; an empty spot keeps its clock and product cleared.
    pub fn tick(&mut self, delta_millis: i64)
        requires
            harvest_spot_wf(*old(self)),
            0 <= delta_millis,
            old(self).harvestable_type is Some ==> old(self).progress + delta_millis
                <= i64::MAX,
        ensures
            harvest_spot_wf(*final(self)),
            final(self).harvestable_type == old(self).harvestable_type,
            old(self).harvestable_type is Some ==> *final(self) == (HarvestSpot {
                progress: (old(self).progress + delta_millis) as i64,
                ..*old(self)
            }),
            old(self).harvestable_type is None ==> *final(self) == (HarvestSpot {
                harvestable_type: None,
                harvestable_entity: None,
                progress: 0,
                harvest_time: 0,
            }),
    {
        if self.harvestable_type.is_some() {
            self.progress = self.progress + delta_millis;
        } else {
            self.harvestable_entity = None;
            self.progress = 0;
            self.harvest_time = 0;
        }
    }

    /// Progress as a clamped per-thousand fraction of the duration: the
    /// read form guests see, clamped to the unit interval.
    pub fn progress_permille(&self) -> (r: i64)
        requires
            harvest_spot_wf(*self),
        ensures
            r == spec_progress_scaled(*self, 1000),
            0 <= r <= 1000,
    {
        self.scaled_progress(1000)
    }

    /// Progress as a clamped whole percentage of the duration.
    pub fn progress_percent(&self) -> (r: i64)
        requires
            harvest_spot_wf(*self),
        ensures
            r == spec_progress_scaled(*self, 100),
            0 <= r <= 100,
    {
        self.scaled_progress(100)
    }

    /// Progress scaled into `0 ..= scale` with clamping on the read.
    fn scaled_progress(&self, scale: i64) -> (r: i64)
        requires
            0 < scale <= 100_000,
        ensures
            r == spec_progress_scaled(*self, scale as int),
            0 <= r <= scale,
    {
        if self.harvest_time == 0 {
            if self.progress > 0 {
                scale
            } else {
                0
            }
        } else if (self.progress < 0) != (self.harvest_time < 0) {
            // The fraction is at most zero: the read clamps it away.
            proof {
                let p = self.progress as int;
                let t = self.harvest_time as int;
                let c = scale as int;
                assert(vstd::math::abs(p * c) == vstd::math::abs(p) * c) by (nonlinear_arith)
                    requires
                        c > 0,
                ;
                assert(trunc_div(p * c, t) <= 0) by (nonlinear_arith)
                    requires
                        trunc_div(p * c, t) == if (p * c < 0) <==> (t < 0) {
                            (vstd::math::abs(p * c) / vstd::math::abs(t)) as int
                        } else {
                            -((vstd::math::abs(p * c) / vstd::math::abs(t)) as int)
                        },
                        (p < 0) != (t < 0),
                        t != 0,
                        c > 0,
                ;
            }
            0
        } else {
            let pa: u128 = (if self.progress >= 0 {
                self.progress as i128
            } else {
                -(self.progress as i128)
            }) as u128;
            let ta: u128 = (if self.harvest_time >= 0 {
                self.harvest_time as i128
            } else {
                -(self.harvest_time as i128)
            }) as u128;
            proof {
                let p = self.progress as int;
                let t = self.harvest_time as int;
                let c = scale as int;
                assert(0 <= pa * c <= pa * 100_000) by (nonlinear_arith)
                    requires
                        pa >= 0,
                        0 < c <= 100_000,
                ;
                assert(vstd::math::abs(p * c) == pa * c) by (nonlinear_arith)
                    requires
                        pa == vstd::math::abs(p),
                        c > 0,
                ;
                assert(trunc_div(p * c, t) == pa * c / (ta as int)) by (nonlinear_arith)
                    requires
                        trunc_div(p * c, t) == if (p * c < 0) <==> (t < 0) {
                            (vstd::math::abs(p * c) / vstd::math::abs(t)) as int
                        } else {
                            -((vstd::math::abs(p * c) / vstd::math::abs(t)) as int)
                        },
                        vstd::math::abs(p * c) == pa * c,
                        ta == vstd::math::abs(t),
                        !((p < 0) != (t < 0)),
                        t != 0,
                        pa >= 0,
                        c > 0,
                ;
            }
            let q: u128 = pa * (scale as u128) / ta;
            if q > scale as u128 {
                scale
            } else {
                q as i64
            }
        }
    }

    /// The sprite frame the spot shows: an empty spot shows the distinct
    /// "no product" frame, and a growing spot the clamped floor-division of
    /// its fraction into the growth frames.
    pub fn frame_index(&self) -> (r: usize)
        requires
            harvest_spot_wf(*self),
        ensures
            self.harvestable_type is None ==> r == HARVEST_FRAMES,
            self.harvestable_type is Some ==> r == spec_progress_scaled(
                *self,
                HARVEST_FRAMES - 1,
            ),
            r <= HARVEST_FRAMES,
    {
        if self.harvestable_type.is_none() {
            HARVEST_FRAMES
        } else {
            let f = self.scaled_progress((HARVEST_FRAMES - 1) as i64);
            f as usize
        }
    }

    /// Overwrite raw progress, as the guest mutator does: the requested
    /// value is stored as given; only the read forms clamp.
    pub fn set_progress(&mut self, progress_millis: i64)
        requires
            harvest_spot_wf(*old(self)),
        ensures
            harvest_spot_wf(*final(self)),
            *final(self) == (HarvestSpot { progress: progress_millis, ..*old(self) }),
    {
        self.progress = progress_millis;
    }

    /// Overwrite progress as a per-thousand fraction of the current
    /// duration, as the guest mutator does: the requested fraction is
    /// scaled and stored as given — only the read forms clamp — saturating
    /// only at the numeric limits of the stored clock.
    pub fn set_progress_permille(&mut self, permille: i64)
        requires
            harvest_spot_wf(*old(self)),
        ensures
            harvest_spot_wf(*final(self)),
            *final(self) == (HarvestSpot {
                progress: clamp_i64(
                    trunc_div(permille * old(self).harvest_time, 1000),
                ) as i64,
                ..*old(self)
            }),
    {
        proof {
            let pm = permille as int;
            let t = self.harvest_time as int;
            assert(-0x8000_0000_0000_0000 * 0x8000_0000_0000_0000 <= pm * t
                <= 0x8000_0000_0000_0000 * 0x8000_0000_0000_0000) by (nonlinear_arith)
                requires
                    -0x8000_0000_0000_0000 <= pm <= 0x8000_0000_0000_0000,
                    -0x8000_0000_0000_0000 <= t <= 0x8000_0000_0000_0000,
            ;
        }
        let product: i128 = (permille as i128) * (self.harvest_time as i128);
        let neg = product < 0;
        let mag: u128 = (if neg {
            -product
        } else {
            product
        }) as u128;
        proof {
            let pm = permille as int;
            let t = self.harvest_time as int;
            assert(mag == vstd::math::abs(pm * t));
            assert(trunc_div(pm * t, 1000) == if neg {
                -((mag / 1000) as int)
            } else {
                (mag / 1000) as int
            });
        }
        let q: u128 = mag / 1000;
        self.progress = if neg {
            if q > 0x8000_0000_0000_0000u128 {
                i64::MIN
            } else {
                (-(q as i128)) as i64
            }
        } else {
            if q > i64::MAX as u128 {
                i64::MAX
            } else {
                q as i64
            }
        };
    }

    /// Overwrite the duration, as the guest mutator does: the requested
    /// value is stored as given; only the read forms clamp.
    pub fn set_harvest_time(&mut self, harvest_time_millis: i64)
        requires
            harvest_spot_wf(*old(self)),
        ensures
            harvest_spot_wf(*final(self)),
            *final(self) == (HarvestSpot { harvest_time: harvest_time_millis, ..*old(self) }),
    {
        self.harvest_time = harvest_time_millis;
    }

    /// Whether the growth system still has to materialize a product entity
    /// for this spot.
    pub fn needs_product(&self) -> (r: bool)
        ensures
            r <==> (self.harvestable_type is Some && self.harvestable_entity is None),
    {
        self.harvestable_type.is_some() && self.harvestable_entity.is_none()
    }

    /// Record the product entity the growth system just materialized; done
    /// once per definition.
    pub fn attach_product(&mut self, entity: u64)
        requires
            harvest_spot_wf(*old(self)),
            old(self).harvestable_type is Some,
            old(self).harvestable_entity is None,
            is_live_id(entity),
        ensures
            harvest_spot_wf(*final(self)),
            *final(self) == (HarvestSpot { harvestable_entity: Some(entity), ..*old(self) }),
    {
        self.harvestable_entity = Some(entity);
    }
}

/// The harvest spot invariant, as every constructor establishes and every
/// method preserves: a spot with a product entity always has a definition.
pub proof fn lemma_harvest_spot_invariant(s: HarvestSpot)
    requires
        harvest_spot_wf(s),
    ensures
        s.harvestable_entity is Some ==> s.harvestable_type is Some,
{
}

/// The table resolving a small integer id to a definition, filled by an
/// external loader.
pub type HarvestableTypes = Registry<HarvestableType>;

} // verus!
