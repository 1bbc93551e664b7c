//! Deferred host mutations.
//!
//! While a system iterates host state and calls into guests, a guest call
//! may ask the host to mutate that same state — or state belonging to an
//! entity that does not exist yet, created by an earlier deferred command in
//! the same tick.  Such requests are appended to a buffer and applied in
//! order once the owning system's pass is over, so a guest call early in an
//! iteration never observes the effects of a later one, and no request is
//! silently dropped.

use vstd::prelude::*;
use crate::harvest::HarvestSpot;
use crate::harvest::HarvestableType;
use crate::harvest::HarvestableTypes;
use crate::harvest::harvest_spot_wf;
use crate::harvest::harvestable_type_wf;
use crate::geometry::clamp_i64;
use crate::geometry::trunc_div;

verus! {

/// One buffered mutation request, named by the import that asked for it.
#[derive(Clone, Copy, PartialEq, Eq, Structural)]
pub enum HostCommand {
    /// Destroy an entity.
    DespawnEntity { entity: u64 },
    /// Attach an entity as a child of another.
    AttachChild { parent: u64, child: u64 },
    /// Show or hide an entity.
    SetVisibility { entity: u64, visible: bool },
    /// Overwrite a harvest spot's raw progress.
    SetSpotProgress { spot: u64, progress_millis: i64 },
    /// Overwrite a harvest spot's progress as a fraction of its duration.
    SetSpotProgressPermille { spot: u64, permille: i64 },
    /// Overwrite a harvest spot's duration.
    SetSpotHarvestTime { spot: u64, harvest_time_millis: i64 },
    /// Install a definition on a harvest spot by id, or clear it with a
    /// negative id or an id no definition carries.
    SetSpotDefinition { spot: u64, definition_id: i32 },
    /// Queue a unit type at a staging station.
    StageTroop { station: u64, troop_id: i32 },
    /// Add to a unit's health.
    HealTroop { entity: u64, amount: i32 },
    /// Create a product entity of a definition, mature or as a seed.
    SpawnProduct { definition_id: i32, mature: bool },
    /// Trigger a sound.
    PlaySound { sound_id: i32 },
}

/// The per-tick buffer of deferred mutations, applied oldest first.
pub struct CommandBuffer {
    pub items: Vec<HostCommand>,
}

impl CommandBuffer {
    pub fn new() -> (r: CommandBuffer)
        ensures
            r.items@.len() == 0,
    {
        CommandBuffer { items: Vec::new() }
    }

    /// Record one request, after everything recorded so far.
    pub fn push(&mut self, cmd: HostCommand)
        ensures
            final(self).items@ == old(self).items@.push(cmd),
    {
        self.items.push(cmd);
    }

    /// Hand the whole buffer to the flush step, oldest request first,
    /// leaving the buffer empty.
    pub fn drain(&mut self) -> (r: Vec<HostCommand>)
        ensures
            r@ == old(self).items@,
            final(self).items@.len() == 0,
    {
        let mut out: Vec<HostCommand> = Vec::new();
        core::mem::swap(&mut out, &mut self.items);
        out
    }
}

impl Default for CommandBuffer {
    /// A tick starts with nothing deferred.
    fn default() -> (r: CommandBuffer)
        ensures
            r.items@.len() == 0,
    {
        CommandBuffer { items: Vec::new() }
    }
}

/// Apply a spot-targeted command to the harvest spot it names, resolving a
/// definition id through the table; any other command leaves the spot
/// untouched and is reported as not consumed here.
pub fn apply_spot_command(cmd: &HostCommand, spot: &mut HarvestSpot, defs: &HarvestableTypes) -> (r:
    bool)
    requires
        harvest_spot_wf(*old(spot)),
        defs.wf(),
        forall|k: int|
            #[trigger] defs.spec_get(k) matches Some(t) ==> harvestable_type_wf(t),
    ensures
        harvest_spot_wf(*final(spot)),
        match *cmd {
            HostCommand::SetSpotProgress { progress_millis, .. } => r && *final(spot) == (
            HarvestSpot { progress: progress_millis, ..*old(spot) }),
            HostCommand::SetSpotProgressPermille { permille, .. } => r && *final(spot) == (
            HarvestSpot {
                progress: clamp_i64(trunc_div(permille * old(spot).harvest_time, 1000)) as i64,
                ..*old(spot)
            }),
            HostCommand::SetSpotHarvestTime { harvest_time_millis, .. } => r && *final(spot) == (
            HarvestSpot { harvest_time: harvest_time_millis, ..*old(spot) }),
            HostCommand::SetSpotDefinition { definition_id, .. } => {
                &&& r
                &&& final(spot).harvestable_type == if definition_id >= 0 {
                    defs.spec_get(definition_id as int)
                } else {
                    None::<HarvestableType>
                }
                &&& final(spot).harvestable_entity is None
                &&& final(spot).progress == 0
            },
            _ => !r && *final(spot) == *old(spot),
        },
{
    match cmd {
        HostCommand::SetSpotProgress { progress_millis, .. } => {
            spot.set_progress(*progress_millis);
            true
        },
        HostCommand::SetSpotProgressPermille { permille, .. } => {
            spot.set_progress_permille(*permille);
            true
        },
        HostCommand::SetSpotHarvestTime { harvest_time_millis, .. } => {
            spot.set_harvest_time(*harvest_time_millis);
            true
        },
        HostCommand::SetSpotDefinition { definition_id, .. } => {
            let definition: Option<HarvestableType> = if *definition_id >= 0 {
                match defs.get(*definition_id) {
                    Some(t) => Some(t.clone_definition()),
                    None => None,
                }
            } else {
                None
            };
            spot.set_harvestable(definition);
            true
        },
        _ => false,
    }
}

} // verus!
