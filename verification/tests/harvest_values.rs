use scripting_host::commands::{apply_spot_command, CommandBuffer, HostCommand};
use scripting_host::harvest::{
    HarvestSpot, Harvestable, HarvestableType, HarvestableTypes, HARVEST_FRAMES,
};
use scripting_host::imports::{
    get_free_child_harvest_spot, get_harvest_spot_harvestable, get_harvest_spot_progress_perc,
    get_harvestable_id, get_harvestable_is_plant, get_harvestable_is_real, get_harvestable_troop_id,
    get_harvestable_value, get_script_value, product_sprite, set_visibility,
    spawn_harvestable_by_id, ChildSpot,
};
use scripting_host::marshal::Bool;
use scripting_host::marshal::MISSING_ID;
use scripting_host::values::{Registry, ScriptValues, StagingLocation, SPEED_MOD_ID};

fn grapes() -> HarvestableType {
    HarvestableType {
        id: 1,
        base_harvest_time: 2000,
        sprite_index: 3,
        seed_sprite_index: Some(8),
        value: 5,
        plant: true,
        troop_id: None,
    }
}

fn recruit() -> HarvestableType {
    HarvestableType {
        id: 3,
        base_harvest_time: 4000,
        sprite_index: 6,
        seed_sprite_index: None,
        value: 2,
        plant: false,
        troop_id: Some(11),
    }
}

#[test]
fn a_new_definition_resets_the_clock_and_adopts_its_duration() {
    let mut spot = HarvestSpot::new();
    spot.set_progress(500);
    spot.set_harvest_time(100);
    spot.set_harvestable(Some(grapes()));
    assert_eq!(spot.progress, 0);
    assert_eq!(spot.harvest_time, 2000);
    assert!(spot.harvestable_entity.is_none());
    assert_eq!(spot.harvestable_type.as_ref().unwrap().id, 1);
}

#[test]
fn clearing_the_definition_empties_the_spot() {
    let mut spot = HarvestSpot::new();
    spot.set_harvestable(Some(grapes()));
    spot.tick(500);
    spot.attach_product(42);
    spot.set_harvestable(None);
    assert!(spot.harvestable_type.is_none());
    assert!(spot.harvestable_entity.is_none());
    assert_eq!(spot.progress, 0);
    assert_eq!(spot.harvest_time, 0);
}

#[test]
fn growth_fraction_halfway_and_clamped() {
    // A spot given a definition with a two-second duration reads one half
    // after one second, and clamps to the full fraction after two and a
    // half.
    let mut spot = HarvestSpot::new();
    spot.set_harvestable(Some(grapes()));
    spot.tick(1000);
    assert_eq!(spot.progress_permille(), 500);
    assert_eq!(spot.progress_percent(), 50);
    spot.tick(1500);
    assert_eq!(spot.progress_permille(), 1000);
    assert_eq!(spot.progress_percent(), 100);
}

#[test]
fn frame_index_walks_the_sheet_and_empty_shows_the_spare_frame() {
    let mut spot = HarvestSpot::new();
    assert_eq!(spot.frame_index(), HARVEST_FRAMES);
    spot.set_harvestable(Some(grapes()));
    assert_eq!(spot.frame_index(), 0);
    spot.tick(1000);
    // Halfway: floor(0.5 * 11) = 5.
    assert_eq!(spot.frame_index(), 5);
    spot.tick(5000);
    assert_eq!(spot.frame_index(), HARVEST_FRAMES - 1);
}

#[test]
fn product_entity_needs_a_definition_and_is_materialized_once() {
    let mut spot = HarvestSpot::new();
    assert!(!spot.needs_product());
    spot.set_harvestable(Some(grapes()));
    assert!(spot.needs_product());
    spot.attach_product(42);
    assert!(!spot.needs_product());
    // The invariant: a product entity implies a definition.
    assert!(spot.harvestable_type.is_some());
    assert_eq!(
        get_harvest_spot_harvestable(Some(&spot)),
        42
    );
    assert_eq!(get_harvest_spot_harvestable(None), MISSING_ID);
}

#[test]
fn fraction_reads_default_to_zero_without_a_spot() {
    assert_eq!(get_harvest_spot_progress_perc(None), 0);
}

#[test]
fn product_reads_and_their_defaults() {
    let mature = Harvestable(grapes(), true);
    let seed = Harvestable(grapes(), false);
    let rec = Harvestable(recruit(), true);
    assert_eq!(get_harvestable_id(Some(&mature)), 1);
    assert_eq!(get_harvestable_id(None), -1);
    assert_eq!(get_harvestable_value(Some(&mature)), 5);
    assert_eq!(get_harvestable_value(Some(&seed)), -1);
    assert_eq!(get_harvestable_value(None), -1);
    assert_eq!(get_harvestable_is_real(Some(&mature)).0, 1);
    assert_eq!(get_harvestable_is_real(Some(&seed)).0, 0);
    assert_eq!(get_harvestable_is_real(None).0, 0);
    assert_eq!(get_harvestable_is_plant(Some(&mature)).0, 1);
    assert_eq!(get_harvestable_is_plant(Some(&rec)).0, 0);
    assert_eq!(get_harvestable_troop_id(Some(&rec)), 11);
    assert_eq!(get_harvestable_troop_id(Some(&mature)), -1);
    assert_eq!(get_harvestable_troop_id(None), -1);
}

#[test]
fn seed_and_mature_products_pick_their_sprites() {
    assert_eq!(product_sprite(&grapes(), true), 3);
    assert_eq!(product_sprite(&grapes(), false), 8);
    assert_eq!(product_sprite(&recruit(), false), 6);
}

#[test]
fn the_first_unoccupied_child_slot_wins() {
    let children = vec![
        ChildSpot { id: 10, occupied: true },
        ChildSpot { id: 11, occupied: false },
        ChildSpot { id: 12, occupied: false },
    ];
    assert_eq!(get_free_child_harvest_spot(&children), 11);
    let full = vec![ChildSpot { id: 10, occupied: true }];
    assert_eq!(get_free_child_harvest_spot(&full), MISSING_ID);
    assert_eq!(get_free_child_harvest_spot(&Vec::new()), MISSING_ID);
}

#[test]
fn registry_lookup_insert_and_replace() {
    let mut defs: HarvestableTypes = Registry::new();
    assert!(defs.get(1).is_none());
    defs.set(1, grapes());
    defs.set(3, recruit());
    assert_eq!(defs.get(1).unwrap().value, 5);
    assert_eq!(defs.get(3).unwrap().troop_id, Some(11));
    let mut replacement = grapes();
    replacement.value = 9;
    defs.set(1, replacement);
    assert_eq!(defs.get(1).unwrap().value, 9);
    assert!(defs.get(2).is_none());
}

#[test]
fn script_values_read_with_a_default_and_overwrite() {
    let mut values: ScriptValues = Registry::new();
    assert_eq!(get_script_value(Some(&values), SPEED_MOD_ID, 1000), 1000);
    assert_eq!(get_script_value(None, SPEED_MOD_ID, 700), 700);
    values.set(SPEED_MOD_ID, 1200);
    assert_eq!(get_script_value(Some(&values), SPEED_MOD_ID, 1000), 1200);
    values.set(SPEED_MOD_ID, 1300);
    assert_eq!(get_script_value(Some(&values), SPEED_MOD_ID, 1000), 1300);
}

#[test]
fn staging_queue_drains_in_order() {
    let mut staging = StagingLocation::new();
    staging.stage(4);
    staging.stage(7);
    let drained = staging.drain();
    assert_eq!(drained.len(), 2);
    assert_eq!(drained[0].troop_id, 4);
    assert_eq!(drained[1].troop_id, 7);
    assert!(staging.drain().is_empty());
}

#[test]
fn deferred_commands_flush_in_order_and_apply_to_the_spot() {
    let mut buf = CommandBuffer::new();
    buf.push(HostCommand::SetSpotDefinition { spot: 9, definition_id: 1 });
    buf.push(HostCommand::SetSpotProgressPermille { spot: 9, permille: 1000 });
    let cmds = buf.drain();
    assert_eq!(cmds.len(), 2);

    let mut defs: HarvestableTypes = Registry::new();
    defs.set(1, grapes());
    let mut spot = HarvestSpot::new();
    for cmd in &cmds {
        assert!(apply_spot_command(cmd, &mut spot, &defs));
    }
    assert_eq!(spot.harvestable_type.as_ref().unwrap().id, 1);
    assert_eq!(spot.harvest_time, 2000);
    assert_eq!(spot.progress, 2000);
    assert_eq!(spot.progress_permille(), 1000);

    // Clearing by the guest's negative id.
    let clear = HostCommand::SetSpotDefinition { spot: 9, definition_id: -1 };
    assert!(apply_spot_command(&clear, &mut spot, &defs));
    assert!(spot.harvestable_type.is_none());
    assert_eq!(spot.progress, 0);

    // A command aimed elsewhere leaves the spot alone.
    let other = HostCommand::PlaySound { sound_id: 2 };
    assert!(!apply_spot_command(&other, &mut spot, &defs));
}

#[test]
fn spawning_a_product_by_id_resolves_its_tag_and_sprite() {
    let mut defs: HarvestableTypes = Registry::new();
    defs.set(1, grapes());
    let (tag, sprite) = spawn_harvestable_by_id(&defs, 1, Bool(1)).unwrap();
    assert_eq!(tag.0.id, 1);
    assert!(tag.1);
    assert_eq!(sprite, 3);
    let (tag, sprite) = spawn_harvestable_by_id(&defs, 1, Bool(0)).unwrap();
    assert!(!tag.1);
    assert_eq!(sprite, 8);
    assert!(spawn_harvestable_by_id(&defs, 99, Bool(1)).is_none());
}

#[test]
fn visibility_follows_the_wire_byte() {
    let mut visible = false;
    set_visibility(&mut visible, Bool(1));
    assert!(visible);
    set_visibility(&mut visible, Bool(0));
    assert!(!visible);
    set_visibility(&mut visible, Bool(2));
    assert!(!visible);
}

#[test]
fn write_mutators_store_what_was_asked_and_only_reads_clamp() {
    let mut spot = HarvestSpot::new();
    spot.set_harvestable(Some(grapes()));
    // A negative raw progress is stored as given; the read form clamps.
    spot.set_progress(-500);
    assert_eq!(spot.progress, -500);
    assert_eq!(spot.progress_permille(), 0);
    assert_eq!(spot.progress_percent(), 0);
    // An overshooting fraction is scaled and stored past the duration; the
    // read form clamps to the unit interval.
    spot.set_progress_permille(1500);
    assert_eq!(spot.progress, 3000);
    assert_eq!(spot.progress_permille(), 1000);
    // A negative fraction scales to a negative clock.
    spot.set_progress_permille(-500);
    assert_eq!(spot.progress, -1000);
    assert_eq!(spot.progress_permille(), 0);
    // A negative duration is stored as given; with the clock at a negative
    // value too, the fraction reads positive, clamped on the read.
    spot.set_harvest_time(-2000);
    assert_eq!(spot.harvest_time, -2000);
    assert_eq!(spot.progress_permille(), 500);
    spot.set_progress(1000);
    assert_eq!(spot.progress_permille(), 0);
}

#[test]
fn deferred_writes_store_unclamped_too() {
    let defs: HarvestableTypes = Registry::new();
    let mut spot = HarvestSpot::new();
    spot.set_harvestable(None);
    let cmd = HostCommand::SetSpotProgress { spot: 9, progress_millis: -250 };
    assert!(apply_spot_command(&cmd, &mut spot, &defs));
    assert_eq!(spot.progress, -250);
    let cmd = HostCommand::SetSpotHarvestTime { spot: 9, harvest_time_millis: -1 };
    assert!(apply_spot_command(&cmd, &mut spot, &defs));
    assert_eq!(spot.harvest_time, -1);
}
