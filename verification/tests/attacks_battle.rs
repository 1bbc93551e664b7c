use scripting_host::attacks::{Attack, AttackPhase, AttackType, AttackTypes};
use scripting_host::battle::{
    attack_enemy, cooldown_tick, get_distance, movement_step, nearest_seen_index,
    resolved_attack_kind, visible_opponents, Faction, MoveOutcome, Troop, TroopCooldown, TroopType,
};
use scripting_host::dispatch::ScriptHandle;
use scripting_host::imports::{get_enemy, get_enemy_count, get_x_of, get_y_of};
use scripting_host::marshal::MISSING_ID;
use scripting_host::values::Registry;

fn soldier_kind() -> TroopType {
    TroopType { id: 2, health: 5, sprite_index: 1, size: 8, script: ScriptHandle::new(1) }
}

fn slash() -> AttackType {
    AttackType {
        id: 4,
        cooldown: 1500,
        phases: vec![
            AttackPhase::Overlay { sprite_index: 2, duration: 1000 },
            AttackPhase::Damage { amount: 3 },
        ],
    }
}

#[test]
fn overlay_then_damage_takes_three_health_and_ends_the_attack() {
    // An attack queued with a one-second overlay and three damage against a
    // unit with five health: once the sequence completes the health is two
    // and the instance is gone.
    let mut target = Troop::new(soldier_kind(), (0, 0));
    let mut attack = Attack::new(100, 200, &slash());
    let dt = 500;
    let mut ticks: i32 = 0;
    loop {
        let eff = attack.step(dt, Some((0, 0)), Some((10, 10)));
        ticks += 1;
        if eff.damage > 0 {
            target.apply_damage(eff.damage);
        }
        if eff.destroyed {
            break;
        }
        assert!(ticks < 100, "the sequencer must terminate");
    }
    assert_eq!(target.health, 2);
    // Entry tick, three countdown ticks (1000, 500, 0 before going
    // negative), and the damage tick.
    assert_eq!(ticks, 5);
}

#[test]
fn overlay_entry_snaps_to_the_target_and_shows_the_sprite() {
    let mut attack = Attack::new(100, 200, &slash());
    assert!(!attack.visible);
    let eff = attack.step(500, Some((1, 2)), Some((10, 20)));
    assert!(!eff.destroyed);
    assert_eq!(eff.damage, 0);
    assert!(attack.visible);
    assert_eq!(attack.sprite_index, 2);
    assert_eq!((attack.pos_x, attack.pos_y), (10, 20));
}

#[test]
fn damage_entry_hides_the_instance() {
    let mut attack = Attack::new(100, 200, &slash());
    // Entry tick, then run the overlay down; the tick that finishes it
    // enters the damage phase, which hides the instance.
    for _ in 0..4 {
        attack.step(500, Some((0, 0)), Some((10, 20)));
    }
    assert!(!attack.visible);
}

#[test]
fn a_vanished_target_destroys_the_attack_at_once() {
    let mut attack = Attack::new(100, 200, &slash());
    attack.step(500, Some((0, 0)), Some((10, 20)));
    let eff = attack.step(500, Some((0, 0)), None);
    assert!(eff.destroyed);
    assert_eq!(eff.damage, 0);
}

#[test]
fn a_projectile_travels_and_completes_within_reach() {
    let kind = AttackType {
        id: 7,
        cooldown: 0,
        phases: vec![AttackPhase::Projectile { sprite_index: 9, speed: 100 }],
    };
    let mut attack = Attack::new(100, 200, &kind);
    // Entry snaps to the attacker.
    let eff = attack.step(1000, Some((0, 0)), Some((300, 0)));
    assert!(!eff.destroyed);
    assert_eq!((attack.pos_x, attack.pos_y), (0, 0));
    assert_eq!(attack.sprite_index, 9);
    assert!(attack.visible);
    // 100 units per second, one-second ticks: 100 units per tick.
    let eff = attack.step(1000, Some((0, 0)), Some((300, 0)));
    assert!(!eff.destroyed);
    assert_eq!((attack.pos_x, attack.pos_y), (100, 0));
    let eff = attack.step(1000, Some((0, 0)), Some((300, 0)));
    assert!(!eff.destroyed);
    assert_eq!((attack.pos_x, attack.pos_y), (200, 0));
    // 100 units left: not strictly within one tick's travel, so one more
    // hop lands on the target, and the next tick completes and, with an
    // empty queue, destroys the instance.
    let eff = attack.step(1000, Some((0, 0)), Some((300, 0)));
    assert!(!eff.destroyed);
    assert_eq!((attack.pos_x, attack.pos_y), (300, 0));
    let eff = attack.step(1000, Some((0, 0)), Some((300, 0)));
    assert!(eff.destroyed);
}

#[test]
fn attack_kinds_resolve_by_id() {
    let mut kinds: AttackTypes = Registry::new();
    kinds.set(4, slash());
    assert_eq!(kinds.get(4).unwrap().cooldown, 1500);
    assert!(kinds.get(-4).is_none());
}

#[test]
fn a_dodged_attack_negates_its_kind_id() {
    // Roll under the dodge chance: dodged, the damage script sees the
    // negated id; otherwise the id passes through.
    assert_eq!(resolved_attack_kind(4, 100, 250), -4);
    assert_eq!(resolved_attack_kind(4, 250, 250), 4);
    assert_eq!(resolved_attack_kind(4, 900, 250), 4);
    assert_eq!(resolved_attack_kind(4, 0, 0), 4);
    // The id is signed on the wire: a guest may pass any value.
    assert_eq!(resolved_attack_kind(-4, 100, 250), 4);
    assert_eq!(resolved_attack_kind(-4, 900, 250), -4);
    assert_eq!(resolved_attack_kind(i32::MIN, 100, 250), i32::MIN);
}

#[test]
fn scanning_keeps_other_factions_in_order() {
    let troops = vec![(1u64, 0i32), (2, 1), (3, 1), (4, 0), (5, 1)];
    let seen = visible_opponents(1, 0, &troops);
    assert_eq!(seen, vec![2, 3, 5]);
    let seen_enemy_side = visible_opponents(2, 1, &troops);
    assert_eq!(seen_enemy_side, vec![1, 4]);
}

#[test]
fn the_nearest_seen_opponent_wins_and_unknown_positions_lose() {
    let others = vec![
        (10u64, Some((100, 0))),
        (11, None),
        (12, Some((3, 4))),
        (13, Some((3, 4))),
    ];
    assert_eq!(nearest_seen_index(0, 0, &others), Some(2));
    assert_eq!(nearest_seen_index(0, 0, &Vec::new()), None);
    let only_unknown = vec![(11u64, None)];
    assert_eq!(nearest_seen_index(0, 0, &only_unknown), Some(0));
}

#[test]
fn distances_are_rounded_down_euclidean_with_a_missing_sentinel() {
    assert_eq!(get_distance(Some((0, 0)), Some((3, 4))), 5);
    assert_eq!(get_distance(Some((0, 0)), Some((1, 1))), 1);
    assert_eq!(get_distance(Some((0, 0)), None), -1);
    assert_eq!(get_distance(None, Some((0, 0))), -1);
}

#[test]
fn cooldowns_run_out_and_expire_strictly_below_zero() {
    let mut c = TroopCooldown(1000);
    assert!(!cooldown_tick(&mut c, 500));
    assert!(!cooldown_tick(&mut c, 500));
    assert_eq!(c.0, 0);
    assert!(cooldown_tick(&mut c, 500));
}

#[test]
fn movement_orders_travel_and_arrive() {
    let mut troop = Troop::new(soldier_kind(), (0, 0));
    assert!(matches!(movement_step(&mut troop, 0, 0, 1000), MoveOutcome::Idle));
    troop.move_towards(300, 0, 100);
    match movement_step(&mut troop, 0, 0, 1000) {
        MoveOutcome::Travel { x, y } => {
            assert_eq!((x, y), (100, 0));
        },
        _ => panic!("expected travel"),
    }
    assert!(troop.target.is_some());
    // Within one tick of the destination: the order completes and clears.
    match movement_step(&mut troop, 250, 0, 1000) {
        MoveOutcome::Arrived => {},
        _ => panic!("expected arrival"),
    }
    assert!(troop.target.is_none());
}

#[test]
fn retreat_heads_back_to_the_staging_point() {
    let mut troop = Troop::new(soldier_kind(), (40, -8));
    troop.retreat(80);
    assert_eq!(troop.target, Some(((40, -8), 80)));
}

#[test]
fn healing_and_damage_move_health_exactly() {
    let mut troop = Troop::new(soldier_kind(), (0, 0));
    assert_eq!(troop.health, 5);
    troop.apply_damage(3);
    assert_eq!(troop.health, 2);
    troop.apply_damage(4);
    assert_eq!(troop.health, -2);
    troop.heal(7);
    assert_eq!(troop.health, 5);
}

#[test]
fn factions_take_their_sides() {
    assert_eq!(Faction::player().faction_id, 0);
    assert_eq!(Faction::enemy().faction_id, 1);
    let mut troop = Troop::new(soldier_kind(), (0, 0));
    troop.scan(vec![8, 9]);
    assert_eq!(troop.seen_troops, vec![8, 9]);
}

#[test]
fn an_attack_order_resolves_its_kind_and_charges_its_cooldown() {
    let mut kinds: AttackTypes = Registry::new();
    kinds.set(4, slash());
    let (attack, cooldown) = attack_enemy(100, 200, 4, 900, 250, &kinds);
    let attack = attack.expect("the undodged kind is authored");
    assert_eq!(cooldown, 1500);
    assert_eq!(attack.attacker, 100);
    assert_eq!(attack.target, 200);
    assert!(attack.phase.is_none());
    assert_eq!(attack.remaining_phases.len(), 2);
    // A dodged attack resolves the negated id; with no authored kind for
    // it, nothing is spawned and no cooldown is charged.
    let (attack, cooldown) = attack_enemy(100, 200, 4, 100, 250, &kinds);
    assert!(attack.is_none());
    assert_eq!(cooldown, 0);
}

#[test]
fn enemy_reads_and_their_defaults() {
    let mut troop = Troop::new(soldier_kind(), (0, 0));
    troop.scan(vec![8, 9]);
    assert_eq!(get_enemy_count(Some(&troop)), 2);
    assert_eq!(get_enemy_count(None), 0);
    assert_eq!(get_enemy(Some(&troop), 0), 8);
    assert_eq!(get_enemy(Some(&troop), 1), 9);
    assert_eq!(get_enemy(Some(&troop), 2), MISSING_ID);
    assert_eq!(get_enemy(Some(&troop), -1), MISSING_ID);
    assert_eq!(get_enemy(None, 0), MISSING_ID);
    assert_eq!(get_x_of(Some((3, 4))), 3);
    assert_eq!(get_y_of(Some((3, 4))), 4);
    assert_eq!(get_x_of(None), 0);
    assert_eq!(get_y_of(None), 0);
}
