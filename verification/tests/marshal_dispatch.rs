use scripting_host::dispatch::{
    hook_accepts, produced_entity, resolved_action_cooldown, resolved_death, CallOutcome,
    ScriptHandle, IDLE_ACTION_COOLDOWN_MILLIS,
};
use scripting_host::marshal::{decode_id, encode_id, Bool, MISSING_ID};

#[test]
fn identifier_round_trip_is_exact() {
    for bits in [0u64, 1, 42, 0xDEAD_BEEF, u64::MAX - 1] {
        let decoded = decode_id(bits);
        assert_eq!(decoded, Some(bits));
        assert_eq!(encode_id(decoded), bits);
    }
}

#[test]
fn sentinel_decodes_to_missing_and_only_to_missing() {
    assert_eq!(decode_id(MISSING_ID), None);
    assert_eq!(encode_id(None), MISSING_ID);
    assert_eq!(decode_id(u64::MAX), None);
    assert!(decode_id(u64::MAX - 1).is_some());
}

#[test]
fn bool_wire_bytes() {
    assert_eq!(Bool::TRUE().0, 1);
    assert_eq!(Bool::FALSE().0, 0);
    assert_eq!(Bool::from_bool(true).0, 1);
    assert_eq!(Bool::from_bool(false).0, 0);
    assert!(Bool(1).truth());
    assert!(!Bool(0).truth());
    assert!(!Bool(2).truth());
}

#[test]
fn bool_converts_from_host_booleans() {
    assert_eq!(Bool::from(true).0, 1);
    assert_eq!(Bool::from(false).0, 0);
}

#[test]
fn acceptance_defaults_to_reject() {
    assert!(hook_accepts(&CallOutcome::Returned(Bool(1))));
    assert!(!hook_accepts(&CallOutcome::Returned(Bool(0))));
    assert!(!hook_accepts(&CallOutcome::Returned(Bool(7))));
    assert!(!hook_accepts(&CallOutcome::MissingExport));
    assert!(!hook_accepts(&CallOutcome::NotReady));
    assert!(!hook_accepts(&CallOutcome::Trapped));
}

#[test]
fn produce_outcome_decodes_under_the_sentinel_rule() {
    assert_eq!(produced_entity(&CallOutcome::Returned(99)), Some(99));
    assert_eq!(produced_entity(&CallOutcome::Returned(MISSING_ID)), None);
    assert_eq!(produced_entity(&CallOutcome::MissingExport), None);
    assert_eq!(produced_entity(&CallOutcome::Trapped), None);
}

#[test]
fn missing_on_death_hook_means_the_unit_does_not_die() {
    // A unit script exporting no `on_death` hook: a zero-health unit is not
    // despawned.
    assert!(!resolved_death(&CallOutcome::MissingExport));
    assert!(resolved_death(&CallOutcome::Returned(Bool(1))));
    assert!(!resolved_death(&CallOutcome::Returned(Bool(0))));
    assert!(!resolved_death(&CallOutcome::Trapped));
}

#[test]
fn battle_action_cooldown_resolution() {
    assert_eq!(resolved_action_cooldown(&CallOutcome::Returned(2500)), Some(2500));
    assert_eq!(resolved_action_cooldown(&CallOutcome::Returned(0)), None);
    assert_eq!(resolved_action_cooldown(&CallOutcome::Returned(-3)), None);
    assert_eq!(
        resolved_action_cooldown(&CallOutcome::MissingExport),
        Some(IDLE_ACTION_COOLDOWN_MILLIS)
    );
    assert_eq!(resolved_action_cooldown(&CallOutcome::NotReady), None);
    assert_eq!(resolved_action_cooldown(&CallOutcome::Trapped), None);
}

#[test]
fn script_handles_keep_their_id() {
    assert_eq!(ScriptHandle::new(7).id, 7);
}
