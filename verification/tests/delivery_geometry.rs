use scripting_host::delivery::{
    apply_drop, apply_produce, dropoff_resolve, nearest_accepting, should_drag, sourcing_pick,
    DeliveryItem, DropAction, StationCandidate,
};
use scripting_host::geometry::{anchor_distance_sq, dist_sq, isqrt, DeliveryAnchor};
use scripting_host::marshal::MISSING_ID;

fn anchor() -> DeliveryAnchor {
    DeliveryAnchor::new(0, -8, 16, 16 * 16)
}

fn station(id: u64, x: i32, y: i32, accepts: bool) -> StationCandidate {
    StationCandidate { station: id, pos_x: x, pos_y: y, anchor: anchor(), accepts }
}

#[test]
fn anchor_distance_below_the_anchor_is_plain_euclidean() {
    // Station at (0, 0), anchor point at (0, -8); pointer at (3, -12) is
    // below the anchor point.
    let a = anchor();
    assert_eq!(anchor_distance_sq(3, -12, 0, 0, &a), 3 * 3 + 4 * 4);
}

#[test]
fn anchor_distance_inside_the_band_is_purely_horizontal() {
    // Pointer vertically inside the band (-8, 8]: only the horizontal
    // offset counts.
    let a = anchor();
    assert_eq!(anchor_distance_sq(5, 0, 0, 0, &a), 25);
    assert_eq!(anchor_distance_sq(5, 7, 0, 0, &a), 25);
}

#[test]
fn anchor_distance_above_the_band_measures_from_the_band_top() {
    // Pointer above the band: measured from (pointer.y - height) down to
    // the anchor's height.
    let a = anchor();
    // pointer (0, 20): 20 > -8 + 16, so effective y = 4, dy = 12.
    assert_eq!(anchor_distance_sq(0, 20, 0, 0, &a), 12 * 12);
}

#[test]
fn nearest_accepting_ignores_refusals_and_breaks_ties_to_the_earliest() {
    let cands = vec![
        station(1, 100, 0, false),
        station(2, 10, 0, true),
        station(3, -10, 0, true),
        station(4, 10, 0, true),
    ];
    // Stations 2, 3 and 4 accept; 2 and 4 and 3 are equally near the
    // origin pointer, so the earliest accepting one wins.
    assert_eq!(nearest_accepting(&cands, 0, 0), Some(1));
    let none = vec![station(1, 0, 0, false)];
    assert_eq!(nearest_accepting(&none, 0, 0), None);
    assert_eq!(nearest_accepting(&Vec::new(), 0, 0), None);
}

#[test]
fn sourcing_press_within_radius_picks_up_the_produced_item() {
    // A station whose guest always answers `can_produce` with yes and whose
    // `produce` returns entity 77: a press within the radius carries it.
    let cands = vec![station(5, 0, 0, true)];
    let item = DeliveryItem::Nothing;
    let pick = sourcing_pick(&item, true, &cands, 0, 0);
    assert_eq!(pick, Some(0));
    let mut item = DeliveryItem::Nothing;
    apply_produce(&mut item, cands[0].station, 77);
    assert_eq!(item, DeliveryItem::FromSource { delivered: 77, source: 5 });
}

#[test]
fn sourcing_needs_a_press_an_empty_slot_and_range() {
    let cands = vec![station(5, 0, 0, true)];
    assert_eq!(sourcing_pick(&DeliveryItem::Nothing, false, &cands, 0, 0), None);
    let carried = DeliveryItem::FromSource { delivered: 1, source: 2 };
    assert_eq!(sourcing_pick(&carried, true, &cands, 0, 0), None);
    // Pointer far outside the acceptance radius: the nearest station wins
    // the selection but the press does nothing.
    assert_eq!(sourcing_pick(&DeliveryItem::Nothing, true, &cands, 500, 0), None);
}

#[test]
fn producing_the_missing_pattern_leaves_the_slot_empty() {
    let mut item = DeliveryItem::Nothing;
    apply_produce(&mut item, 5, MISSING_ID);
    assert_eq!(item, DeliveryItem::Nothing);
}

#[test]
fn release_with_no_accepting_station_rejects_back_to_the_source() {
    // Dragging entity 77 from station 5 and releasing where no station
    // answers `can_receive` with yes: the source's `rejected` hook is owed
    // the item, and the slot clears.
    let carried = DeliveryItem::FromSource { delivered: 77, source: 5 };
    let cands = vec![station(9, 0, 0, false)];
    let action = dropoff_resolve(&carried, true, &cands, 0, 0);
    assert_eq!(action, DropAction::Reject { source: 5, delivered: 77 });
    let mut item = carried;
    apply_drop(&mut item, &action);
    assert_eq!(item, DeliveryItem::Nothing);
}

#[test]
fn release_on_an_accepting_station_in_range_hands_the_item_over() {
    let carried = DeliveryItem::FromSource { delivered: 77, source: 5 };
    let cands = vec![station(9, 0, 0, true)];
    let action = dropoff_resolve(&carried, true, &cands, 0, 0);
    assert_eq!(action, DropAction::Receive { station: 9, delivered: 77, source: 5 });
    let mut item = carried;
    apply_drop(&mut item, &action);
    assert_eq!(item, DeliveryItem::Nothing);
}

#[test]
fn accepting_station_out_of_range_still_rejects() {
    let carried = DeliveryItem::FromSource { delivered: 77, source: 5 };
    let cands = vec![station(9, 500, 0, true)];
    let action = dropoff_resolve(&carried, true, &cands, 0, 0);
    assert_eq!(action, DropAction::Reject { source: 5, delivered: 77 });
}

#[test]
fn no_release_or_empty_slot_keeps_everything() {
    let carried = DeliveryItem::FromSource { delivered: 77, source: 5 };
    let cands = vec![station(9, 0, 0, true)];
    assert_eq!(dropoff_resolve(&carried, false, &cands, 0, 0), DropAction::Keep);
    assert_eq!(dropoff_resolve(&DeliveryItem::Nothing, true, &cands, 0, 0), DropAction::Keep);
}

#[test]
fn dragging_follows_the_pointer_until_a_parent_takes_over() {
    let carried = DeliveryItem::FromSource { delivered: 77, source: 5 };
    assert!(should_drag(&carried, false));
    assert!(!should_drag(&carried, true));
    assert!(!should_drag(&DeliveryItem::Nothing, false));
}

#[test]
fn squared_distance_and_integer_root() {
    assert_eq!(dist_sq(0, 0, 3, 4), 25);
    assert_eq!(isqrt(25), 5);
    assert_eq!(isqrt(24), 4);
    assert_eq!(isqrt(26), 5);
    assert_eq!(isqrt(0), 0);
    assert_eq!(isqrt(1), 1);
}
