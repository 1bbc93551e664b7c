//! The delivery matching engine: spatial nearest-anchor selection and the
//! source → item → destination negotiation over the single carried-item slot.
//!
//! The slot is the player's "hand": at most one item is carried system-wide.
//! Sourcing asks every producing station for `can_produce`, picks the nearest
//! accepting anchor, and on a primary-button press inside that anchor's
//! radius asks it to `produce`.  Dropoff, on a release, asks every receiving
//! station for `can_receive`, picks the nearest accepting anchor, and either
//! hands the item over with `receive` or falls back to `rejected` on the
//! original source — exactly one of the two, so a carried item is never
//! silently orphaned.
//!
//! Ties among equally near anchors resolve to the earliest candidate in the
//! order given, which the host keeps fixed for a tick.

use vstd::prelude::*;
use crate::dispatch::ScriptHandle;
use crate::geometry::DeliveryAnchor;
use crate::geometry::anchor_distance_sq;
use crate::geometry::spec_anchor_dist_sq;
use crate::marshal::is_live_id;
use crate::marshal::spec_decode_id;

verus! {

/// Marks a station able to yield an item, through its guest module.
pub struct DeliverySource {
    pub script: ScriptHandle,
}

impl DeliverySource {
    pub fn new(script: ScriptHandle) -> (r: DeliverySource)
        ensures
            r.script == script,
    {
        DeliverySource { script }
    }
}

/// Marks a station able to accept an item, through its guest module.
pub struct DeliveryDropoff {
    pub script: ScriptHandle,
}

impl DeliveryDropoff {
    pub fn new(script: ScriptHandle) -> (r: DeliveryDropoff)
        ensures
            r.script == script,
    {
        DeliveryDropoff { script }
    }
}

/// The single global carried-item slot.
#[derive(Clone, Copy, Debug, PartialEq, Eq, Structural)]
pub enum DeliveryItem {
    /// Nothing is being dragged.
    Nothing,
    /// `delivered` is being dragged, picked up from station `source`.
    FromSource { delivered: u64, source: u64 },
}

/// A carried slot only ever holds live handles.
pub open spec fn delivery_item_wf(item: DeliveryItem) -> bool {
    item matches DeliveryItem::FromSource { delivered, source } ==> is_live_id(delivered)
        && is_live_id(source)
}

impl Default for DeliveryItem {
    /// The slot starts empty.
    fn default() -> (r: DeliveryItem)
        ensures
            r is Nothing,
    {
        DeliveryItem::Nothing
    }
}

/// One station taking part in a selection round, with its guest's answer to
/// the acceptance question (`can_produce` or `can_receive`) already resolved.
#[derive(Clone, Copy, PartialEq, Eq, Structural)]
pub struct StationCandidate {
    /// The station entity.
    pub station: u64,
    /// The station's world position.
    pub pos_x: i32,
    pub pos_y: i32,
    /// The station's acceptance geometry.
    pub anchor: DeliveryAnchor,
    /// Whether the station's guest accepted; a failed or missing hook counts
    /// as a refusal.
    pub accepts: bool,
}

/// The candidate's anchor distance to the pointer.
pub open spec fn cand_dist(c: StationCandidate, px: int, py: int) -> int {
    spec_anchor_dist_sq(px, py, c.pos_x + c.anchor.x, c.pos_y + c.anchor.y, c.anchor.height as int)
}

/// Candidate `i` wins the selection round: it accepts, no accepting
/// candidate is nearer, and every earlier accepting candidate is strictly
/// farther — ties resolve to the earliest candidate.
pub open spec fn is_chosen(s: Seq<StationCandidate>, px: int, py: int, i: int) -> bool {
    &&& 0 <= i < s.len()
    &&& s[i].accepts
    &&& forall|j: int|
        0 <= j < s.len() && (#[trigger] s[j]).accepts ==> cand_dist(s[i], px, py) <= cand_dist(
            s[j],
            px,
            py,
        )
    &&& forall|j: int|
        0 <= j < i && (#[trigger] s[j]).accepts ==> cand_dist(s[i], px, py) < cand_dist(
            s[j],
            px,
            py,
        )
}

/// At most one candidate wins a round.
pub proof fn lemma_chosen_unique(s: Seq<StationCandidate>, px: int, py: int, i: int, j: int)
    requires
        is_chosen(s, px, py, i),
        is_chosen(s, px, py, j),
    ensures
        i == j,
{
    if i < j {
        assert(cand_dist(s[j], px, py) < cand_dist(s[i], px, py));
        assert(cand_dist(s[i], px, py) <= cand_dist(s[j], px, py));
    } else if j < i {
        assert(cand_dist(s[i], px, py) < cand_dist(s[j], px, py));
        assert(cand_dist(s[j], px, py) <= cand_dist(s[i], px, py));
    }
}

/// The winner of a selection round, if any candidate accepts.
pub open spec fn chosen_index(s: Seq<StationCandidate>, px: int, py: int) -> Option<int> {
    if exists|i: int| is_chosen(s, px, py, i) {
        Some(choose|i: int| is_chosen(s, px, py, i))
    } else {
        None
    }
}

/// Find the nearest accepting candidate, earliest on ties.  Returns `None`
/// exactly when no candidate accepts.
pub fn nearest_accepting(cands: &Vec<StationCandidate>, px: i32, py: i32) -> (r: Option<usize>)
    ensures
        match r {
            Some(i) => is_chosen(cands@, px as int, py as int, i as int),
            None => forall|j: int| 0 <= j < cands@.len() ==> !(#[trigger] cands@[j]).accepts,
        },
        r is Some <==> chosen_index(cands@, px as int, py as int) is Some,
        r matches Some(i) ==> chosen_index(cands@, px as int, py as int) == Some(i as int),
{
    let ghost gpx = px as int;
    let ghost gpy = py as int;
    let mut best: Option<usize> = None;
    let mut best_dist: i128 = 0;
    let mut k: usize = 0;
    while k < cands.len()
        invariant
            gpx == px as int,
            gpy == py as int,
            k <= cands@.len(),
            match best {
                Some(b) => {
                    &&& b < k
                    &&& cands@[b as int].accepts
                    &&& best_dist == cand_dist(cands@[b as int], gpx, gpy)
                    &&& forall|j: int|
                        0 <= j < k && (#[trigger] cands@[j]).accepts ==> cand_dist(
                            cands@[b as int],
                            gpx,
                            gpy,
                        ) <= cand_dist(cands@[j], gpx, gpy)
                    &&& forall|j: int|
                        0 <= j < b && (#[trigger] cands@[j]).accepts ==> cand_dist(
                            cands@[b as int],
                            gpx,
                            gpy,
                        ) < cand_dist(cands@[j], gpx, gpy)
                },
                None => forall|j: int| 0 <= j < k ==> !(#[trigger] cands@[j]).accepts,
            },
        decreases cands@.len() - k,
    {
        let c = &cands[k];
        if c.accepts {
            let d = anchor_distance_sq(px, py, c.pos_x, c.pos_y, &c.anchor);
            match best {
                None => {
                    best = Some(k);
                    best_dist = d;
                },
                Some(_) => {
                    if d < best_dist {
                        best = Some(k);
                        best_dist = d;
                    }
                },
            }
        }
        k += 1;
    }
    proof {
        match best {
            Some(b) => {
                assert(is_chosen(cands@, gpx, gpy, b as int));
                let w = choose|i: int| is_chosen(cands@, gpx, gpy, i);
                lemma_chosen_unique(cands@, gpx, gpy, w, b as int);
            },
            None => {
                assert(forall|i: int| !is_chosen(cands@, gpx, gpy, i));
            },
        }
    }
    best
}

/// Where sourcing decides to ask for an item: only with an empty slot, on a
/// press, at the winning station, and only strictly inside that station's
/// acceptance radius.
pub open spec fn spec_sourcing_pick(
    item: DeliveryItem,
    pressed: bool,
    s: Seq<StationCandidate>,
    px: int,
    py: int,
) -> Option<int> {
    if item is Nothing && pressed {
        match chosen_index(s, px, py) {
            Some(i) => if cand_dist(s[i], px, py) < s[i].anchor.distance_sq {
                Some(i)
            } else {
                None
            },
            None => None,
        }
    } else {
        None
    }
}

/// Decide which station, if any, `produce` is called on this tick.
pub fn sourcing_pick(
    item: &DeliveryItem,
    pressed: bool,
    cands: &Vec<StationCandidate>,
    px: i32,
    py: i32,
) -> (r: Option<usize>)
    ensures
        match r {
            Some(i) => Some(i as int) == spec_sourcing_pick(
                *item,
                pressed,
                cands@,
                px as int,
                py as int,
            ),
            None => spec_sourcing_pick(*item, pressed, cands@, px as int, py as int) is None,
        },
{
    if !pressed {
        return None;
    }
    match item {
        DeliveryItem::Nothing => {
            match nearest_accepting(cands, px, py) {
                Some(i) => {
                    let c = &cands[i];
                    let d = anchor_distance_sq(px, py, c.pos_x, c.pos_y, &c.anchor);
                    if d < c.anchor.distance_sq as i128 {
                        Some(i)
                    } else {
                        None
                    }
                },
                None => None,
            }
        },
        DeliveryItem::FromSource { .. } => None,
    }
}

/// Pick up what `produce` returned.  The slot, empty before, becomes
/// `FromSource` exactly when the returned pattern is a live handle; the
/// reserved pattern leaves the slot empty.
pub fn apply_produce(item: &mut DeliveryItem, station: u64, produced_bits: u64)
    requires
        *old(item) is Nothing,
        is_live_id(station),
    ensures
        *final(item) == match spec_decode_id(produced_bits) {
            Some(e) => DeliveryItem::FromSource { delivered: e, source: station },
            None => DeliveryItem::Nothing,
        },
        delivery_item_wf(*final(item)),
{
    match crate::marshal::decode_id(produced_bits) {
        Some(e) => {
            *item = DeliveryItem::FromSource { delivered: e, source: station };
        },
        None => {},
    }
}

/// How a completed drag ends.
#[derive(Clone, Copy, Debug, PartialEq, Eq, Structural)]
pub enum DropAction {
    /// No release, or nothing carried: the slot stays as it is.
    Keep,
    /// The winning station consumes the item: call `receive` on it.
    Receive { station: u64, delivered: u64, source: u64 },
    /// No station both accepted and was in range: call `rejected` on the
    /// original source.
    Reject { source: u64, delivered: u64 },
}

/// The dropoff rule: on a release while carrying, the nearest accepting
/// receiver wins if it is strictly inside its radius; otherwise the item
/// goes back to its source as rejected.  Without a release, or with an empty
/// slot, nothing happens.
pub open spec fn spec_dropoff(
    item: DeliveryItem,
    released: bool,
    s: Seq<StationCandidate>,
    px: int,
    py: int,
) -> DropAction {
    match item {
        DeliveryItem::Nothing => DropAction::Keep,
        DeliveryItem::FromSource { delivered, source } => {
            if !released {
                DropAction::Keep
            } else {
                match chosen_index(s, px, py) {
                    Some(i) => if cand_dist(s[i], px, py) < s[i].anchor.distance_sq {
                        DropAction::Receive { station: s[i].station, delivered, source }
                    } else {
                        DropAction::Reject { source, delivered }
                    },
                    None => DropAction::Reject { source, delivered },
                }
            }
        },
    }
}

/// Decide how this tick's release, if any, ends the current drag.
pub fn dropoff_resolve(
    item: &DeliveryItem,
    released: bool,
    cands: &Vec<StationCandidate>,
    px: i32,
    py: i32,
) -> (r: DropAction)
    ensures
        r == spec_dropoff(*item, released, cands@, px as int, py as int),
{
    match item {
        DeliveryItem::Nothing => DropAction::Keep,
        DeliveryItem::FromSource { delivered, source } => {
            if !released {
                DropAction::Keep
            } else {
                match nearest_accepting(cands, px, py) {
                    Some(i) => {
                        let c = &cands[i];
                        let d = anchor_distance_sq(px, py, c.pos_x, c.pos_y, &c.anchor);
                        if d < c.anchor.distance_sq as i128 {
                            DropAction::Receive {
                                station: c.station,
                                delivered: *delivered,
                                source: *source,
                            }
                        } else {
                            DropAction::Reject { source: *source, delivered: *delivered }
                        }
                    },
                    None => DropAction::Reject { source: *source, delivered: *delivered },
                }
            }
        },
    }
}

/// What the slot holds after a drop action is applied.
pub open spec fn spec_apply_drop(item: DeliveryItem, action: DropAction) -> DeliveryItem {
    match action {
        DropAction::Keep => item,
        DropAction::Receive { .. } => DeliveryItem::Nothing,
        DropAction::Reject { .. } => DeliveryItem::Nothing,
    }
}

/// Apply a drop action to the slot: a completed drag, received or rejected,
/// always clears it.
pub fn apply_drop(item: &mut DeliveryItem, action: &DropAction)
    ensures
        *final(item) == spec_apply_drop(*old(item), *action),
{
    match action {
        DropAction::Keep => {},
        DropAction::Receive { .. } => {
            *item = DeliveryItem::Nothing;
        },
        DropAction::Reject { .. } => {
            *item = DeliveryItem::Nothing;
        },
    }
}

/// Whether the carried item is still dragged to the pointer this tick: only
/// while something is carried and it has not yet been attached under a
/// parent by a receiving rule.
pub fn should_drag(item: &DeliveryItem, has_parent: bool) -> (r: bool)
    ensures
        r <==> (*item matches DeliveryItem::FromSource { .. } && !has_parent),
{
    match item {
        DeliveryItem::Nothing => false,
        DeliveryItem::FromSource { .. } => !has_parent,
    }
}

/// The slot after a run of dropoff ticks, one per entry of `releases`.
pub open spec fn session_slot(
    item: DeliveryItem,
    releases: Seq<bool>,
    s: Seq<StationCandidate>,
    px: int,
    py: int,
) -> DeliveryItem
    decreases releases.len(),
{
    if releases.len() == 0 {
        item
    } else {
        let next = spec_apply_drop(item, spec_dropoff(item, releases[0], s, px, py));
        session_slot(next, releases.drop_first(), s, px, py)
    }
}

/// How many terminal calls — `receive` or `rejected` — a run of dropoff
/// ticks fires.
pub open spec fn session_terminal_calls(
    item: DeliveryItem,
    releases: Seq<bool>,
    s: Seq<StationCandidate>,
    px: int,
    py: int,
) -> int
    decreases releases.len(),
{
    if releases.len() == 0 {
        0
    } else {
        let fired: int = if spec_dropoff(item, releases[0], s, px, py) is Keep {
            0
        } else {
            1
        };
        let next = spec_apply_drop(item, spec_dropoff(item, releases[0], s, px, py));
        fired + session_terminal_calls(next, releases.drop_first(), s, px, py)
    }
}

/// An empty slot never fires a terminal call and stays empty, whatever the
/// ticks bring.
pub proof fn lemma_session_empty_slot(
    releases: Seq<bool>,
    s: Seq<StationCandidate>,
    px: int,
    py: int,
)
    ensures
        session_slot(DeliveryItem::Nothing, releases, s, px, py) is Nothing,
        session_terminal_calls(DeliveryItem::Nothing, releases, s, px, py) == 0,
    decreases releases.len(),
{
    if releases.len() > 0 {
        lemma_session_empty_slot(releases.drop_first(), s, px, py);
    }
}

/// Delivery handshake totality over a whole drag: from a carried slot,
/// any sequence of ticks fires exactly one terminal call if it holds a
/// release — after which the slot is empty — and none at all if it holds
/// none, the slot then still carrying the item.
pub proof fn lemma_session_exactly_once(
    item: DeliveryItem,
    releases: Seq<bool>,
    s: Seq<StationCandidate>,
    px: int,
    py: int,
)
    requires
        item matches DeliveryItem::FromSource { .. },
    ensures
        session_terminal_calls(item, releases, s, px, py) == if (exists|i: int|
            0 <= i < releases.len() && releases[i]) {
            1int
        } else {
            0
        },
        (exists|i: int| 0 <= i < releases.len() && releases[i]) ==> session_slot(
            item,
            releases,
            s,
            px,
            py,
        ) is Nothing,
        !(exists|i: int| 0 <= i < releases.len() && releases[i]) ==> session_slot(
            item,
            releases,
            s,
            px,
            py,
        ) == item,
    decreases releases.len(),
{
    if releases.len() > 0 {
        let rest = releases.drop_first();
        assert(forall|i: int| 0 <= i < rest.len() ==> rest[i] == #[trigger] releases[i + 1]);
        if releases[0] {
            lemma_session_empty_slot(rest, s, px, py);
        } else {
            lemma_session_exactly_once(item, rest, s, px, py);
            if exists|i: int| 0 <= i < rest.len() && rest[i] {
                let i = choose|i: int| 0 <= i < rest.len() && rest[i];
                assert(releases[i + 1]);
            }
            if exists|i: int| 0 <= i < releases.len() && releases[i] {
                let i = choose|i: int| 0 <= i < releases.len() && releases[i];
                assert(i > 0 && rest[i - 1]);
            }
        }
    }
}

/// Delivery handshake totality: a release while an item is carried resolves
/// to exactly one of `receive` or `rejected` — never neither, never both —
/// the resolved call names the carried item and its source, and applying the
/// resolution returns the slot to `Nothing`.  While the slot is carried, a
/// press asks no station to produce, so a full press-then-release round
/// fires exactly one terminal call per completed drag.
pub proof fn lemma_handshake_totality(
    item: DeliveryItem,
    s: Seq<StationCandidate>,
    px: int,
    py: int,
    delivered: u64,
    source: u64,
)
    requires
        item == (DeliveryItem::FromSource { delivered, source }),
    ensures
        ({
            let a = spec_dropoff(item, true, s, px, py);
            &&& (a is Receive || a is Reject)
            &&& !(a is Receive && a is Reject)
            &&& a matches DropAction::Receive { delivered: d, source: src, .. } ==> d == delivered
                && src == source
            &&& a matches DropAction::Reject { delivered: d, source: src } ==> d == delivered
                && src == source
            &&& spec_apply_drop(item, a) is Nothing
        }),
        forall|pressed: bool| spec_sourcing_pick(item, pressed, s, px, py) is None,
{
}

} // verus!
