//! Wire representation of the two primitive values that cross the host/guest
//! boundary: entity identifiers and booleans.
//!
//! An identifier travels as a 64-bit pattern; exactly one pattern is reserved
//! to mean "no entity".  A boolean travels as a signed byte, `0` for false and
//! `1` for true.  No live handle may ever equal the reserved pattern, so
//! encoding and decoding are exact inverses on live handles, and any pattern
//! other than the reserved one decodes to a live handle.

use vstd::prelude::*;

verus! {

/// The one bit pattern reserved on the wire for "no entity".
pub const MISSING_ID: u64 = u64::MAX;

/// A pattern stands for a live entity exactly when it is not the reserved one.
pub open spec fn is_live_id(bits: u64) -> bool {
    bits != MISSING_ID
}

/// What a wire pattern means: the reserved pattern and only the reserved
/// pattern means "missing".
pub open spec fn spec_decode_id(bits: u64) -> Option<u64> {
    if bits == MISSING_ID {
        None
    } else {
        Some(bits)
    }
}

/// The wire pattern for an optional handle.
pub open spec fn spec_encode_id(id: Option<u64>) -> u64 {
    match id {
        None => MISSING_ID,
        Some(i) => i,
    }
}

/// Decode a pattern received from a guest.
pub fn decode_id(bits: u64) -> (r: Option<u64>)
    ensures
        r == spec_decode_id(bits),
{
    if bits == MISSING_ID {
        None
    } else {
        Some(bits)
    }
}

/// Encode an optional handle for the wire.  A live handle never equals the
/// reserved pattern, which the caller upholds as the allocation invariant.
pub fn encode_id(id: Option<u64>) -> (r: u64)
    requires
        id matches Some(i) ==> is_live_id(i),
    ensures
        r == spec_encode_id(id),
{
    match id {
        None => MISSING_ID,
        Some(i) => i,
    }
}

/// Encoding and decoding are exact inverses: every non-reserved pattern
/// decodes to a live handle that encodes back to the same pattern, and the
/// reserved pattern decodes to "missing" and only to "missing".
pub proof fn lemma_id_round_trip(bits: u64)
    ensures
        is_live_id(bits) ==> spec_decode_id(bits) == Some(bits),
        is_live_id(bits) ==> spec_encode_id(spec_decode_id(bits)) == bits,
        spec_decode_id(bits) is None <==> bits == MISSING_ID,
        forall|id: Option<u64>|
            (id matches Some(i) ==> is_live_id(i)) ==> spec_decode_id(spec_encode_id(id)) == id,
{
}

/// A boolean as it crosses the boundary: one signed byte.
#[derive(Clone, Copy, PartialEq, Eq, Structural)]
pub struct Bool(pub i8);

impl Bool {
    /// The byte a guest sends for "yes".
    #[allow(non_snake_case)]
    pub fn TRUE() -> (r: Bool)
        ensures
            r.0 == 1,
    {
        Bool(1)
    }

    /// The byte a guest sends for "no".
    #[allow(non_snake_case)]
    pub fn FALSE() -> (r: Bool)
        ensures
            r.0 == 0,
    {
        Bool(0)
    }

    /// Encode a host boolean.
    pub fn from_bool(b: bool) -> (r: Bool)
        ensures
            r.0 == if b {
                1int
            } else {
                0int
            },
    {
        if b {
            Bool(1)
        } else {
            Bool(0)
        }
    }

    /// The host convention for reading a guest byte: exactly `1` counts as
    /// true.
    pub fn truth(self) -> (r: bool)
        ensures
            r <==> self.0 == 1,
    {
        self.0 == 1
    }
}

impl From<bool> for Bool {
    fn from(val: bool) -> (r: Bool) {
        if val {
            Bool(1)
        } else {
            Bool(0)
        }
    }
}

impl vstd::std_specs::convert::FromSpecImpl<bool> for Bool {
    open spec fn obeys_from_spec() -> bool {
        true
    }

    open spec fn from_spec(val: bool) -> Bool {
        if val {
            Bool(1)
        } else {
            Bool(0)
        }
    }
}

} // verus!
