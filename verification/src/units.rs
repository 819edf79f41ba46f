//! The scale on which lengths, angles and ratios are counted.
use vstd::prelude::*;

verus! {

/// How many counts make one: a length of one scene unit, an angle of one
/// radian, a ratio of one, a colour channel at full strength.
pub const UNIT: i64 = 1_000_000;

/// A count that stands for a value between minus one and one, both included.
pub open spec fn within_one(count: int) -> bool {
    -UNIT <= count <= UNIT
}

} // verus!
