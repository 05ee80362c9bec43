//! A value range whose endpoint kinds are fixed at the type level.

use vstd::prelude::*;

use crate::value_range::bound::BoundStc;
use crate::value_range::interval::Closed;
use crate::value_range::interval::IntervalType;

verus! {

/// A range with type-level endpoint kinds, closed on both sides unless
/// said otherwise.
pub struct ValueRangeStc<T, LI: IntervalType = Closed, UI: IntervalType = Closed> {
    pub lb: Option<BoundStc<T, LI>>,
    pub ub: Option<BoundStc<T, UI>>,
}

} // verus!
