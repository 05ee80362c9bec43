//! Ranges of scalar values: bounds that may sit at infinity, open or
//! closed at each end, compared with the library's exact or tolerant
//! operators.

pub mod bound;
pub mod interval;
pub mod value_range;
pub mod value_range_stc;
pub mod value_wrapper;

use vstd::prelude::*;

verus! {

/// The error an indeterminate extended-arithmetic form or a malformed
/// range argument raises.
#[derive(Debug)]
pub struct IllegalArgumentError {
    pub msg: String,
}

impl IllegalArgumentError {
    pub fn new(msg: &str) -> (r: Self)
        ensures
            r.msg@ == msg@,
    {
        IllegalArgumentError { msg: msg.to_string() }
    }
}

} // verus!
