//! The wall clock.
//!
//! Every engine operation takes the current time as an argument, so the
//! logic is checked for every clock value; this service only reads the
//! clock for the boundary that supplies that argument.

use vstd::prelude::*;

verus! {

pub struct TimeService;

impl TimeService {
    /// Relies on chrono's `Utc::now`: the number of non-leap seconds
    /// since the Unix epoch. Nothing is assumed of the clock's reading.
    #[verifier::external_body]
    pub fn get_current_timestamp() -> i64 {
        chrono::Utc::now().timestamp()
    }
}

} // verus!
