use vstd::prelude::*;

verus! {

/// A point in time as the node reports it: an ISO rendering for display and
/// the Unix-epoch-seconds value, which is authoritative for all arithmetic.
#[derive(Debug, Clone, PartialEq, Eq)]
pub struct Timestamp {
    pub iso: String,
    pub unix: u64,
}

} // verus!
