use vstd::prelude::*;

verus! {

/// Puts a party on the waiting list; the list itself is not modelled.
pub fn add_to_waitlist() {
}

/// Shows a waiting party to a table.
pub fn seat_at_table() {
}

} // verus!
