use vstd::prelude::*;

verus! {

/// Writes down what a table orders.
pub fn take_order() {
}

/// Brings an order to its table.
pub fn serve_order() {
}

/// Settles a table's bill.
pub fn take_payment() {
}

} // verus!
