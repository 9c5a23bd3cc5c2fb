//! Sequences, an aggregation map and text slicing whose ownership and
//! borrowing rules are those of the language, with verified contracts.

pub mod aggregation;
pub mod back_of_house;
pub mod front_of_house;
pub mod messages;
pub mod sequence;
pub mod shapes;
pub mod text;

pub use back_of_house::Breakfast;
pub use front_of_house::hosting::{self, add_to_waitlist};
