use vstd::prelude::*;

verus! {

/// An address of either IP version: four octets, or the textual form.
pub enum IpAddr {
    V4(u8, u8, u8, u8),
    V6(String),
}

/// A message with a variant-specific payload.
pub enum Message {
    Quit,
    Move { x: i32, y: i32 },
    Write(String),
    ChangeColor(i32, i32, i32),
}

impl Message {
    /// Handles the message; handling has no observable effect.
    pub fn call(&self) {
    }
}

/// One more than the value held, or nothing when nothing is held.
pub fn plus_one(x: Option<i32>) -> (r: Option<i32>)
    requires
        x != Some(i32::MAX),
    ensures
        match x {
            None => r is None,
            Some(i) => r == Some((i + 1) as i32),
        },
{
    match x {
        None => None,
        Some(i) => Some(i + 1),
    }
}

} // verus!
