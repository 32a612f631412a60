use vstd::prelude::*;

verus! {

/// A message is one of four shapes: no data, two named signed-integer
/// fields, a single text payload, or a triple of signed integers.
pub enum Message {
    Quit,
    Move { x: i32, y: i32 },
    Write(String),
    ChangeColor(i32, i32, i32),
}

impl Message {
    /// Accepts any of the four shapes; performs no observable action (a
    /// placeholder for shape-dependent branching) and cannot fail.
    pub fn call(&self) {
    }
}

} // verus!
