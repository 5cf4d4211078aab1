use vstd::prelude::*;

verus! {

/// Button indices understood by `Joypad::press` and `Joypad::release`.
pub const RIGHT: usize = 0;
pub const LEFT: usize = 1;
pub const UP: usize = 2;
pub const DOWN: usize = 3;
pub const A: usize = 4;
pub const B: usize = 5;
pub const SELECT: usize = 6;
pub const START: usize = 7;

} // verus!
