//! A population of simple autonomous agents ("cells") moving on a bounded
//! 2D plane. Each tick the simulation rebuilds an occupancy snapshot of the
//! plane and every living cell advances its own movement state machine
//! against that snapshot, avoiding cells it can see one step ahead.

use vstd::prelude::*;

pub mod creatures;
pub mod map;
pub mod rng;
pub mod sim;

verus! {

/// Half-extent of the plane along the x axis: world x ranges over [-WIDTH, WIDTH].
pub const WIDTH: i32 = 180;

/// Half-extent of the plane along the y axis: world y ranges over [-HEIGHT, HEIGHT].
pub const HEIGHT: i32 = 90;

} // verus!
