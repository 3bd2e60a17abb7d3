//! Synchronization core of a bare-metal kernel: intrusive stacks, an
//! atomically registered wait cell, a tick clock and the legacy interval
//! timer driver, with their contracts proved by Verus.
use vstd::prelude::*;

pub mod lock;
pub mod pit;
pub mod stack;
pub mod time;
pub mod wait_cell;

verus! {

} // verus!
