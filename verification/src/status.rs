//! Status codes returned by the entry points.
use vstd::prelude::*;

verus! {

pub const OK: i32 = 0;

pub const ALREADY_RUNNING: i32 = 1;

pub const INVALID_ARGUMENT: i32 = 2;

pub const RUNTIME_INIT_FAILED: i32 = 3;

pub const RUNTIME_TASK_FAILED: i32 = 4;

pub const NOT_RUNNING: i32 = 5;

pub const INTERNAL_ERROR: i32 = 100;

} // verus!
