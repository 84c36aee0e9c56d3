//! Decisions of the stand-ins for system calls that old Android lacks.
use vstd::prelude::*;

verus! {

/// Whether the descriptor `fd` that the older call returned has still to be
/// marked close-on-exec: it was opened, and `flags` ask for it with the bit
/// `cloexec`.
pub fn epoll_needs_cloexec(fd: i32, flags: i32, cloexec: i32) -> (needed: bool)
    ensures
        needed == (fd >= 0 && flags & cloexec != 0),
{
    fd >= 0 && (flags & cloexec) != 0
}

} // verus!
