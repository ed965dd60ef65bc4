//! The system clock, read at the boundary. Timestamps everywhere else in
//! the library are plain values handed in by the caller.

use vstd::prelude::*;

verus! {

/// Relies on std::time::SystemTime::now (read through
/// duration_since(UNIX_EPOCH) and Duration::as_secs): the current time as
/// whole seconds since the Unix epoch, or zero should the system clock
/// read before the epoch. Nothing can be promised of what the clock
/// answers.
#[verifier::external_body]
fn read_system_clock() -> u64 {
    match std::time::SystemTime::now().duration_since(std::time::UNIX_EPOCH) {
        Ok(elapsed) => elapsed.as_secs(),
        Err(_) => 0,
    }
}

/// The current time as whole seconds since the Unix epoch. The clock is an
/// external collaborator: no contract can pin what it answers, so callers
/// treat the result as an arbitrary timestamp.
pub fn current_timestamp() -> u64 {
    read_system_clock()
}

} // verus!
