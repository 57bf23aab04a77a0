//! Clock and memory readings used to report on optimization runs.

use vstd::prelude::*;

verus! {

#[verifier::external_type_specification]
#[verifier::external_body]
pub struct ExSystem(sysinfo::System);

#[verifier::external_type_specification]
#[verifier::external_body]
pub struct ExInstant(std::time::Instant);

/// A system information handle with nothing loaded, when one can be made.
///
/// Trusted: calls `sysinfo::System::new`, which fails on platforms it
/// cannot initialise; the failure becomes `None`. Nothing is claimed of the
/// handle.
#[verifier::external_body]
pub(crate) fn system_new() -> (s: Option<sysinfo::System>) {
    sysinfo::System::new().ok()
}

/// Reloads the memory figures of the handle.
///
/// Trusted: calls `sysinfo::System::refresh_memory`; what it reads depends
/// on the machine, so nothing is claimed of the result.
#[verifier::external_body]
pub(crate) fn system_refresh_memory(s: &mut sysinfo::System) {
    s.refresh_memory()
}

/// The used memory, in bytes, as last loaded into the handle.
///
/// Trusted: calls `sysinfo::System::used_memory`; the figure depends on
/// the machine, so nothing is claimed of it.
#[verifier::external_body]
pub(crate) fn system_used_memory(s: &sysinfo::System) -> (m: u64) {
    s.used_memory()
}

/// The current instant.
///
/// Trusted: calls `std::time::Instant::now`; nothing is claimed of it.
#[verifier::external_body]
pub(crate) fn instant_now() -> (i: std::time::Instant) {
    std::time::Instant::now()
}

/// The time elapsed since `i`, in nanoseconds.
///
/// Trusted: calls `std::time::Instant::elapsed` and reads the duration with
/// `Duration::as_nanos`; it depends on the clock, so nothing is claimed of
/// it.
#[verifier::external_body]
pub(crate) fn instant_elapsed(i: &std::time::Instant) -> (n: u128) {
    i.elapsed().as_nanos()
}

} // verus!
