//! Boundary to host introspection: memory readings and the current time.
//! Every result depends on the machine and the moment, so nothing is
//! promised of the values; the callers state what holds whatever comes
//! back.
use vstd::prelude::*;

verus! {

#[verifier::external_type_specification]
#[verifier::external_body]
pub struct ExSystem(sysinfo::System);

/// Relies on sysinfo's `System::refresh_memory`: refreshes the RAM
/// readings in place.
#[verifier::external_body]
pub(crate) fn refresh_memory(system: &mut sysinfo::System) {
    system.refresh_memory();
}

/// Relies on sysinfo's `System::used_memory`: the RAM in use, in bytes,
/// as of the last refresh.
#[verifier::external_body]
pub(crate) fn used_memory(system: &sysinfo::System) -> u64 {
    system.used_memory()
}

/// Relies on sysinfo's `System::total_memory`: the RAM installed, in
/// bytes, as of the last refresh.
#[verifier::external_body]
pub(crate) fn total_memory(system: &sysinfo::System) -> u64 {
    system.total_memory()
}

/// Relies on chrono's `Utc::now` and `DateTime::to_rfc3339`: the current
/// UTC time rendered as an RFC 3339 string.
#[verifier::external_body]
pub(crate) fn now_rfc3339() -> String {
    chrono::Utc::now().to_rfc3339()
}

} // verus!
