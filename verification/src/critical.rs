//! Critical sections that serialise read-modify-write sequences on shared registers.

use vstd::prelude::*;

verus! {

#[verifier::external_type_specification]
#[verifier::external_body]
pub struct ExCriticalSection<'cs>(critical_section::CriticalSection<'cs>);

/// Runs `f` inside a critical section by `critical_section::with`.
///
/// Trusted: `with` acquires the critical section, calls `f` once with a fresh
/// token, releases the section and returns what `f` returned. The contract
/// claims no more than that `f` was called once and its result handed back.
#[verifier::external_body]
pub(crate) fn with_critical_section<R, F: FnOnce(critical_section::CriticalSection<'_>) -> R>(
    f: F,
) -> (r: R)
    requires
        forall|cs: critical_section::CriticalSection<'_>| f.requires((cs,)),
    ensures
        exists|cs: critical_section::CriticalSection<'_>| f.ensures((cs,), r),
{
    critical_section::with(f)
}

} // verus!
