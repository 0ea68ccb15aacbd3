//! The run orchestration: one invocation resolves the external address,
//! loads the persisted state, decides whether a provider update is due,
//! and — only after a successful update — advances the persisted state.
//! The decisions are here; the caller performs the network and file work
//! they ask for.

use vstd::prelude::*;

use crate::error::Error;
use crate::external::ExternalIp;
use crate::persistent::Persistance;

verus! {

/// An update is due when the address changed or the run was force-requested.
pub open spec fn spec_update_due(changed: bool, force: bool) -> bool {
    changed || force
}

/// Decides whether to invoke the provider update: true when the resolved
/// address differs from the persisted one, or no prior state exists, or
/// `force` bypasses change detection.
pub fn decide(persist: &Persistance, ip: &ExternalIp, force: bool) -> (r: bool)
    ensures
        r == spec_update_due(persist.spec_changed(ip.address@), force),
{
    let changed = persist.ip_changed(ip.address.as_str());
    changed || force
}

/// Concludes the run after the provider update was attempted. On success the
/// state advances to the new address and the content to write to the state
/// file is returned; on failure the state is left exactly as it was, so the
/// next run retries the same address, and the update's error is surfaced.
pub fn conclude_update(persist: &mut Persistance, ip: &ExternalIp, update_result: Result<
    (),
    Error,
>) -> (r: Result<String, Error>)
    ensures
        update_result is Ok ==> r is Ok && r->Ok_0@ == ip.address@,
        update_result is Ok ==> final(persist).spec_stored() == Some(ip.address@),
        update_result is Ok ==> final(persist).spec_hostname() == old(persist).spec_hostname(),
        update_result is Err ==> r is Err && r->Err_0@ == update_result->Err_0@,
        update_result is Err ==> *final(persist) == *old(persist),
{
    match update_result {
        Ok(()) => Ok(persist.update(ip.address.clone())),
        Err(e) => Err(e),
    }
}

/// With the address unchanged and no force request, the run is a no-op: no
/// provider call is due, so no state write follows either.
pub proof fn lemma_unchanged_unforced_is_noop(persist: &Persistance, address: Seq<char>)
    requires
        persist.spec_stored() == Some(address),
    ensures
        !spec_update_due(persist.spec_changed(address), false),
{
}

/// A force request makes the update due even for an unchanged address, and
/// persisting that address afterwards rewrites the state with the value it
/// already held.
pub proof fn lemma_force_updates_regardless(persist: &Persistance, address: Seq<char>)
    requires
        persist.spec_stored() == Some(address),
    ensures
        spec_update_due(persist.spec_changed(address), true),
        !persist.spec_changed(address),
{
}

} // verus!
