//! The cloud DNS provider variant. Records are addressed by fully-qualified
//! record name directly, canonicalized to end with the trailing label
//! separator; only `A` record sets are supported on this path. The caller
//! authenticates with a service-account-derived token and sends the patch
//! call this module prepares; the status it brings back is classified here.

use vstd::prelude::*;

use crate::dns;
use crate::dns::DnsPatchCall;
use crate::error::Error;

verus! {

/// The parameters of one cloud DNS update: the service-account credential
/// file, the project and managed zone that hold the record, and the target
/// hostname.
pub struct GcpArgs {
    /// Path of the service-account credential file.
    pub auth_file: String,
    /// The cloud project.
    pub project: String,
    /// The managed DNS zone.
    pub zone: String,
    /// The target hostname.
    pub hostname: String,
}

impl GcpArgs {
    /// Prepares the patch call that sets the `A` record set of the target
    /// hostname to `ip_addr`: the URL embeds the canonicalized hostname, the
    /// body carries the address as the record data.
    pub fn prepare_update(&self, ip_addr: &str) -> (r: DnsPatchCall)
        ensures
            r.url@ == dns::spec_cloud_patch_url(self.project@, self.zone@, self.hostname@),
            r.body@ == dns::spec_rrdatas_body(ip_addr@),
    {
        dns::prepare_dns_record_edit(
            self.project.as_str(),
            self.zone.as_str(),
            self.hostname.as_str(),
            ip_addr,
        )
    }

    /// Classifies the status the patch call returned: success for 2xx,
    /// otherwise `UpdateFailure` carrying that exact status.
    pub fn finish_update(status: u16) -> (r: Result<(), Error>)
        ensures
            r is Ok <==> dns::spec_status_success(status),
            r is Err ==> r->Err_0@ == crate::error::ErrorView::UpdateFailure(status),
    {
        dns::classify_patch_status(status)
    }
}

} // verus!
