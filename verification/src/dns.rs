//! The shared shape of a provider record update: canonicalizing the record
//! name, framing the request URL and JSON body, and classifying the HTTP
//! status of the patch call. The network call itself is the caller's work;
//! everything that determines what goes on the wire is verified here.

use vstd::prelude::*;

use crate::error::Error;

verus! {

use vstd::string::StrSliceExecFns;
use vstd::string::StringExecFns;

/// One outgoing HTTP call, fully determined: where to send it and what body
/// to send.
pub struct DnsPatchCall {
    /// The request URL.
    pub url: String,
    /// The JSON body.
    pub body: String,
}

/// A record name with its trailing label separator: `host` itself when it
/// already ends with `.`, otherwise `host` with `.` appended.
pub open spec fn spec_canonical(host: Seq<char>) -> Seq<char> {
    if host.len() > 0 && host.last() == '.' {
        host
    } else {
        host.push('.')
    }
}

/// Canonicalizes a record name to end with the trailing label separator.
pub fn canonical_dns_name(host: &str) -> (r: String)
    ensures
        r@ == spec_canonical(host@),
{
    let len = host.unicode_len();
    if len > 0 && host.get_char(len - 1) == '.' {
        String::from_str(host)
    } else {
        let mut s = String::from_str(host);
        s.append(".");
        proof {
            reveal_strlit(".");
            assert(s@ =~= host@.push('.'));
        }
        s
    }
}

/// Canonicalizing twice changes nothing beyond the first time.
pub proof fn lemma_canonical_idempotent(host: Seq<char>)
    ensures
        spec_canonical(spec_canonical(host)) == spec_canonical(host),
{
    if !(host.len() > 0 && host.last() == '.') {
        assert(host.push('.').last() == '.');
    }
}

/// A name with the separator already appended canonicalizes to the same
/// record name as the bare one.
pub proof fn lemma_canonical_of_dotted(host: Seq<char>)
    requires
        !(host.len() > 0 && host.last() == '.'),
    ensures
        spec_canonical(host.push('.')) == spec_canonical(host),
{
    assert(host.push('.').last() == '.');
}

/// The JSON body of a record-data patch: the new address as the single
/// member of `rrdatas`.
pub open spec fn spec_rrdatas_body(address: Seq<char>) -> Seq<char> {
    "{\"rrdatas\":[\""@ + address + "\"]}"@
}

/// Frames the JSON body that sets a record's data to `address`.
pub fn rrdatas_body(address: &str) -> (r: String)
    ensures
        r@ == spec_rrdatas_body(address@),
{
    let mut s = String::from_str("{\"rrdatas\":[\"");
    s.append(address);
    s.append("\"]}");
    proof {
        assert(s@ =~= spec_rrdatas_body(address@));
    }
    s
}

/// The URL of the cloud DNS patch call for the `A` record set of `host` in
/// one managed zone: the record name is canonicalized before it is embedded
/// in the path.
pub open spec fn spec_cloud_patch_url(project: Seq<char>, zone: Seq<char>, host: Seq<char>) -> Seq<
    char,
> {
    "https://dns.googleapis.com/dns/v1beta2/projects/"@ + project + "/managedZones/"@ + zone
        + "/rrsets/"@ + spec_canonical(host) + "/A"@
}

/// Hostnames that differ only in the trailing label separator produce the
/// same patch URL.
pub proof fn lemma_patch_url_ignores_trailing_dot(
    project: Seq<char>,
    zone: Seq<char>,
    host: Seq<char>,
)
    requires
        !(host.len() > 0 && host.last() == '.'),
    ensures
        spec_cloud_patch_url(project, zone, host.push('.')) == spec_cloud_patch_url(
            project,
            zone,
            host,
        ),
{
    lemma_canonical_of_dotted(host);
}

/// Builds the patch call that sets the `A` record set of `dns_name` in
/// `zone` of `project` to `ip_addr`.
pub fn prepare_dns_record_edit(project: &str, zone: &str, dns_name: &str, ip_addr: &str) -> (r:
    DnsPatchCall)
    ensures
        r.url@ == spec_cloud_patch_url(project@, zone@, dns_name@),
        r.body@ == spec_rrdatas_body(ip_addr@),
{
    let name = canonical_dns_name(dns_name);
    let mut url = String::from_str("https://dns.googleapis.com/dns/v1beta2/projects/");
    url.append(project);
    url.append("/managedZones/");
    url.append(zone);
    url.append("/rrsets/");
    url.append(name.as_str());
    url.append("/A");
    proof {
        assert(url@ =~= spec_cloud_patch_url(project@, zone@, dns_name@));
    }
    DnsPatchCall { url, body: rrdatas_body(ip_addr) }
}

/// An HTTP status counts as success exactly when it lies in the 2xx range.
pub open spec fn spec_status_success(status: u16) -> bool {
    200 <= status < 300
}

/// Classifies the HTTP status of a provider patch call: success for any 2xx
/// status, otherwise `UpdateFailure` carrying that exact status.
pub fn classify_patch_status(status: u16) -> (r: Result<(), Error>)
    ensures
        r is Ok <==> spec_status_success(status),
        r is Err ==> r->Err_0@ == crate::error::ErrorView::UpdateFailure(status),
{
    if 200 <= status && status < 300 {
        Ok(())
    } else {
        Err(Error::UpdateFailure(status))
    }
}

} // verus!
