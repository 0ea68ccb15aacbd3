//! The registrar DNS provider variant. Records are addressed by
//! `(domain, record id)`: a lookup filtered by the full hostname discovers
//! the existing record's identifier, and the patch rewrites that record with
//! the new address, typed `A` or `AAAA` by the address family. The caller
//! reads the bearer token file and sends the calls this module prepares.

use vstd::prelude::*;

use crate::dns;
use crate::dns::DnsPatchCall;
use crate::error::Error;
use crate::external::ExternalIp;
use crate::ip;
use crate::text;

pub use crate::hostname::DomainInfo;

verus! {

use vstd::string::StrSliceExecFns;
use vstd::string::StringExecFns;

/// The parameters of one registrar DNS update: the bearer-token file, the
/// target hostname, and whether the `AAAA` record is the target.
pub struct DoArgs {
    /// Path of the plain-text API token file.
    pub api_key_file: String,
    /// The target hostname.
    pub hostname: String,
    /// Prefer the IPv6 record.
    pub ipv6: bool,
}

/// One DNS resource record as the registrar reports and accepts it.
pub struct DigitalOceanRecord {
    /// The provider's opaque identifier of the record.
    pub id: u64,
    /// The record name: the subdomain part.
    pub name: String,
    /// The record type, `A` or `AAAA`.
    pub record_type: String,
    /// The record data: the address.
    pub data: String,
}

/// The URL that lists the records of `domain` filtered by the full
/// `hostname`.
pub open spec fn spec_lookup_url(domain: Seq<char>, hostname: Seq<char>) -> Seq<char> {
    "https://api.digitalocean.com/v2/domains/"@ + domain + "/records?name="@ + hostname
}

/// The URL that patches record `id` of `domain`.
pub open spec fn spec_record_url(domain: Seq<char>, id: u64) -> Seq<char> {
    "https://api.digitalocean.com/v2/domains/"@ + domain + "/records/"@ + text::dec_rep(id as nat)
}

/// The record type the address family selects: `A` for a dotted-quad
/// address, `AAAA` otherwise.
pub open spec fn spec_record_type(address: Seq<char>) -> Seq<char> {
    if ip::is_ipv4_chars(address) {
        "A"@
    } else {
        "AAAA"@
    }
}

/// The JSON body that rewrites a record: identifier, subdomain name, record
/// type and the new address as data.
pub open spec fn spec_patch_body(
    id: u64,
    name: Seq<char>,
    record_type: Seq<char>,
    data: Seq<char>,
) -> Seq<char> {
    "{\"id\":"@ + text::dec_rep(id as nat) + ",\"name\":\""@ + name + "\",\"type\":\""@
        + record_type + "\",\"data\":\""@ + data + "\"}"@
}

/// Identifier of the first record of a lookup response, or
/// `DomainRecordNotFound` exactly when no record matched. The record is
/// never created here: absence fails the run.
pub fn first_record_id(records: &Vec<DigitalOceanRecord>) -> (r: Result<u64, Error>)
    ensures
        r is Ok <==> records@.len() > 0,
        r is Ok ==> r->Ok_0 == records@[0].id,
        r is Err ==> r->Err_0@ == crate::error::ErrorView::DomainRecordNotFound,
{
    if records.len() > 0 {
        Ok(records[0].id)
    } else {
        Err(Error::DomainRecordNotFound)
    }
}

impl DoArgs {
    /// Splits the target hostname into its root domain and subdomain.
    pub fn domain_info(&self) -> (r: Result<DomainInfo, Error>)
        ensures
            r is Ok <==> crate::hostname::registrable_root(self.hostname@) is Some,
            r is Ok ==> r->Ok_0.name@ == crate::hostname::registrable_root(
                self.hostname@,
            )->Some_0,
            r is Ok ==> r->Ok_0.sub@ == crate::hostname::spec_sub(self.hostname@),
            r is Err ==> r->Err_0@ == crate::error::ErrorView::DomainParsingFailure,
    {
        DomainInfo::from_hostname(self.hostname.as_str())
    }

    /// The URL of the lookup that discovers the existing record.
    pub fn prepare_lookup(&self, domain: &DomainInfo) -> (url: String)
        ensures
            url@ == spec_lookup_url(domain.name@, self.hostname@),
    {
        let mut url = String::from_str("https://api.digitalocean.com/v2/domains/");
        url.append(domain.name.as_str());
        url.append("/records?name=");
        url.append(self.hostname.as_str());
        proof {
            assert(url@ =~= spec_lookup_url(domain.name@, self.hostname@));
        }
        url
    }

    /// Turns the lookup response into the patch call that rewrites the first
    /// matching record with `ip`'s address, typed by its family. Fails with
    /// `DomainRecordNotFound`, and prepares no patch call, exactly when no
    /// record matched.
    pub fn prepare_patch(
        &self,
        domain: &DomainInfo,
        records: &Vec<DigitalOceanRecord>,
        ip: &ExternalIp,
    ) -> (r: Result<DnsPatchCall, Error>)
        ensures
            r is Ok <==> records@.len() > 0,
            r is Ok ==> r->Ok_0.url@ == spec_record_url(domain.name@, records@[0].id),
            r is Ok ==> r->Ok_0.body@ == spec_patch_body(
                records@[0].id,
                domain.sub@,
                spec_record_type(ip.address@),
                ip.address@,
            ),
            r is Err ==> r->Err_0@ == crate::error::ErrorView::DomainRecordNotFound,
    {
        let record_id = match first_record_id(records) {
            Ok(id) => id,
            Err(e) => {
                return Err(e);
            },
        };
        let id_digits = text::u64_to_string(record_id);

        let mut url = String::from_str("https://api.digitalocean.com/v2/domains/");
        url.append(domain.name.as_str());
        url.append("/records/");
        url.append(id_digits.as_str());
        proof {
            assert(url@ =~= spec_record_url(domain.name@, records@[0].id));
        }

        let record_type = if ip.is_ipv4() {
            String::from_str("A")
        } else {
            String::from_str("AAAA")
        };

        let mut body = String::from_str("{\"id\":");
        body.append(id_digits.as_str());
        body.append(",\"name\":\"");
        body.append(domain.sub.as_str());
        body.append("\",\"type\":\"");
        body.append(record_type.as_str());
        body.append("\",\"data\":\"");
        body.append(ip.address.as_str());
        body.append("\"}");
        proof {
            assert(body@ =~= spec_patch_body(
                records@[0].id,
                domain.sub@,
                spec_record_type(ip.address@),
                ip.address@,
            ));
        }

        Ok(DnsPatchCall { url, body })
    }

    /// Classifies the status the patch call returned: success for 2xx,
    /// otherwise `UpdateFailure` carrying that exact status.
    pub fn finish_update(status: u16) -> (r: Result<(), Error>)
        ensures
            r is Ok <==> dns::spec_status_success(status),
            r is Err ==> r->Err_0@ == crate::error::ErrorView::UpdateFailure(status),
    {
        dns::classify_patch_status(status)
    }
}

} // verus!
