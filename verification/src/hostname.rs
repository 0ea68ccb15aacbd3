//! Hostname decomposition. A fully-qualified hostname is split into the
//! registrable root domain and the subdomain prefix, as providers that
//! address records by `(domain, record-name)` require. The public-suffix-
//! aware split itself is delegated to the `addr` crate; its results are
//! named here and everything around them is verified.

use vstd::prelude::*;

use crate::error::Error;

verus! {

/// The registrable root domain that public-suffix-aware parsing finds in
/// `host`: the label above the public suffix together with the suffix, or
/// nothing when `host` is not a valid domain name or has no label above its
/// suffix.
pub uninterp spec fn registrable_root(host: Seq<char>) -> Option<Seq<char>>;

/// The subdomain prefix that public-suffix-aware parsing finds in `host`:
/// what stands before the registrable root, or nothing when the hostname
/// equals its root.
pub uninterp spec fn domain_prefix(host: Seq<char>) -> Option<Seq<char>>;

/// The subdomain label sequence of `host`: its prefix, or empty when the
/// hostname equals its root.
pub open spec fn spec_sub(host: Seq<char>) -> Seq<char> {
    match domain_prefix(host) {
        Some(p) => p,
        None => Seq::<char>::empty(),
    }
}

/// Relies on `addr::parse_domain_name` together with `Name::root` and
/// `Name::prefix`: the public-suffix-aware split of a domain name, a
/// function of the input string and the suffix list compiled into the
/// crate. Returns the root and, where one exists, the prefix; `None` when
/// the input does not parse or has no registrable root.
#[verifier::external_body]
fn parse_domain_parts(hostname: &str) -> (r: Option<(String, Option<String>)>)
    ensures
        r is Some <==> registrable_root(hostname@) is Some,
        r is Some ==> r->Some_0.0@ == registrable_root(hostname@)->Some_0,
        r is Some ==> (r->Some_0.1 is Some <==> domain_prefix(hostname@) is Some),
        r is Some && r->Some_0.1 is Some ==> r->Some_0.1->Some_0@ == domain_prefix(
            hostname@,
        )->Some_0,
{
    match addr::parse_domain_name(hostname) {
        Ok(domain) => match domain.root() {
            Some(root) => Some((root.to_string(), domain.prefix().map(|p| p.to_string()))),
            None => None,
        },
        Err(_) => None,
    }
}

/// A hostname split into its registrable root domain and subdomain prefix.
pub struct DomainInfo {
    /// The registrable root domain.
    pub name: String,
    /// The subdomain prefix; empty when the hostname equals the root.
    pub sub: String,
}

impl DomainInfo {
    /// Splits `hostname` into root and subdomain. Fails with
    /// `DomainParsingFailure` exactly when no registrable root can be found
    /// in it.
    pub fn from_hostname(hostname: &str) -> (r: Result<Self, Error>)
        ensures
            r is Ok <==> registrable_root(hostname@) is Some,
            r is Ok ==> r->Ok_0.name@ == registrable_root(hostname@)->Some_0,
            r is Ok ==> r->Ok_0.sub@ == spec_sub(hostname@),
            r is Err ==> r->Err_0@ == crate::error::ErrorView::DomainParsingFailure,
    {
        match parse_domain_parts(hostname) {
            Some((name, prefix)) => {
                let sub = match prefix {
                    Some(p) => p,
                    None => String::new(),
                };
                Ok(DomainInfo { name, sub })
            },
            None => Err(Error::DomainParsingFailure),
        }
    }
}

} // verus!
