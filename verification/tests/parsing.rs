use udyndns::error::Error;
use udyndns::external::ExternalIp;
use udyndns::hostname::DomainInfo;
use udyndns::ip::{is_ipv4_str, is_ipv6_str};
use udyndns::text::{trim, u64_to_string};

#[test]
fn hostname_with_subdomain_decomposes() {
    let info = DomainInfo::from_hostname("vpn.example.com").expect("valid hostname");
    assert_eq!(info.name, "example.com");
    assert_eq!(info.sub, "vpn");
}

#[test]
fn hostname_equal_to_root_has_empty_subdomain() {
    let info = DomainInfo::from_hostname("example.com").expect("valid hostname");
    assert_eq!(info.name, "example.com");
    assert_eq!(info.sub, "");
}

#[test]
fn multi_label_public_suffix_is_kept_in_the_root() {
    let info = DomainInfo::from_hostname("home.example.co.uk").expect("valid hostname");
    assert_eq!(info.name, "example.co.uk");
    assert_eq!(info.sub, "home");
}

#[test]
fn deep_subdomains_stay_in_the_prefix() {
    let info = DomainInfo::from_hostname("a.b.example.com").expect("valid hostname");
    assert_eq!(info.name, "example.com");
    assert_eq!(info.sub, "a.b");
}

#[test]
fn invalid_hostname_fails_domain_parsing() {
    assert!(matches!(
        DomainInfo::from_hostname("not a domain!!"),
        Err(Error::DomainParsingFailure)
    ));
}

#[test]
fn dotted_quads_are_ipv4() {
    assert!(is_ipv4_str("0.0.0.0"));
    assert!(is_ipv4_str("127.0.0.1"));
    assert!(is_ipv4_str("192.168.0.1"));
    assert!(is_ipv4_str("255.255.255.255"));
}

#[test]
fn malformed_quads_are_not_ipv4() {
    assert!(!is_ipv4_str(""));
    assert!(!is_ipv4_str("1.2.3"));
    assert!(!is_ipv4_str("1.2.3.4.5"));
    assert!(!is_ipv4_str("256.1.1.1"));
    assert!(!is_ipv4_str("01.2.3.4"));
    assert!(!is_ipv4_str("1..2.3"));
    assert!(!is_ipv4_str(".1.2.3"));
    assert!(!is_ipv4_str("1.2.3.4."));
    assert!(!is_ipv4_str("1.2.3.a"));
    assert!(!is_ipv4_str("2001:db8::1"));
}

#[test]
fn hex_group_forms_are_ipv6() {
    assert!(is_ipv6_str("::"));
    assert!(is_ipv6_str("::1"));
    assert!(is_ipv6_str("1::"));
    assert!(is_ipv6_str("2001:db8::8a2e:370:7334"));
    assert!(is_ipv6_str("1:2:3:4:5:6:7:8"));
    assert!(is_ipv6_str("fe80::1"));
    assert!(is_ipv6_str("1:2:3:4:5:6::8"));
    assert!(is_ipv6_str("1:2:3:4:5:6:7::"));
    assert!(is_ipv6_str("::2:3:4:5:6:7:8"));
    assert!(is_ipv6_str("abcd:ef01:2345:6789:abcd:ef01:2345:6789"));
}

#[test]
fn malformed_groups_are_not_ipv6() {
    assert!(!is_ipv6_str(""));
    assert!(!is_ipv6_str(":"));
    assert!(!is_ipv6_str(":::"));
    assert!(!is_ipv6_str(":1"));
    assert!(!is_ipv6_str("1:"));
    assert!(!is_ipv6_str("12345::"));
    assert!(!is_ipv6_str("1:2:3:4:5:6:7:8:9"));
    assert!(!is_ipv6_str("1:2:3:4:5:6:7::8"));
    assert!(!is_ipv6_str("1::2::3"));
    assert!(!is_ipv6_str("1.2.3.4"));
    assert!(!is_ipv6_str("g::1"));
    assert!(!is_ipv6_str("::2:3:4:5:6:7:8:9"));
    assert!(!is_ipv6_str("1:2:3:4:5:6:7"));
    assert!(!is_ipv6_str("1:2:3:4:5:6:7:8::"));
}

#[test]
fn external_ip_classifies_both_families() {
    let v4 = ExternalIp::new("203.0.113.9".to_string());
    assert!(v4.is_ipv4());
    assert!(!v4.is_ipv6());
    let v6 = ExternalIp::new("2001:db8::1".to_string());
    assert!(!v6.is_ipv4());
    assert!(v6.is_ipv6());
    let junk = ExternalIp::new("not-an-address".to_string());
    assert!(!junk.is_ipv4());
    assert!(!junk.is_ipv6());
}

#[test]
fn identifiers_render_in_decimal() {
    assert_eq!(u64_to_string(0), "0");
    assert_eq!(u64_to_string(7), "7");
    assert_eq!(u64_to_string(42), "42");
    assert_eq!(u64_to_string(1234567890), "1234567890");
    assert_eq!(u64_to_string(u64::MAX), "18446744073709551615");
}

#[test]
fn tokens_are_trimmed_of_surrounding_whitespace() {
    assert_eq!(trim("  abc123\n"), "abc123");
    assert_eq!(trim("\t token \r\n"), "token");
    assert_eq!(trim("token"), "token");
    assert_eq!(trim("   \n\t "), "");
    assert_eq!(trim(""), "");
    assert_eq!(trim("in ner"), "in ner");
}
