use udyndns::dns;
use udyndns::error::Error;
use udyndns::external::{ExternalIp, FetchOutcome, Resolver};
use udyndns::persistent::{state_file_name, Persistance};
use udyndns::providers::digital_ocean::{first_record_id, DigitalOceanRecord, DoArgs};
use udyndns::providers::google_cloud::GcpArgs;
use udyndns::sync;

fn fresh_store() -> Persistance {
    Persistance::new("vpn.example.com".to_string(), None)
}

fn loaded_store(address: &str) -> Persistance {
    Persistance::new("vpn.example.com".to_string(), Some(address.to_string()))
}

#[test]
fn empty_state_counts_as_changed() {
    let store = fresh_store();
    assert!(store.ip_changed("1.2.3.4"));
    assert!(store.ip_changed(""));
}

#[test]
fn persisted_address_only_differs_on_other_values() {
    let mut store = fresh_store();
    let content = store.update("1.2.3.4".to_string());
    assert_eq!(content, "1.2.3.4");
    assert!(!store.ip_changed("1.2.3.4"));
    assert!(store.ip_changed("5.6.7.8"));
    assert!(store.ip_changed("1.2.3.5"));
}

#[test]
fn loaded_state_compares_byte_for_byte() {
    let store = loaded_store("10.0.0.1");
    assert!(!store.ip_changed("10.0.0.1"));
    assert!(store.ip_changed("10.0.0.2"));
}

#[test]
fn state_file_name_is_the_hostname() {
    match state_file_name("vpn.example.com") {
        Ok(name) => assert_eq!(name, "vpn.example.com"),
        Err(_) => panic!("expected a file name"),
    }
}

#[test]
fn state_file_name_refuses_separators_and_empty() {
    assert!(matches!(state_file_name(""), Err(Error::FileNameError)));
    assert!(matches!(state_file_name("a/b"), Err(Error::FileNameError)));
    assert!(matches!(state_file_name("a\\b"), Err(Error::FileNameError)));
}

#[test]
fn resolver_succeeds_after_four_failures_with_four_delays() {
    let outcomes = vec![
        FetchOutcome::Failure("timeout 1".to_string()),
        FetchOutcome::Failure("timeout 2".to_string()),
        FetchOutcome::Failure("timeout 3".to_string()),
        FetchOutcome::Failure("timeout 4".to_string()),
        FetchOutcome::Success("203.0.113.9".to_string()),
    ];
    let report = udyndns::external::resolve_from_outcomes(outcomes);
    assert_eq!(report.outcome, Ok("203.0.113.9".to_string()));
    assert_eq!(report.delays, 4);
    assert_eq!(report.attempts, 5);
}

#[test]
fn resolver_surfaces_the_last_error_when_all_attempts_fail() {
    let outcomes = vec![
        FetchOutcome::Failure("error 1".to_string()),
        FetchOutcome::Failure("error 2".to_string()),
        FetchOutcome::Failure("error 3".to_string()),
        FetchOutcome::Failure("error 4".to_string()),
        FetchOutcome::Failure("error 5".to_string()),
    ];
    let report = udyndns::external::resolve_from_outcomes(outcomes);
    assert_eq!(report.outcome, Err("error 5".to_string()));
    assert_eq!(report.delays, 4);
    assert_eq!(report.attempts, 5);
}

#[test]
fn resolver_returns_the_first_success_immediately() {
    let outcomes = vec![
        FetchOutcome::Success("198.51.100.7".to_string()),
        FetchOutcome::Failure("unreached".to_string()),
        FetchOutcome::Failure("unreached".to_string()),
        FetchOutcome::Failure("unreached".to_string()),
        FetchOutcome::Failure("unreached".to_string()),
    ];
    let report = udyndns::external::resolve_from_outcomes(outcomes);
    assert_eq!(report.outcome, Ok("198.51.100.7".to_string()));
    assert_eq!(report.delays, 0);
    assert_eq!(report.attempts, 1);
}

#[test]
fn resolver_bookkeeping_sleeps_between_but_not_after_the_last() {
    let mut resolver = Resolver::new();
    let mut sleeps = Vec::new();
    while resolver.may_attempt() {
        sleeps.push(resolver.note_failure("boom".to_string()));
    }
    assert_eq!(sleeps, vec![true, true, true, true, false]);
    assert_eq!(resolver.last_error(), "boom");
}

#[test]
fn registrar_lookup_without_records_is_record_not_found() {
    let args = DoArgs {
        api_key_file: "/tmp/token".to_string(),
        hostname: "vpn.example.com".to_string(),
        ipv6: false,
    };
    let domain = args.domain_info().expect("hostname should decompose");
    let ip = ExternalIp::new("1.2.3.4".to_string());
    let records: Vec<DigitalOceanRecord> = Vec::new();
    assert!(matches!(first_record_id(&records), Err(Error::DomainRecordNotFound)));
    assert!(matches!(
        args.prepare_patch(&domain, &records, &ip),
        Err(Error::DomainRecordNotFound)
    ));
}

#[test]
fn registrar_patch_targets_the_first_record() {
    let args = DoArgs {
        api_key_file: "/tmp/token".to_string(),
        hostname: "vpn.example.com".to_string(),
        ipv6: false,
    };
    let domain = args.domain_info().expect("hostname should decompose");
    assert_eq!(
        args.prepare_lookup(&domain),
        "https://api.digitalocean.com/v2/domains/example.com/records?name=vpn.example.com"
    );
    let ip = ExternalIp::new("203.0.113.9".to_string());
    let records = vec![
        DigitalOceanRecord {
            id: 4242,
            name: "vpn".to_string(),
            record_type: "A".to_string(),
            data: "198.51.100.1".to_string(),
        },
        DigitalOceanRecord {
            id: 9999,
            name: "vpn".to_string(),
            record_type: "A".to_string(),
            data: "198.51.100.2".to_string(),
        },
    ];
    let call = args.prepare_patch(&domain, &records, &ip).expect("a record matched");
    assert_eq!(call.url, "https://api.digitalocean.com/v2/domains/example.com/records/4242");
    assert_eq!(
        call.body,
        "{\"id\":4242,\"name\":\"vpn\",\"type\":\"A\",\"data\":\"203.0.113.9\"}"
    );
}

#[test]
fn registrar_patch_types_by_address_family() {
    let args = DoArgs {
        api_key_file: "/tmp/token".to_string(),
        hostname: "vpn.example.com".to_string(),
        ipv6: true,
    };
    let domain = args.domain_info().expect("hostname should decompose");
    let ip = ExternalIp::new("2001:db8::1".to_string());
    let records = vec![DigitalOceanRecord {
        id: 7,
        name: "vpn".to_string(),
        record_type: "AAAA".to_string(),
        data: "2001:db8::2".to_string(),
    }];
    let call = args.prepare_patch(&domain, &records, &ip).expect("a record matched");
    assert_eq!(
        call.body,
        "{\"id\":7,\"name\":\"vpn\",\"type\":\"AAAA\",\"data\":\"2001:db8::1\"}"
    );
}

#[test]
fn cloud_patch_url_is_the_same_with_or_without_trailing_dot() {
    let bare = GcpArgs {
        auth_file: "/tmp/sa.json".to_string(),
        project: "proj".to_string(),
        zone: "zone".to_string(),
        hostname: "host.example.com".to_string(),
    };
    let dotted = GcpArgs {
        auth_file: "/tmp/sa.json".to_string(),
        project: "proj".to_string(),
        zone: "zone".to_string(),
        hostname: "host.example.com.".to_string(),
    };
    let a = bare.prepare_update("1.2.3.4");
    let b = dotted.prepare_update("1.2.3.4");
    assert_eq!(a.url, b.url);
    assert_eq!(
        a.url,
        "https://dns.googleapis.com/dns/v1beta2/projects/proj/managedZones/zone/rrsets/host.example.com./A"
    );
    assert_eq!(a.body, "{\"rrdatas\":[\"1.2.3.4\"]}");
}

#[test]
fn unchanged_address_without_force_is_a_noop() {
    let store = loaded_store("1.2.3.4");
    let ip = ExternalIp::new("1.2.3.4".to_string());
    assert!(!sync::decide(&store, &ip, false));
}

#[test]
fn force_updates_and_rewrites_the_same_value() {
    let mut store = loaded_store("1.2.3.4");
    let ip = ExternalIp::new("1.2.3.4".to_string());
    assert!(sync::decide(&store, &ip, true));
    let written = sync::conclude_update(&mut store, &ip, Ok(())).expect("update succeeded");
    assert_eq!(written, "1.2.3.4");
    assert!(!store.ip_changed("1.2.3.4"));
}

#[test]
fn changed_address_is_updated_and_persisted() {
    let mut store = loaded_store("1.2.3.4");
    let ip = ExternalIp::new("5.6.7.8".to_string());
    assert!(sync::decide(&store, &ip, false));
    let written = sync::conclude_update(&mut store, &ip, Ok(())).expect("update succeeded");
    assert_eq!(written, "5.6.7.8");
    assert!(!store.ip_changed("5.6.7.8"));
}

#[test]
fn non_success_status_carries_the_exact_status_and_keeps_state() {
    assert!(matches!(dns::classify_patch_status(404), Err(Error::UpdateFailure(404))));
    assert!(matches!(dns::classify_patch_status(500), Err(Error::UpdateFailure(500))));
    assert!(matches!(dns::classify_patch_status(199), Err(Error::UpdateFailure(199))));
    assert!(matches!(dns::classify_patch_status(300), Err(Error::UpdateFailure(300))));
    assert!(dns::classify_patch_status(200).is_ok());
    assert!(dns::classify_patch_status(299).is_ok());

    let mut store = loaded_store("1.2.3.4");
    let ip = ExternalIp::new("5.6.7.8".to_string());
    let run = sync::conclude_update(&mut store, &ip, Err(Error::UpdateFailure(503)));
    assert!(matches!(run, Err(Error::UpdateFailure(503))));
    assert!(!store.ip_changed("1.2.3.4"));
    assert!(store.ip_changed("5.6.7.8"));
}

#[test]
fn errors_compare_by_variant_and_payload() {
    assert!(Error::UpdateFailure(404).same_as(&Error::UpdateFailure(404)));
    assert!(!Error::UpdateFailure(404).same_as(&Error::UpdateFailure(500)));
    assert!(!Error::UpdateFailure(404).same_as(&Error::DomainRecordNotFound));
    assert!(Error::Io("gone".to_string()).same_as(&Error::Io("gone".to_string())));
    assert!(!Error::Io("gone".to_string()).same_as(&Error::Utf8("gone".to_string())));
}
