use whois_rust::referral::{find_referral, find_referral_host, follow_referral};
use whois_rust::{HostKind, WhoIsServerValue};

fn host_of(response: &str) -> Option<String> {
    find_referral_host(response)
}

#[test]
fn referral_line_of_a_registry() {
    let response = "Domain Name: EXAMPLE.COM\n   Registrar WHOIS Server: whois.example-registrar.com\n   Registrar URL: http://www.example-registrar.com\n";
    assert_eq!(host_of(response).as_deref(), Some("whois.example-registrar.com"));
    let server = find_referral(response, "whois.verisign-grs.com:43").unwrap();
    assert_eq!(server.host.kind(), HostKind::Domain);
    assert_eq!(server.host.as_str(), "whois.example-registrar.com");
    assert_eq!(server.host.dial_address(), "whois.example-registrar.com:43");
    assert_eq!(server.query, None);
    assert!(server.punycode);
}

#[test]
fn referral_labels() {
    assert_eq!(host_of("ReferralServer: whois.a.example\n").as_deref(), Some("whois.a.example"));
    assert_eq!(host_of("Registrar Whois: whois.b.example\n").as_deref(), Some("whois.b.example"));
    assert_eq!(host_of("Whois Server: whois.c.example\n").as_deref(), Some("whois.c.example"));
    assert_eq!(host_of("WHOIS Server: whois.d.example\n").as_deref(), Some("whois.d.example"));
    assert_eq!(
        host_of("Registrar WHOIS Server: whois.e.example\n").as_deref(),
        Some("whois.e.example")
    );
}

#[test]
fn referral_labels_are_case_sensitive() {
    assert_eq!(host_of("referralserver: whois.a.example\n"), None);
    assert_eq!(host_of("whois server: whois.a.example\n"), None);
    assert_eq!(host_of("Whois server: whois.a.example\n"), None);
    assert_eq!(host_of("REGISTRAR WHOIS SERVER: whois.a.example\n"), None);
}

#[test]
fn referral_needs_its_colon() {
    assert_eq!(host_of("ReferralServer whois.a.example\n"), None);
    assert_eq!(host_of("ReferralServer : whois.a.example\n"), None);
    assert_eq!(host_of("Whois Server whois.a.example\n"), None);
}

#[test]
fn referral_scheme_is_dropped() {
    assert_eq!(
        host_of("ReferralServer: whois://whois.apnic.net\n").as_deref(),
        Some("whois.apnic.net")
    );
    assert_eq!(
        host_of("ReferralServer:  rwhois://rwhois.example.net:4321\n").as_deref(),
        Some("rwhois.example.net:4321")
    );
    assert_eq!(
        host_of("ReferralServer: http://whois.apnic.net\n").as_deref(),
        Some("http://whois.apnic.net")
    );
}

#[test]
fn referral_blanks_after_the_colon() {
    assert_eq!(host_of("Whois Server:whois.a.example\n").as_deref(), Some("whois.a.example"));
    assert_eq!(host_of("Whois Server: \t  whois.a.example\n").as_deref(), Some("whois.a.example"));
    assert_eq!(host_of("Whois Server:\nwhois.a.example\n").as_deref(), Some(""));
}

#[test]
fn referral_runs_to_the_end_of_the_line() {
    assert_eq!(host_of("Whois Server: whois.a.example").as_deref(), Some("whois.a.example"));
    assert_eq!(
        host_of("Whois Server: whois.a.example\nWhois Server: whois.b.example\n").as_deref(),
        Some("whois.a.example")
    );
    assert_eq!(
        host_of("Whois Server: whois.a.example (main)\n").as_deref(),
        Some("whois.a.example (main)")
    );
    assert_eq!(host_of("Whois Server: whois.a.example\r\n").as_deref(), Some("whois.a.example\r"));
}

#[test]
fn first_referral_line_wins() {
    let response = "Registrar: Example\nWhois Server: whois.first.example\nReferralServer: whois.second.example\n";
    assert_eq!(host_of(response).as_deref(), Some("whois.first.example"));
}

#[test]
fn response_without_a_referral() {
    assert_eq!(host_of(""), None);
    assert_eq!(host_of("Domain Name: EXAMPLE.COM\nRegistrar: Example\n"), None);
    assert!(find_referral("Domain Name: EXAMPLE.COM\n", "whois.verisign-grs.com:43").is_none());
}

#[test]
fn referral_to_the_dialed_address_is_none() {
    let response = "ReferralServer: whois.arin.net:43\n";
    assert_eq!(host_of(response).as_deref(), Some("whois.arin.net:43"));
    assert!(find_referral(response, "whois.arin.net:43").is_none());
    let server = find_referral(response, "whois.ripe.net:43").unwrap();
    assert_eq!(server.host.as_str(), "whois.arin.net:43");
    assert_eq!(server.host.dial_address(), "whois.arin.net:43");
}

#[test]
fn referral_is_held_against_the_address_letter_for_letter() {
    let response = "ReferralServer: whois.arin.net\n";
    let server = find_referral(response, "whois.arin.net:43").unwrap();
    assert_eq!(server.host.as_str(), "whois.arin.net");
    assert!(find_referral(response, "whois.arin.net").is_none());
}

#[test]
fn referral_that_is_no_host_is_none() {
    assert!(find_referral("Whois Server: see the registrar\n", "whois.a.example:43").is_none());
    assert!(find_referral("Whois Server:\n", "whois.a.example:43").is_none());
    assert!(find_referral("Whois Server: whois.b.example/\n", "whois.a.example:43").is_none());
    assert!(find_referral("Whois Server: whois.b.example\r\n", "whois.a.example:43").is_none());
}

#[test]
fn referral_to_an_address() {
    let server = find_referral("ReferralServer: rwhois://192.0.2.7:4321\n", "whois.arin.net:43")
        .unwrap();
    assert_eq!(server.host.kind(), HostKind::IPv4);
    assert_eq!(server.host.dial_address(), "192.0.2.7:4321");
}

#[test]
fn follow_referral_decides_by_what_it_is_given() {
    let host = || Some(WhoIsServerValue::from_string("whois.b.example").unwrap().host);
    let named = Some("whois.b.example".to_string());
    let server = follow_referral(&named, "whois.a.example:43", host()).unwrap();
    assert_eq!(server.host.as_str(), "whois.b.example");
    assert_eq!(server.query, None);
    assert!(server.punycode);
    assert!(follow_referral(&named, "whois.b.example", host()).is_none());
    assert!(follow_referral(&named, "whois.a.example:43", None).is_none());
    assert!(follow_referral(&None, "whois.a.example:43", host()).is_none());
    assert!(follow_referral(&None, "whois.a.example:43", None).is_none());
}
