use whois_rust::{Failure, HostKind, JsonValue, MapFault, WhoIs, WhoIsError};

fn text(s: &str) -> JsonValue {
    JsonValue::Text(s.to_string())
}

fn object(members: Vec<(&str, JsonValue)>) -> JsonValue {
    JsonValue::Object(members.into_iter().map(|(k, v)| (k.to_string(), v)).collect())
}

fn fallback() -> (&'static str, JsonValue) {
    ("_", object(vec![("ip", text("whois.arin.net"))]))
}

fn fault_of(config: &JsonValue) -> MapFault {
    match WhoIs::from_value(config) {
        Err(WhoIsError::MapError(fault)) => fault,
        Err(other) => panic!("another error: {:?}", other),
        Ok(_) => panic!("the registry was built"),
    }
}

#[test]
fn registry_of_short_forms() {
    let config = object(vec![("org", text("whois.pir.org")), fallback()]);
    let whois = WhoIs::from_value(&config).unwrap();
    let org = whois.select("org").unwrap();
    assert_eq!(org.host.as_str(), "whois.pir.org");
    assert_eq!(org.host.kind(), HostKind::Domain);
    assert_eq!(org.query, None);
    assert!(org.punycode);
    let ip = whois.ip_fallback();
    assert_eq!(ip.host.as_str(), "whois.arin.net");
    assert_eq!(ip.query, None);
    assert!(ip.punycode);
}

#[test]
fn registry_of_object_forms() {
    let config = object(vec![
        (
            "de",
            object(vec![
                ("host", text("whois.denic.de")),
                ("query", text("-T dn,ace $addr\r\n")),
                ("punycode", JsonValue::Bool(false)),
            ]),
        ),
        (
            "_",
            object(vec![(
                "ip",
                object(vec![("host", text("whois.arin.net")), ("query", text("n + $addr\r\n"))]),
            )]),
        ),
    ]);
    let whois = WhoIs::from_value(&config).unwrap();
    let de = whois.select("example.de").unwrap();
    assert_eq!(de.host.as_str(), "whois.denic.de");
    assert_eq!(de.query.as_deref(), Some("-T dn,ace $addr\r\n"));
    assert!(!de.punycode);
    let ip = whois.ip_fallback();
    assert_eq!(ip.host.as_str(), "whois.arin.net");
    assert_eq!(ip.query.as_deref(), Some("n + $addr\r\n"));
    assert!(ip.punycode);
}

#[test]
fn select_takes_the_longest_suffix() {
    let config = object(vec![
        ("uk", text("whois.nic.uk")),
        ("co.uk", text("whois.co.example")),
        fallback(),
    ]);
    let whois = WhoIs::from_value(&config).unwrap();
    assert_eq!(whois.select("example.co.uk").unwrap().host.as_str(), "whois.co.example");
    assert_eq!(whois.select("www.example.co.uk").unwrap().host.as_str(), "whois.co.example");
    assert_eq!(whois.select("co.uk").unwrap().host.as_str(), "whois.co.example");
    assert_eq!(whois.select("example.org.uk").unwrap().host.as_str(), "whois.nic.uk");
    assert_eq!(whois.select("uk").unwrap().host.as_str(), "whois.nic.uk");
}

#[test]
fn select_takes_a_whole_name_before_its_suffix() {
    let config = object(vec![
        ("example.org", text("whois.example.org")),
        ("org", text("whois.pir.org")),
        fallback(),
    ]);
    let whois = WhoIs::from_value(&config).unwrap();
    assert_eq!(whois.select("example.org").unwrap().host.as_str(), "whois.example.org");
    assert_eq!(whois.select("other.org").unwrap().host.as_str(), "whois.pir.org");
}

#[test]
fn select_matches_labels_not_letters() {
    let config = object(vec![("org", text("whois.pir.org")), fallback()]);
    let whois = WhoIs::from_value(&config).unwrap();
    assert!(whois.select("example.borg").is_err());
    assert!(whois.select("exampleorg").is_err());
}

#[test]
fn select_reads_capital_letters_as_small_ones() {
    let config = object(vec![("org", text("whois.pir.org")), ("CO.UK", text("whois.nic.uk")), fallback()]);
    let whois = WhoIs::from_value(&config).unwrap();
    assert_eq!(whois.select("Example.ORG").unwrap().host.as_str(), "whois.pir.org");
    assert_eq!(whois.select("EXAMPLE.org").unwrap().host.as_str(), "whois.pir.org");
    assert_eq!(whois.select("example.co.uk").unwrap().host.as_str(), "whois.nic.uk");
    assert_eq!(whois.select("example.Co.Uk").unwrap().host.as_str(), "whois.nic.uk");
    assert!(matches!(whois.select("example.uk"), Err(WhoIsError::NoServer)));
}

#[test]
fn a_name_in_capital_letters_replaces_the_same_name_in_small_ones() {
    let config = object(vec![
        ("org", text("whois.first.example")),
        ("ORG", text("whois.second.example")),
        fallback(),
    ]);
    let whois = WhoIs::from_value(&config).unwrap();
    assert_eq!(whois.select("example.org").unwrap().host.as_str(), "whois.second.example");
}

#[test]
fn select_falls_back_to_the_catch_all() {
    let config = object(vec![
        ("org", text("whois.pir.org")),
        ("", text("whois.ripe.net")),
        fallback(),
    ]);
    let whois = WhoIs::from_value(&config).unwrap();
    assert_eq!(whois.select("example.com").unwrap().host.as_str(), "whois.ripe.net");
    assert_eq!(whois.select("com").unwrap().host.as_str(), "whois.ripe.net");
    assert_eq!(whois.select("").unwrap().host.as_str(), "whois.ripe.net");
    assert_eq!(whois.select("example.org").unwrap().host.as_str(), "whois.pir.org");
}

#[test]
fn select_fails_without_suffix_and_catch_all() {
    let config = object(vec![("org", text("whois.pir.org")), fallback()]);
    let whois = WhoIs::from_value(&config).unwrap();
    let error = whois.select("example.com").unwrap_err();
    assert!(matches!(error, WhoIsError::NoServer));
    assert_eq!(error.failure(), Failure::NoServer);
    assert!(matches!(whois.select(""), Err(WhoIsError::NoServer)));
}

#[test]
fn select_does_not_see_the_server_for_addresses() {
    let config = object(vec![fallback()]);
    let whois = WhoIs::from_value(&config).unwrap();
    assert!(matches!(whois.select("_"), Err(WhoIsError::NoServer)));
    assert!(matches!(whois.select("ip"), Err(WhoIsError::NoServer)));
}

#[test]
fn null_members_are_dropped() {
    let config = object(vec![
        ("org", JsonValue::Null),
        ("com", text("whois.verisign-grs.com")),
        fallback(),
    ]);
    let whois = WhoIs::from_value(&config).unwrap();
    assert!(matches!(whois.select("example.org"), Err(WhoIsError::NoServer)));
    assert_eq!(whois.select("example.com").unwrap().host.as_str(), "whois.verisign-grs.com");
}

#[test]
fn a_later_member_replaces_an_earlier_one() {
    let config = object(vec![
        ("org", text("whois.first.example")),
        ("org", text("whois.second.example")),
        fallback(),
    ]);
    let whois = WhoIs::from_value(&config).unwrap();
    assert_eq!(whois.select("example.org").unwrap().host.as_str(), "whois.second.example");
}

#[test]
fn a_list_that_is_no_object_is_refused() {
    assert_eq!(fault_of(&JsonValue::Null), MapFault::ListNotObject);
    assert_eq!(fault_of(&text("whois.arin.net")), MapFault::ListNotObject);
    assert_eq!(fault_of(&JsonValue::Array(vec![])), MapFault::ListNotObject);
}

#[test]
fn a_list_without_underscore_is_refused() {
    let config = object(vec![("org", text("whois.pir.org"))]);
    assert_eq!(fault_of(&config), MapFault::NoUnderscore);
    assert_eq!(fault_of(&object(vec![])), MapFault::NoUnderscore);
}

#[test]
fn an_underscore_that_is_no_object_is_refused() {
    let config = object(vec![("_", text("whois.arin.net"))]);
    assert_eq!(fault_of(&config), MapFault::UnderscoreNotObject);
    let config = object(vec![("_", JsonValue::Null)]);
    assert_eq!(fault_of(&config), MapFault::UnderscoreNotObject);
}

#[test]
fn an_underscore_without_ip_is_refused() {
    let config = object(vec![("_", object(vec![("domain", text("whois.arin.net"))]))]);
    assert_eq!(fault_of(&config), MapFault::NoIp);
}

#[test]
fn a_null_ip_is_refused() {
    let config = object(vec![("_", object(vec![("ip", JsonValue::Null)]))]);
    assert_eq!(fault_of(&config), MapFault::IpNull);
}

#[test]
fn an_ip_that_is_no_server_is_refused() {
    let config = object(vec![("_", object(vec![("ip", JsonValue::Number("43".to_string()))]))]);
    assert_eq!(fault_of(&config), MapFault::ValueNotObjectOrString);
    let config = object(vec![("_", object(vec![("ip", text("not a host"))]))]);
    assert_eq!(fault_of(&config), MapFault::StringNotHost);
}

#[test]
fn a_member_that_is_no_server_is_refused() {
    let config = object(vec![("org", JsonValue::Bool(true)), fallback()]);
    assert_eq!(fault_of(&config), MapFault::ValueNotObjectOrString);
    let config = object(vec![("org", text("whois pir org")), fallback()]);
    assert_eq!(fault_of(&config), MapFault::StringNotHost);
}

#[test]
fn the_fault_of_the_ip_comes_first() {
    let config = object(vec![
        ("org", JsonValue::Bool(true)),
        ("_", object(vec![("ip", JsonValue::Null)])),
    ]);
    assert_eq!(fault_of(&config), MapFault::IpNull);
}

#[test]
fn the_first_member_that_is_no_server_decides() {
    let config = object(vec![
        ("com", text("whois.verisign-grs.com")),
        ("net", text("not a host")),
        ("org", JsonValue::Bool(true)),
        fallback(),
    ]);
    assert_eq!(fault_of(&config), MapFault::StringNotHost);
}

#[test]
fn fault_messages() {
    assert_eq!(MapFault::ListNotObject.message(), "The server list is not an object.");
    assert_eq!(MapFault::NoUnderscore.message(), "Cannot find `_` in the server list.");
    assert_eq!(MapFault::UnderscoreNotObject.message(), "`_` in the server list is not an object.");
    assert_eq!(
        MapFault::NoIp.message(),
        "Cannot find `ip` in the `_` object in the server list."
    );
    assert_eq!(MapFault::IpNull.message(), "`ip` in the `_` object in the server list is null.");
    assert_eq!(
        MapFault::ValueNotObjectOrString.message(),
        "The server value is not an object or a host string."
    );
    assert_eq!(
        MapFault::StringNotHost.message(),
        "The server value is not a correct host string."
    );
    assert_eq!(
        MapFault::ObjectWithoutHost.message(),
        "The server value is an object, but it has not a host string."
    );
    assert_eq!(
        MapFault::ObjectHostNotHost.message(),
        "The server value is an object, but it has not a correct host string."
    );
    assert_eq!(
        MapFault::ObjectQueryNotString.message(),
        "The server value is an object, but it has an incorrect query string."
    );
    assert_eq!(
        MapFault::ObjectPunycodeNotBool.message(),
        "The server value is an object, but it has an incorrect punycode boolean value."
    );
}

#[test]
fn json_get_takes_the_last_member_of_a_name() {
    let value = object(vec![
        ("a", JsonValue::Bool(false)),
        ("b", JsonValue::Null),
        ("a", JsonValue::Bool(true)),
    ]);
    assert!(matches!(value.get("a"), Some(JsonValue::Bool(true))));
    assert!(matches!(value.get("b"), Some(JsonValue::Null)));
    assert!(value.get("c").is_none());
    assert!(value.get("").is_none());
    assert!(text("a").get("a").is_none());
    assert!(JsonValue::Array(vec![text("a")]).get("a").is_none());
}
