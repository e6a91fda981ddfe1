use mayastor::error::BdevError;
use mayastor::ocf::Ocf;
use mayastor::uri::ParsedUri;

fn pair(key: &str, value: &str) -> (String, String) {
    (String::from(key), String::from(value))
}

fn parts(path: &str, query: Vec<(String, String)>) -> ParsedUri {
    ParsedUri { uri: String::from("ocf://test"), path: String::from(path), query }
}

fn invalid(name: &str, value: &str) -> BdevError {
    BdevError::InvalidParameter { name: String::from(name), value: String::from(value) }
}

fn missing(name: &str) -> BdevError {
    BdevError::MissingParameter { name: String::from(name) }
}

fn unknown(name: &str) -> BdevError {
    BdevError::UnknownParameter { name: String::from(name) }
}

#[test]
fn ocf_uri_with_defaults() {
    let ocf = Ocf::try_from("ocf:///c1?cache_bdev=A&core_bdev=B").unwrap();
    assert_eq!(ocf.get_name(), "c1");
    assert_eq!(ocf.cache_mode(), "wb");
    assert_eq!(ocf.cache_line_size(), 0);
    assert_eq!(ocf.cache_bdev_name(), "A");
    assert_eq!(ocf.core_bdev_name(), "B");
    assert_eq!(ocf.uuid(), None);
}

#[test]
fn ocf_uri_with_bad_line_size() {
    let error =
        Ocf::try_from("ocf:///c1?cache_bdev=A&core_bdev=B&cache_line_size=abc").unwrap_err();
    assert_eq!(error, invalid("cache_line_size", "abc"));
}

#[test]
fn ocf_uri_with_every_parameter() {
    let ocf = Ocf::try_from(
        "ocf:///ocf1?cache_bdev=BdevA&core_bdev=BdevB&cache_mode=wt&cache_line_size=64\
         &uuid=6e5e5f4a-9f3c-4d2b-8a1e-0c9d7b6a5f4e",
    )
    .unwrap();
    assert_eq!(ocf.get_name(), "ocf1");
    assert_eq!(ocf.cache_mode(), "wt");
    assert_eq!(ocf.cache_line_size(), 64);
    assert_eq!(ocf.cache_bdev_name(), "BdevA");
    assert_eq!(ocf.core_bdev_name(), "BdevB");
    assert_eq!(ocf.uuid(), Some(&String::from("6e5e5f4a-9f3c-4d2b-8a1e-0c9d7b6a5f4e")));
}

#[test]
fn ocf_uri_cache_mode_is_not_checked() {
    let ocf = Ocf::try_from("ocf:///c1?cache_bdev=A&core_bdev=B&cache_mode=no-such-mode").unwrap();
    assert_eq!(ocf.cache_mode(), "no-such-mode");
}

#[test]
fn ocf_uri_missing_cache_bdev() {
    let error = Ocf::try_from("ocf:///c1?core_bdev=B").unwrap_err();
    assert_eq!(error, missing("cache_bdev"));
}

#[test]
fn ocf_uri_missing_core_bdev() {
    let error = Ocf::try_from("ocf:///c1?cache_bdev=A").unwrap_err();
    assert_eq!(error, missing("core_bdev"));
}

#[test]
fn ocf_uri_missing_both_names_the_cache() {
    let error = Ocf::try_from("ocf:///c1").unwrap_err();
    assert_eq!(error, missing("cache_bdev"));
    let error = Ocf::try_from("ocf:///c1?cache_mode=wb&whatever=1").unwrap_err();
    assert_eq!(error, missing("cache_bdev"));
}

#[test]
fn ocf_uri_unknown_parameter() {
    let error = Ocf::try_from("ocf:///c1?cache_bdev=A&core_bdev=B&cache_mod=wt").unwrap_err();
    assert_eq!(error, unknown("cache_mod"));
}

#[test]
fn ocf_uri_first_unknown_parameter_is_named() {
    let error =
        Ocf::try_from("ocf:///c1?zeta=1&cache_bdev=A&alpha=2&core_bdev=B&zeta=3").unwrap_err();
    assert_eq!(error, unknown("zeta"));
    let error = Ocf::try_from("ocf:///c1?cache_bdev=A&alpha=2&core_bdev=B&zeta=3").unwrap_err();
    assert_eq!(error, unknown("alpha"));
}

#[test]
fn ocf_uri_line_size_forms() {
    let size = |text: &str| {
        Ocf::try_from(&format!("ocf:///c1?cache_bdev=A&core_bdev=B&cache_line_size={}", text))
            .map(|ocf| ocf.cache_line_size())
    };
    assert_eq!(size("0"), Ok(0));
    assert_eq!(size("4"), Ok(4));
    assert_eq!(size("0064"), Ok(64));
    assert_eq!(size("%2B8"), Ok(8));
    assert_eq!(size("18446744073709551615"), Ok(u64::MAX));
    assert_eq!(
        size("18446744073709551616"),
        Err(invalid("cache_line_size", "18446744073709551616"))
    );
    assert_eq!(size("-1"), Err(invalid("cache_line_size", "-1")));
    assert_eq!(size(""), Err(invalid("cache_line_size", "")));
    assert_eq!(size("+8"), Err(invalid("cache_line_size", " 8")));
    assert_eq!(size("8k"), Err(invalid("cache_line_size", "8k")));
    assert_eq!(size("0x10"), Err(invalid("cache_line_size", "0x10")));
}

#[test]
fn ocf_uri_uuid_is_canonical() {
    let uuid = |text: &str| {
        Ocf::try_from(&format!("ocf:///c1?cache_bdev=A&core_bdev=B&uuid={}", text))
            .map(|ocf| ocf.uuid().cloned())
    };
    let canonical = Some(String::from("6e5e5f4a-9f3c-4d2b-8a1e-0c9d7b6a5f4e"));
    assert_eq!(uuid("6e5e5f4a-9f3c-4d2b-8a1e-0c9d7b6a5f4e"), Ok(canonical.clone()));
    assert_eq!(uuid("6E5E5F4A-9F3C-4D2B-8A1E-0C9D7B6A5F4E"), Ok(canonical.clone()));
    assert_eq!(uuid("6e5e5f4a9f3c4d2b8a1e0c9d7b6a5f4e"), Ok(canonical.clone()));
    assert_eq!(uuid("urn:uuid:6e5e5f4a-9f3c-4d2b-8a1e-0c9d7b6a5f4e"), Ok(canonical));
}

#[test]
fn ocf_uri_uuid_is_checked() {
    let error = Ocf::try_from("ocf:///c1?cache_bdev=A&core_bdev=B&uuid=not-a-uuid").unwrap_err();
    assert_eq!(error, invalid("uuid", "not-a-uuid"));
    let error = Ocf::try_from("ocf:///c1?cache_bdev=A&core_bdev=B&uuid=").unwrap_err();
    assert_eq!(error, invalid("uuid", ""));
    let error = Ocf::try_from(
        "ocf:///c1?cache_bdev=A&core_bdev=B&uuid=6e5e5f4a-9f3c-4d2b-8a1e-0c9d7b6a5f4",
    )
    .unwrap_err();
    assert_eq!(error, invalid("uuid", "6e5e5f4a-9f3c-4d2b-8a1e-0c9d7b6a5f4"));
}

#[test]
fn ocf_uri_checks_come_in_order() {
    // the path before everything else
    let error = Ocf::try_from("ocf:///?cache_line_size=abc&foo=1").unwrap_err();
    assert!(matches!(error, BdevError::UriInvalid { .. }));
    // the line size before the required parameters
    let error = Ocf::try_from("ocf:///c1?core_bdev=B&cache_line_size=abc").unwrap_err();
    assert_eq!(error, invalid("cache_line_size", "abc"));
    // the required parameters before the uuid
    let error = Ocf::try_from("ocf:///c1?cache_bdev=A&uuid=zz").unwrap_err();
    assert_eq!(error, missing("core_bdev"));
    // the uuid before the unknown parameters
    let error = Ocf::try_from("ocf:///c1?foo=1&cache_bdev=A&core_bdev=B&uuid=zz").unwrap_err();
    assert_eq!(error, invalid("uuid", "zz"));
    // an unknown parameter before success
    let error = Ocf::try_from("ocf:///c1?foo=1&cache_bdev=A&core_bdev=B").unwrap_err();
    assert_eq!(error, unknown("foo"));
}

#[test]
fn ocf_uri_without_a_name() {
    let no_segments = |uri: &str| BdevError::UriInvalid {
        uri: String::from(uri),
        message: String::from("no path segments"),
    };
    let uri = "ocf:///?cache_bdev=A&core_bdev=B";
    assert_eq!(Ocf::try_from(uri).unwrap_err(), no_segments(uri));
    let uri = "ocf:////?cache_bdev=A&core_bdev=B";
    assert_eq!(Ocf::try_from(uri).unwrap_err(), no_segments(uri));
    let uri = "ocf:c1?cache_bdev=A&core_bdev=B";
    assert_eq!(Ocf::try_from(uri).unwrap_err(), no_segments(uri));
}

#[test]
fn ocf_uri_that_is_no_uri() {
    let error = Ocf::try_from("c1?cache_bdev=A&core_bdev=B").unwrap_err();
    assert_eq!(
        error,
        BdevError::UriInvalid {
            uri: String::from("c1?cache_bdev=A&core_bdev=B"),
            message: String::from("not an absolute URI"),
        }
    );
    assert!(matches!(Ocf::try_from("").unwrap_err(), BdevError::UriInvalid { .. }));
}

#[test]
fn ocf_uri_name_is_the_path_without_its_slash() {
    let name = |uri: &str| Ocf::try_from(uri).unwrap().get_name();
    assert_eq!(name("ocf:///a/b?cache_bdev=A&core_bdev=B"), "a/b");
    assert_eq!(name("ocf:////c1?cache_bdev=A&core_bdev=B"), "/c1");
    assert_eq!(name("ocf:///c1/?cache_bdev=A&core_bdev=B"), "c1/");
    assert_eq!(name("ocf:///c%201?cache_bdev=A&core_bdev=B"), "c%201");
    assert_eq!(name("ocf://host/c1?cache_bdev=A&core_bdev=B"), "c1");
}

#[test]
fn ocf_uri_values_are_decoded() {
    let ocf = Ocf::try_from("ocf:///c1?cache_bdev=a%20b&core_bdev=c+d&cache_mode=w%26b").unwrap();
    assert_eq!(ocf.cache_bdev_name(), "a b");
    assert_eq!(ocf.core_bdev_name(), "c d");
    assert_eq!(ocf.cache_mode(), "w&b");
}

#[test]
fn ocf_uri_last_of_a_repeated_key_decides() {
    let ocf = Ocf::try_from(
        "ocf:///c1?cache_bdev=A&core_bdev=B&cache_bdev=C&cache_line_size=x&cache_line_size=8",
    )
    .unwrap();
    assert_eq!(ocf.cache_bdev_name(), "C");
    assert_eq!(ocf.cache_line_size(), 8);
    let error =
        Ocf::try_from("ocf:///c1?cache_bdev=A&core_bdev=B&cache_line_size=8&cache_line_size=x")
            .unwrap_err();
    assert_eq!(error, invalid("cache_line_size", "x"));
}

#[test]
fn ocf_from_parts_is_what_try_from_does_after_parsing() {
    let query = vec![
        pair("cache_bdev", "A"),
        pair("core_bdev", "B"),
        pair("uuid", "6E5E5F4A9F3C4D2B8A1E0C9D7B6A5F4E"),
    ];
    let ocf = Ocf::from_parts(&parts("/c1", query)).unwrap();
    assert_eq!(ocf.get_name(), "c1");
    assert_eq!(ocf.uuid(), Some(&String::from("6e5e5f4a-9f3c-4d2b-8a1e-0c9d7b6a5f4e")));
    let query = vec![pair("cache_bdev", "A"), pair("core_bdev", "B"), pair("uuid", "x")];
    assert_eq!(Ocf::from_parts(&parts("/c1", query)).unwrap_err(), invalid("uuid", "x"));
    assert_eq!(
        Ocf::from_parts(&parts("", vec![])).unwrap_err(),
        BdevError::UriInvalid {
            uri: String::from("ocf://test"),
            message: String::from("no path segments"),
        }
    );
}

#[test]
fn ocf_build_takes_the_uuid_as_given() {
    let query = || vec![pair("cache_bdev", "A"), pair("core_bdev", "B"), pair("uuid", "anything")];
    let ocf = Ocf::build(&parts("/c1", query()), Some(String::from("canonical"))).unwrap();
    assert_eq!(ocf.uuid(), Some(&String::from("canonical")));
    assert_eq!(Ocf::build(&parts("/c1", query()), None).unwrap_err(), invalid("uuid", "anything"));
    // without the parameter the uuid is not looked at
    let query = vec![pair("cache_bdev", "A"), pair("core_bdev", "B")];
    let ocf = Ocf::build(&parts("/c1", query), Some(String::from("canonical"))).unwrap();
    assert_eq!(ocf.uuid(), None);
}

#[test]
fn ocf_build_scenarios_without_a_parser() {
    let query = vec![pair("cache_bdev", "A"), pair("core_bdev", "B")];
    let ocf = Ocf::build(&parts("/c1", query), None).unwrap();
    assert_eq!(
        (ocf.get_name().as_str(), ocf.cache_mode(), ocf.cache_line_size(), ocf.uuid()),
        ("c1", "wb", 0, None)
    );
    let query =
        vec![pair("cache_bdev", "A"), pair("core_bdev", "B"), pair("cache_line_size", "abc")];
    assert_eq!(
        Ocf::build(&parts("/c1", query), None).unwrap_err(),
        invalid("cache_line_size", "abc")
    );
    let query = vec![pair("core_bdev", "B")];
    assert_eq!(Ocf::build(&parts("/c1", query), None).unwrap_err(), missing("cache_bdev"));
    let query = vec![pair("cache_bdev", "A"), pair("core_bdev", "B"), pair("Cache_mode", "wb")];
    assert_eq!(Ocf::build(&parts("/c1", query), None).unwrap_err(), unknown("Cache_mode"));
    for path in ["", "/", "//", "c1", "c1/"] {
        let query = vec![pair("cache_bdev", "A"), pair("core_bdev", "B")];
        assert!(matches!(
            Ocf::build(&parts(path, query), None).unwrap_err(),
            BdevError::UriInvalid { .. }
        ));
    }
}
