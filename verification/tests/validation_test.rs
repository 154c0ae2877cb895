use suiup::validation::{ValidationError, Validator, MAX_CACHE_SIZE, MIN_CACHE_SIZE};

#[test]
fn version_formats_that_are_accepted() {
    for v in [
        "1.2.3",
        "1.2.3-alpha",
        "1.2.3-beta.1",
        "testnet-1.2.3",
        "devnet-1.2.3-rc1",
        "mainnet-10.20.30",
        "latest",
        "nightly",
        "a1b2c3d",
        "0123456789abcdef0123456789abcdef01234567",
    ] {
        assert!(Validator::validate_version_format(v).is_ok(), "{v}");
    }
}

#[test]
fn version_formats_that_are_refused() {
    assert!(matches!(Validator::validate_version_format(""), Err(ValidationError::EmptyVersion)));
    for v in ["v1.2.3", "1.2", "localnet-1.2.3", "Latest", "a1b2c3", "A1B2C3D", "1.2.3-", "1.2.3 ", "nightly2"] {
        match Validator::validate_version_format(v) {
            Err(ValidationError::InvalidVersionFormat(s)) => assert_eq!(s, v),
            other => panic!("{v}: {other:?}"),
        }
    }
}

#[test]
fn version_verdict_goes_by_what_matched() {
    assert!(Validator::version_format_verdict("x", &vec![false, true]).is_ok());
    assert!(matches!(
        Validator::version_format_verdict("x", &vec![false, false]),
        Err(ValidationError::InvalidVersionFormat(_))
    ));
    assert!(matches!(Validator::version_format_verdict("x", &vec![]), Err(ValidationError::InvalidVersionFormat(_))));
    assert!(matches!(Validator::version_format_verdict("", &vec![true]), Err(ValidationError::EmptyVersion)));
    assert_eq!(Validator::version_format_patterns().len(), 4);
    assert_eq!(Validator::version_format_patterns()[2], "^(latest|nightly)$");
}

#[test]
fn networks() {
    for n in ["testnet", "devnet", "mainnet"] {
        assert!(Validator::validate_network(n).is_ok());
    }
    match Validator::validate_network("localnet") {
        Err(e @ ValidationError::InvalidNetwork(_)) => {
            assert_eq!(e.message(), "Invalid network: 'localnet'. Valid networks are: testnet, devnet, mainnet")
        }
        other => panic!("{other:?}"),
    }
    assert!(Validator::validate_network("Testnet").is_err());
    assert!(Validator::validate_network("").is_err());
}

#[test]
fn binaries() {
    for b in ["sui", "mvr", "walrus", "site-builder"] {
        assert!(Validator::validate_binary_name(b).is_ok());
    }
    match Validator::validate_binary_name("sui-node") {
        Err(e @ ValidationError::InvalidBinary(_)) => assert_eq!(
            e.message(),
            "Invalid binary: 'sui-node'. Valid binaries are: sui, mvr, walrus, site-builder"
        ),
        other => panic!("{other:?}"),
    }
}

#[test]
fn urls() {
    assert!(Validator::validate_url("https://example.com/a?b=c").is_ok());
    assert!(Validator::validate_url("http://127.0.0.1:8080").is_ok());
    assert!(matches!(Validator::validate_url("ftp://example.com"), Err(ValidationError::UnsupportedScheme)));
    assert!(matches!(Validator::validate_url("mailto:a@b.c"), Err(ValidationError::UnsupportedScheme)));
    match Validator::validate_url("not a url") {
        Err(e @ ValidationError::InvalidUrl(_)) => assert_eq!(e.message(), "Invalid URL format: not a url"),
        other => panic!("{other:?}"),
    }
    assert!(matches!(Validator::validate_url("https://"), Err(ValidationError::InvalidUrl(_))));
    assert!(matches!(Validator::validate_url(""), Err(ValidationError::InvalidUrl(_))));
}

#[test]
fn url_verdict_goes_by_what_was_read() {
    assert!(Validator::url_verdict("u", Some(("https".to_string(), true))).is_ok());
    assert!(matches!(
        Validator::url_verdict("u", Some(("https".to_string(), false))),
        Err(ValidationError::MissingHost)
    ));
    assert!(matches!(
        Validator::url_verdict("u", Some(("file".to_string(), false))),
        Err(ValidationError::UnsupportedScheme)
    ));
    assert!(matches!(Validator::url_verdict("u", None), Err(ValidationError::InvalidUrl(u)) if u == "u"));
    assert_eq!(ValidationError::MissingHost.message(), "URL must have a valid host");
    assert_eq!(ValidationError::UnsupportedScheme.message(), "URL must use http or https scheme");
}

#[test]
fn number_ranges() {
    assert!(Validator::validate_number_range(5, 5, 5, "x").is_ok());
    assert!(Validator::validate_number_range(0, 0, u64::MAX, "x").is_ok());
    match Validator::validate_number_range(4, 5, 10, "Width") {
        Err(e) => assert_eq!(e.message(), "Width must be between 5 and 10 (got: 4)"),
        Ok(()) => panic!(),
    }
    assert!(Validator::validate_number_range(11, 5, 10, "x").is_err());
    assert!(Validator::validate_number_range(7, 10, 5, "x").is_err());
}

#[test]
fn cache_sizes_and_days() {
    assert_eq!(MIN_CACHE_SIZE, 100 * 1024 * 1024);
    assert_eq!(MAX_CACHE_SIZE, 100 * 1024 * 1024 * 1024);
    assert!(Validator::validate_cache_size(MIN_CACHE_SIZE).is_ok());
    assert!(Validator::validate_cache_size(MAX_CACHE_SIZE).is_ok());
    assert!(Validator::validate_cache_size(MIN_CACHE_SIZE - 1).is_err());
    match Validator::validate_cache_size(MAX_CACHE_SIZE + 1) {
        Err(e) => assert_eq!(
            e.message(),
            "Cache size must be between 104857600 and 107374182400 (got: 107374182401)"
        ),
        Ok(()) => panic!(),
    }
    assert!(Validator::validate_cache_days(1).is_ok());
    assert!(Validator::validate_cache_days(365).is_ok());
    assert!(Validator::validate_cache_days(0).is_err());
    match Validator::validate_cache_days(366) {
        Err(e) => assert_eq!(e.message(), "Cache days must be between 1 and 365 (got: 366)"),
        Ok(()) => panic!(),
    }
    assert_eq!(ValidationError::EmptyVersion.message(), "Version cannot be empty");
    assert_eq!(ValidationError::InvalidVersionFormat("q".to_string()).message(), "Invalid version format: 'q'");
}
