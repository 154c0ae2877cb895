use suiup::handlers::self_::{find_archive_name, release_download_url, Ver, VerError};
use suiup::platform::Platform;

#[test]
fn test_ver_from_str_valid_versions() {
    // Test basic version parsing
    let v1 = Ver::from_str("1.2.3").unwrap();
    assert_eq!(v1.major, 1);
    assert_eq!(v1.minor, 2);
    assert_eq!(v1.patch, 3);

    // Test version with 'v' prefix
    let v2 = Ver::from_str("v1.2.3").unwrap();
    assert_eq!(v2.major, 1);
    assert_eq!(v2.minor, 2);
    assert_eq!(v2.patch, 3);

    // Test zero versions
    let v3 = Ver::from_str("0.0.0").unwrap();
    assert_eq!(v3.major, 0);
    assert_eq!(v3.minor, 0);
    assert_eq!(v3.patch, 0);

    // Test larger version numbers
    let v4 = Ver::from_str("v10.20.30").unwrap();
    assert_eq!(v4.major, 10);
    assert_eq!(v4.minor, 20);
    assert_eq!(v4.patch, 30);
}

#[test]
fn test_ver_from_str_invalid_versions() {
    // Test invalid formats
    assert!(Ver::from_str("1.2").is_err());
    assert!(Ver::from_str("1.2.3.4").is_err());
    assert!(Ver::from_str("1").is_err());
    assert!(Ver::from_str("").is_err());
    assert!(Ver::from_str("a.b.c").is_err());
    assert!(Ver::from_str("1.a.3").is_err());
    assert!(Ver::from_str("v1.2.c").is_err());
}

#[test]
fn test_ver_equality() {
    let v1 = Ver::from_str("1.2.3").unwrap();
    let v2 = Ver::from_str("v1.2.3").unwrap();
    let v3 = Ver::from_str("1.2.4").unwrap();

    assert_eq!(v1, v2);
    assert_eq!(v2, v1);
    assert_ne!(v1, v3);
    assert_ne!(v3, v1);
}

#[test]
fn test_ver_ordering() {
    // Test major version differences
    let v1_0_0 = Ver::from_str("1.0.0").unwrap();
    let v2_0_0 = Ver::from_str("2.0.0").unwrap();
    assert!(v1_0_0 < v2_0_0);
    assert!(v2_0_0 > v1_0_0);

    // Test minor version differences
    let v1_1_0 = Ver::from_str("1.1.0").unwrap();
    let v1_2_0 = Ver::from_str("1.2.0").unwrap();
    assert!(v1_1_0 < v1_2_0);
    assert!(v1_2_0 > v1_1_0);

    // Test patch version differences
    let v1_1_1 = Ver::from_str("1.1.1").unwrap();
    let v1_1_2 = Ver::from_str("1.1.2").unwrap();
    assert!(v1_1_1 < v1_1_2);
    assert!(v1_1_2 > v1_1_1);

    // Test same versions
    let v1 = Ver::from_str("1.2.3").unwrap();
    let v2 = Ver::from_str("v1.2.3").unwrap();
    assert!(v1 <= v2);
    assert!(v1 >= v2);

    // Test complex comparisons
    let v0_0_4 = Ver::from_str("0.0.4").unwrap();
    let v0_0_3 = Ver::from_str("0.0.3").unwrap();
    assert!(v0_0_3 < v0_0_4);
    assert!(v0_0_4 > v0_0_3);

    // Test the specific case from the bug report
    let current = Ver::from_str("0.0.4").unwrap();
    let latest = Ver::from_str("0.0.3").unwrap();
    assert!(current >= latest); // Current is newer, should not show warning
    assert!(latest < current); // Latest is older than current
}

#[test]
fn test_ver_display() {
    let v1 = Ver::from_str("1.2.3").unwrap();
    assert_eq!(format!("{}", v1.to_string()), "1.2.3");

    let v2 = Ver::from_str("v10.20.30").unwrap();
    assert_eq!(format!("{}", v2.to_string()), "10.20.30");

    let v3 = Ver::from_str("0.0.0").unwrap();
    assert_eq!(format!("{}", v3.to_string()), "0.0.0");
}

#[test]
fn ver_takes_a_plus_sign_and_every_leading_v() {
    assert_eq!(Ver::from_str("vv1.+2.3").unwrap(), Ver { major: 1, minor: 2, patch: 3 });
    assert!(matches!(Ver::from_str("1.-2.3"), Err(VerError::InvalidNumber(p)) if p == "-2"));
    assert!(matches!(Ver::from_str("1.2"), Err(VerError::InvalidFormat)));
    assert!(matches!(Ver::from_str("1..3"), Err(VerError::InvalidNumber(p)) if p.is_empty()));
}

#[test]
fn ver_holds_what_the_machine_holds() {
    let v = Ver::from_str("18446744073709551615.0.0").unwrap();
    assert_eq!(v.major, u64::MAX);
    assert_eq!(v.to_string(), "18446744073709551615.0.0");
    assert!(Ver::from_str("18446744073709551616.0.0").is_err());
}

#[test]
fn an_update_is_due_when_the_running_version_is_older() {
    let current = Ver { major: 0, minor: 0, patch: 4 };
    assert!(current.is_older_than(&Ver { major: 0, minor: 1, patch: 0 }));
    assert!(!current.is_older_than(&Ver { major: 0, minor: 0, patch: 4 }));
    assert!(!current.is_older_than(&Ver { major: 0, minor: 0, patch: 3 }));
}

#[test]
fn archive_names() {
    assert_eq!(find_archive_name("linux", "x86_64", Platform::Unix), "suiup-Linux-musl-x86_64.tar.gz");
    assert_eq!(find_archive_name("ubuntu", "aarch64", Platform::Unix), "suiup-Linux-musl-arm64.tar.gz");
    assert_eq!(find_archive_name("macos", "aarch64", Platform::Unix), "suiup-macOS-arm64.tar.gz");
    assert_eq!(find_archive_name("windows", "x86_64", Platform::Windows), "suiup-Windows-msvc-x86_64.zip");
    assert_eq!(find_archive_name("freebsd", "riscv64", Platform::Unix), "suiup-freebsd-riscv64.tar.gz");
}

#[test]
fn download_url_of_a_release() {
    assert_eq!(
        release_download_url("v0.0.1", "suiup-Linux-musl-x86_64.tar.gz"),
        "https://github.com/MystenLabs/suiup/releases/download/v0.0.1/suiup-Linux-musl-x86_64.tar.gz"
    );
}
