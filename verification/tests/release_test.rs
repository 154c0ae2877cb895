use suiup::handlers::release::{
    find_last_release_by_network, find_networks_with_version, Asset, Release,
};
use suiup::version::{ensure_version_prefix, version_precedes};

fn create_test_release(asset_names: Vec<&str>) -> Release {
    Release {
        assets: asset_names
            .into_iter()
            .map(|name| Asset {
                name: name.to_string(),
                browser_download_url: format!("https://example.com/{}", name),
            })
            .collect(),
    }
}

#[test]
fn test_find_networks_with_version() {
    let releases = vec![
        create_test_release(vec!["sui-testnet-v1.53.0-linux-x86_64.tgz"]),
        create_test_release(vec!["sui-devnet-v1.53.0-linux-x86_64.tgz"]),
        create_test_release(vec!["sui-testnet-v1.52.0-linux-x86_64.tgz"]),
        create_test_release(vec!["walrus-mainnet-v1.54.0-linux-x86_64.tgz"]),
    ];

    // Test finding version 1.53.0
    let networks = find_networks_with_version(&releases, "1.53.0");
    assert_eq!(networks.len(), 2);
    assert!(networks.contains(&"testnet".to_string()));
    assert!(networks.contains(&"devnet".to_string()));

    // Test finding version with 'v' prefix
    let networks = find_networks_with_version(&releases, "v1.53.0");
    assert_eq!(networks.len(), 2);
    assert!(networks.contains(&"testnet".to_string()));
    assert!(networks.contains(&"devnet".to_string()));

    // Test finding version that doesn't exist
    let networks = find_networks_with_version(&releases, "1.99.0");
    assert!(networks.is_empty());

    // Test finding version that exists only in one network
    let networks = find_networks_with_version(&releases, "1.52.0");
    assert_eq!(networks.len(), 1);
    assert!(networks.contains(&"testnet".to_string()));
}

#[test]
fn test_ensure_version_prefix() {
    assert_eq!(ensure_version_prefix("1.53.0"), "v1.53.0");
    assert_eq!(ensure_version_prefix("v1.53.0"), "v1.53.0");
    assert_eq!(ensure_version_prefix("0.1.2"), "v0.1.2");
    assert_eq!(ensure_version_prefix("v2.0.0"), "v2.0.0");
}

#[test]
fn networks_come_in_the_order_testnet_devnet_mainnet() {
    let releases = vec![
        create_test_release(vec!["sui-mainnet-v1.0.0.tgz", "sui-devnet-v1.0.0.tgz"]),
        create_test_release(vec!["sui-testnet-v1.0.0.tgz"]),
    ];
    assert_eq!(find_networks_with_version(&releases, "1.0.0"), vec!["testnet", "devnet", "mainnet"]);
}

#[test]
fn last_release_by_network_is_the_first_that_has_a_file_for_it() {
    let releases = vec![
        create_test_release(vec!["sui-devnet-v1.53.0.tgz"]),
        create_test_release(vec!["notes.txt", "sui-testnet-v1.52.0.tgz"]),
        create_test_release(vec!["sui-testnet-v1.51.0.tgz"]),
    ];
    let found = find_last_release_by_network(releases.clone(), "testnet").unwrap();
    assert_eq!(found.assets[1].name, "sui-testnet-v1.52.0.tgz");
    assert!(find_last_release_by_network(releases, "mainnet").is_none());
}

#[test]
fn versions_are_ordered_by_their_numbers() {
    assert!(version_precedes("1.9.0", "1.10.0"));
    assert!(!version_precedes("1.10.0", "1.9.0"));
    assert!(version_precedes("v1.9.0", "1.10.0"));
    assert!(version_precedes("1.2", "1.2.0"));
    assert!(version_precedes("1.2.3", "v1.2.3"));
    assert!(!version_precedes("v1.2.3", "v1.2.3"));
    assert!(version_precedes("nightly", "0.0.1"));
    assert!(!version_precedes("0.0.1", "nightly"));
    assert!(version_precedes("alpha", "beta"));
    assert!(version_precedes("v1.2.3-rc1", "0.0.1"));
}

#[test]
fn a_number_too_large_for_the_machine_makes_a_version_a_tag() {
    assert!(version_precedes("99999999999999999999.0.0", "0.0.1"));
    assert!(version_precedes("18446744073709551615.0.0", "18446744073709551615.0.1"));
}
