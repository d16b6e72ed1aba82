use ledger_installer::version::{resolve_installed_version, Model, Version};

#[test]
fn model_is_read_off_the_first_segment() {
    assert_eq!(
        Model::from_app_firmware("nanos+/1.1.0/bitcoin_testnet/app_2.2.0-beta"),
        Model::NanoSP
    );
    assert_eq!(Model::from_app_firmware("nanos/2.1.0/bitcoin/app_2.1.0"), Model::NanoS);
    assert_eq!(Model::from_app_firmware("nanox/2.0.2/bitcoin/app_2.1.0"), Model::NanoX);
    assert_eq!(Model::from_app_firmware("nanos"), Model::NanoS);
}

#[test]
fn unknown_vendor_gives_unknown_model() {
    assert_eq!(Model::from_app_firmware("unknownvendor/x"), Model::Unknown);
    assert_eq!(Model::from_app_firmware(""), Model::Unknown);
    assert_eq!(Model::from_app_firmware("/nanos"), Model::Unknown);
    assert_eq!(Model::from_app_firmware("NanoS/1"), Model::Unknown);
    assert_eq!(Model::from_app_firmware("nanos+x/1"), Model::Unknown);
}

#[test]
fn installed_version_is_the_last_segment_without_app_prefix() {
    assert_eq!(
        resolve_installed_version("nanos+/1.1.0/bitcoin_testnet/app_2.2.0-beta"),
        "2.2.0-beta"
    );
    assert_eq!(resolve_installed_version("nanos/2.1.0/bitcoin/2.1.0"), "2.1.0");
    assert_eq!(resolve_installed_version("app_1.0"), "1.0");
    assert_eq!(resolve_installed_version("plain"), "plain");
    assert_eq!(resolve_installed_version("a/b/"), "");
    assert_eq!(resolve_installed_version("a/app_"), "");
    assert_eq!(resolve_installed_version("a/app"), "app");
    assert_eq!(resolve_installed_version("a/xapp_1"), "xapp_1");
    assert_eq!(resolve_installed_version("a/app_\u{e9}t\u{e9}"), "\u{e9}t\u{e9}");
    assert_eq!(resolve_installed_version(""), "");
}

#[test]
fn model_names() {
    assert_eq!(Model::NanoS.to_string(), "Nano S");
    assert_eq!(Model::NanoSP.to_string(), "Nano S+");
    assert_eq!(Model::NanoX.to_string(), "Nano X");
    assert_eq!(Model::Unknown.to_string(), "");
}

#[test]
fn version_texts() {
    assert_eq!(Version::Installed("2.1.0".to_string()).to_string(), "2.1.0");
    assert_eq!(Version::Latest("2.2.0".to_string()).to_string(), "2.2.0");
    assert_eq!(Version::NotInstalled.to_string(), "Not installed!");
    assert_eq!(Version::Unknown.to_string(), " - ");
}

#[test]
fn versions_are_equal_when_their_texts_are() {
    let installed = Version::Installed("2.1.0".to_string());
    assert!(installed == Version::Latest("2.1.0".to_string()));
    assert!(installed != Version::Latest("2.2.0".to_string()));
    assert!(Version::Unknown != Version::NotInstalled);
    assert!(Version::Installed("Not installed!".to_string()) == Version::NotInstalled);
    assert!(Version::Latest(" - ".to_string()) == Version::Unknown);
    assert!(installed == installed.clone());
}

#[test]
fn only_unknown_is_none() {
    assert!(Version::Unknown.is_none());
    assert!(!Version::Unknown.is_some());
    assert!(Version::NotInstalled.is_some());
    assert!(!Version::NotInstalled.is_none());
    assert!(Version::Installed(String::new()).is_some());
    assert!(Version::Latest("1".to_string()).is_some());
}
