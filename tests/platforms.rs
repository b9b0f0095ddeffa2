use xbase::platform::Platform;

#[test]
fn platform_names_round_trip() {
    for p in [Platform::IOS, Platform::WatchOS, Platform::TvOS, Platform::MacOS] {
        assert_eq!(Platform::from_str(&p.to_string()), Ok(p));
    }
    assert_eq!(Platform::Unknown.to_string(), "");
    assert_eq!(Platform::from_str("ios"), Ok(Platform::Unknown));
}

#[test]
fn sdk_names() {
    assert_eq!(Platform::from_sdk_root("iphoneos"), Platform::IOS);
    assert_eq!(Platform::from_sdk_root("macosx"), Platform::MacOS);
    assert_eq!(Platform::from_sdk_root("appletvos"), Platform::TvOS);
    assert_eq!(Platform::from_sdk_root("watchos"), Platform::WatchOS);
    assert_eq!(Platform::from_sdk_root("iphonesimulator"), Platform::Unknown);
    assert_eq!(Platform::from_sdk_root("iPhoneOS"), Platform::IOS);
    assert_eq!(Platform::from_sdk_root("MacOSX"), Platform::MacOS);
    assert_eq!(Platform::from_sdk_root("AppleTVOS"), Platform::TvOS);
    assert_eq!(Platform::from_sdk_root("WATCHOS"), Platform::WatchOS);
}

#[test]
fn runtime_identifiers() {
    assert_eq!(
        Platform::from_identifer("com.apple.CoreSimulator.SimRuntime.iOS-15-5"),
        Platform::IOS
    );
    assert_eq!(
        Platform::from_identifer("com.apple.CoreSimulator.SimRuntime.watchOS-8-0"),
        Platform::WatchOS
    );
    assert_eq!(Platform::from_identifer("tvOS"), Platform::TvOS);
    assert_eq!(Platform::from_identifer("com.apple.other.iOS-15"), Platform::Unknown);
}

#[test]
fn display_names() {
    assert_eq!(Platform::get_from_settings("iOS Simulator"), Ok(Platform::IOS));
    assert_eq!(Platform::get_from_settings("macOS"), Ok(Platform::MacOS));
    assert_eq!(Platform::get_from_settings("tvOS Simulator"), Ok(Platform::TvOS));
    assert_eq!(Platform::get_from_settings("Linux"), Ok(Platform::Unknown));
}

#[test]
fn platform_predicates() {
    assert!(Platform::IOS.is_ios());
    assert!(!Platform::IOS.is_mac_os());
    assert!(Platform::WatchOS.is_watch_os());
    assert!(Platform::TvOS.is_tv_os());
    assert!(Platform::MacOS.is_mac_os());
    assert_eq!(Platform::default(), Platform::Unknown);
}
