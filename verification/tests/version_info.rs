use latite_launcher::version_info::{
    format_file_version, hiword, loword, match_supported_package_version, FileVersionError,
};

#[test]
fn package_build_matches_supported_patch_prefix() {
    let supported_versions = vec![
        "1.21.12".to_string(),
        "1.26.21".to_string(),
        "1.26.20".to_string(),
    ];

    assert_eq!(
        match_supported_package_version(1, 21, 12004, &supported_versions),
        Some("1.21.12")
    );
    assert_eq!(
        match_supported_package_version(1, 26, 2101, &supported_versions),
        Some("1.26.21")
    );
}

#[test]
fn package_build_prefers_the_most_specific_supported_patch() {
    let supported_versions = vec!["1.21.1".to_string(), "1.21.12".to_string()];

    assert_eq!(
        match_supported_package_version(1, 21, 12004, &supported_versions),
        Some("1.21.12")
    );
}

#[test]
fn package_build_rejects_non_matching_major_minor_or_patch() {
    let supported_versions = vec!["1.21.12".to_string()];

    assert_eq!(
        match_supported_package_version(1, 20, 12004, &supported_versions),
        None
    );
    assert_eq!(
        match_supported_package_version(1, 21, 13004, &supported_versions),
        None
    );
}

#[test]
fn wildcard_patch_matches_any_digit() {
    let supported = vec!["1.21.1x".to_string()];
    assert_eq!(match_supported_package_version(1, 21, 12004, &supported), Some("1.21.1x"));
    assert_eq!(match_supported_package_version(1, 21, 1, &supported), None);
}

#[test]
fn concrete_patch_beats_wildcard_of_same_length() {
    let supported = vec!["1.21.12".to_string(), "1.21.1X".to_string()];
    assert_eq!(match_supported_package_version(1, 21, 12004, &supported), Some("1.21.12"));
}

#[test]
fn equally_specific_patches_prefer_the_last() {
    let supported = vec!["v1.21.12".to_string(), " 1.21.12 ".to_string()];
    assert_eq!(match_supported_package_version(1, 21, 12004, &supported), Some(" 1.21.12 "));
}

#[test]
fn unparsable_versions_are_skipped() {
    let supported = vec![
        "1.21".to_string(),
        "1.21.12.0".to_string(),
        "1.21.".to_string(),
        "a.21.12".to_string(),
        "70000.21.12".to_string(),
        "1.21.1y".to_string(),
        "+1.21.1".to_string(),
    ];
    assert_eq!(match_supported_package_version(1, 21, 12004, &supported), Some("+1.21.1"));
    assert_eq!(match_supported_package_version(1, 21, 12004, &supported[..6]), None);
}

#[test]
fn words_of_a_file_version() {
    assert_eq!(hiword(0x0001_0015), 1);
    assert_eq!(loword(0x0001_0015), 21);
    assert_eq!(hiword(0xFFFF_0000), 0xFFFF);
    assert_eq!(loword(0x1234_ABCD), 0xABCD);
}

#[test]
fn file_version_text() {
    assert_eq!(format_file_version(0x0001_0015, 0x2EE4_0003), "1.21.12004");
    assert_eq!(format_file_version(0, 0), "0.0.0");
}

#[test]
fn file_version_error_kinds_and_messages() {
    let missing = FileVersionError::MissingVersionInfo { path: "C:\\game.exe".to_string() };
    assert!(missing.is_missing_version_info());
    assert_eq!(
        missing.message(),
        "No file version information is available for C:\\game.exe."
    );
    let other = FileVersionError::Other("boom".to_string());
    assert!(!other.is_missing_version_info());
    assert_eq!(other.message(), "boom");
}
