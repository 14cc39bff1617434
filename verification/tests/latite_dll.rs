use latite_launcher::latite_dll::{
    check_exported_string, check_supported_count, indexed_export_error, missing_export_message, supported_version_matches,
    versions_equivalent, LatiteDllMetadata,
};

#[test]
fn equivalent_versions_ignore_prefix_whitespace_and_case() {
    assert!(versions_equivalent(" v1.21.0 ", "1.21.0"));
    assert!(versions_equivalent("V 1.2.3-Beta", "1.2.3-beta"));
    assert!(!versions_equivalent("1.21.0", "1.21.1"));
    assert!(!versions_equivalent("1.21", "1.21.0"));
}

#[test]
fn equivalence_is_reflexive_symmetric_transitive() {
    let versions = ["1.0.0", "v1.0.0", "V1.0.0 ", "1.0.1", "2.0"];
    for a in versions {
        assert!(versions_equivalent(a, a));
        for b in versions {
            assert_eq!(versions_equivalent(a, b), versions_equivalent(b, a));
            for c in versions {
                if versions_equivalent(a, b) && versions_equivalent(b, c) {
                    assert!(versions_equivalent(a, c));
                }
            }
        }
    }
}

#[test]
fn pattern_wildcards_match_digits_of_same_length() {
    assert!(supported_version_matches("1.21.x", "1.21.5"));
    assert!(supported_version_matches("v1.21.X", " 1.21.7"));
    assert!(!supported_version_matches("1.21.x", "1.21.50"));
    assert!(!supported_version_matches("1.21.x", "1.21.a"));
    assert!(supported_version_matches("1.21.A", "1.21.a"));
}

#[test]
fn pattern_without_wildcards_matches_equivalent_versions() {
    for (p, v) in [("1.21.0", "v1.21.0"), ("1.21.0", "1.21.1"), ("1.B", "1.b")] {
        assert_eq!(supported_version_matches(p, v), versions_equivalent(p, v));
    }
}

#[test]
fn metadata_reports_its_versions() {
    let metadata = LatiteDllMetadata::new(
        "2.5.0".to_string(),
        vec!["1.21.1x".to_string(), "1.20.81".to_string()],
    );
    assert_eq!(metadata.version(), "2.5.0");
    assert_eq!(metadata.supported_minecraft_versions().len(), 2);
    assert!(metadata.supports_minecraft_version("1.21.12"));
    assert!(metadata.supports_minecraft_version("1.20.81"));
    assert!(!metadata.supports_minecraft_version("1.20.80"));
}

#[test]
fn exported_strings_are_checked() {
    assert_eq!(
        check_exported_string(None, "LatiteGetDllVersion"),
        Err("LatiteGetDllVersion returned a null string pointer.".to_string())
    );
    assert_eq!(
        check_exported_string(Some(" \t ".to_string()), "LatiteGetDllVersion"),
        Err("LatiteGetDllVersion returned an empty string.".to_string())
    );
    assert_eq!(
        check_exported_string(Some(" 1.0 ".to_string()), "LatiteGetDllVersion"),
        Ok(" 1.0 ".to_string())
    );
}

#[test]
fn supported_count_limit() {
    assert_eq!(check_supported_count(512), Ok(()));
    assert_eq!(
        check_supported_count(513),
        Err("LatiteGetSupportedMinecraftVersionCount returned 513, which is larger than the supported limit of 512.".to_string())
    );
    assert_eq!(indexed_export_error("bad".to_string(), 7), "bad at index 7");
    assert_eq!(
        missing_export_message("LatiteGetDllVersion"),
        "DLL does not export required function LatiteGetDllVersion."
    );
}
