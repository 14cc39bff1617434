use std::collections::hash_map::DefaultHasher;
use std::hash::{Hash, Hasher};

use latite_launcher::app_state::AppState;
use latite_launcher::inject::{is_target_process, PackageVersion};
use latite_launcher::latite_dll::LatiteDllMetadata;
use latite_launcher::launch_request::BuildKind;
use latite_launcher::launcher::{
    begin_injection, finish_injection,
    check_custom_dll_path, check_file_version, check_minecraft_version, check_package_lookup, check_package_version, check_parsed_dll_url,
    classify_dll_error, custom_dll_download_id, custom_dll_file_name, dll_preparation_failure, format_package_version,
    format_supported_versions, is_custom_dll_url, missing_build_files_message,
    mutable_build_outcome, release_download_outcome, release_needs_download, remaining_wait, resolve_latite_build,
    validate_custom_dll_url, version_check_failure, FileVersionCheck, LaunchError,
};
use latite_launcher::version_info::FileVersionError;
use latite_launcher::logging::{
    archive_log_file_name, archive_needs_rotation, build_entry, log, log_startup_error,
    logging_initialized_message, LogLevel,
};
use latite_launcher::options::OptionsStore;

#[test]
fn log_entries_per_line() {
    assert_eq!(LogLevel::Info.label(), "INFO");
    assert_eq!(build_entry(LogLevel::Error, "T", "m"), "T [ERROR] m\n");
    assert_eq!(
        log(LogLevel::Info, "T", "a\r\nb\n"),
        vec!["T [INFO] a\n".to_string(), "T [INFO] b\n".to_string()]
    );
    assert_eq!(log(LogLevel::Info, "T", ""), vec!["T [INFO] \n".to_string()]);
    assert_eq!(
        log(LogLevel::Error, "T", "x\n\ny\r"),
        vec!["T [ERROR] x\n".to_string(), "T [ERROR] \n".to_string(), "T [ERROR] y\r\n".to_string()]
    );
    assert_eq!(log_startup_error("T", "oops"), "T [ERROR] oops\n");
    assert_eq!(archive_log_file_name("2024-01-02"), "LatiteLauncher-2024-01-02.log");
    assert_eq!(
        logging_initialized_message("L\\latest.log", "L\\a.log"),
        "Launcher logging initialized. Writing to L\\latest.log and L\\a.log."
    );
    assert!(archive_needs_rotation("2024-01-03", "2024-01-02"));
    assert!(!archive_needs_rotation("2024-01-02", "2024-01-02"));
}

#[test]
fn launch_errors() {
    let error = LaunchError::new("bad".to_string());
    assert!(!error.dialog_already_shown());
    let shown = error.mark_dialog_shown();
    assert!(shown.dialog_already_shown());
    assert_eq!(shown.message(), "bad");
    assert_eq!(shown.into_message(), "bad");
    let failure = version_check_failure("no access".to_string());
    assert_eq!(failure.status_key, "launcher.status.verifyFailed.name");
    assert_eq!(failure.dialog.key, "launcher.error.minecraftVersionCheckFailed.name");
    let error = failure.into_error();
    assert!(error.dialog_already_shown());
    assert_eq!(error.message(), "no access");
}

#[test]
fn supported_version_list_text() {
    assert_eq!(format_supported_versions(&[]), "none reported");
    assert_eq!(
        format_supported_versions(&["1.21.1".to_string(), "1.21.2".to_string()]),
        "1.21.1, 1.21.2"
    );
}

#[test]
fn custom_dll_addresses() {
    assert!(is_custom_dll_url("https://x/y.dll"));
    assert!(is_custom_dll_url("http://x"));
    assert!(!is_custom_dll_url("C:\\x.dll"));
    assert!(!is_custom_dll_url("HTTP://x"));
    assert_eq!(validate_custom_dll_url("https://example.com/a.dll"), Ok(()));
    assert_eq!(validate_custom_dll_url("HTTPS://example.com/a.dll"), Ok(()));
    assert_eq!(
        validate_custom_dll_url("ftp://example.com/a.dll"),
        Err("Custom DLL URLs must use http or https.".to_string())
    );
    assert_eq!(
        validate_custom_dll_url("not a url"),
        Err("Invalid DLL URL: relative URL without a base".to_string())
    );
    assert_eq!(check_parsed_dll_url(Ok("http".to_string())), Ok(()));
    assert_eq!(
        check_parsed_dll_url(Err("e".to_string())),
        Err("Invalid DLL URL: e".to_string())
    );
    assert_eq!(custom_dll_file_name(255), "custom-00000000000000ff.dll");
    assert_eq!(custom_dll_file_name(u64::MAX), "custom-ffffffffffffffff.dll");
}

#[test]
fn dll_preparation_errors() {
    assert_eq!(
        classify_dll_error("The selected DLL does not exist: x"),
        "launcher.status.invalidDllPath.name"
    );
    assert_eq!(classify_dll_error("network down"), "launcher.status.preparingDll.name");
    let failure = dll_preparation_failure("The selected file is not a DLL: a".to_string());
    assert_eq!(failure.status_key, "launcher.status.invalidDllPath.name");
    assert_eq!(failure.dialog.key, "launcher.error.prepareDll.name");
    assert_eq!(failure.dialog.args, vec!["The selected file is not a DLL: a".to_string()]);
    assert_eq!(
        missing_build_files_message(BuildKind::Debug),
        "Latite Debug files are missing and could not be downloaded."
    );
}

#[test]
fn custom_dll_path_checks() {
    assert_eq!(
        check_custom_dll_path("p", false, false, None),
        Err("The selected DLL does not exist: p".to_string())
    );
    assert_eq!(
        check_custom_dll_path("p", true, false, Some("dll")),
        Err("The selected path is not a file: p".to_string())
    );
    assert_eq!(
        check_custom_dll_path("p", true, true, Some("exe")),
        Err("The selected file is not a DLL: p".to_string())
    );
    assert_eq!(check_custom_dll_path("p", true, true, Some("DlL")), Ok(()));
}

#[test]
fn release_download_decision() {
    assert!(release_needs_download(false, Some("1.0"), None, None));
    assert!(release_needs_download(true, None, Some("1.0"), None));
    assert!(!release_needs_download(true, Some("1.0"), None, None));
    assert!(!release_needs_download(true, Some("v1.0"), None, Some("1.0")));
    assert!(release_needs_download(true, Some("1.0"), None, Some("1.1")));
    assert!(!release_needs_download(true, Some("1.0"), Some("0.9"), Some("1.0")));
    assert!(release_needs_download(true, None, Some("1.0"), Some("1.0")));
    assert_eq!(mutable_build_outcome(Err("e".to_string()), true), Ok(()));
    assert_eq!(mutable_build_outcome(Err("e".to_string()), false), Err("e".to_string()));
    assert_eq!(mutable_build_outcome(Ok(()), false), Ok(()));
    assert_eq!(release_download_outcome(Err("offline".to_string()), true, true), Ok(()));
    assert_eq!(
        release_download_outcome(Err("offline".to_string()), true, false),
        Err("offline".to_string())
    );
    assert_eq!(
        release_download_outcome(Err("offline".to_string()), false, true),
        Err("offline".to_string())
    );
    assert_eq!(release_download_outcome(Ok(()), false, false), Ok(()));
}

#[test]
fn build_resolution_and_waiting() {
    let mut state = AppState::new(OptionsStore::default());
    assert_eq!(resolve_latite_build(&state, Some(BuildKind::Debug)), BuildKind::Debug);
    assert_eq!(resolve_latite_build(&state, None), BuildKind::Release);
    state.update_latite_build(BuildKind::Nightly);
    assert_eq!(resolve_latite_build(&state, None), BuildKind::Nightly);
    assert_eq!(remaining_wait(2, 5), 3);
    assert_eq!(remaining_wait(7, 5), 0);
}

fn metadata() -> LatiteDllMetadata {
    LatiteDllMetadata::new("2.5.0".to_string(), vec!["1.21.1x".to_string(), "1.21.2".to_string()])
}

#[test]
fn minecraft_version_checks() {
    let metadata = metadata();
    assert!(check_minecraft_version(&metadata, "1.21.13").is_ok());
    let failure = check_minecraft_version(&metadata, "1.20.0").unwrap_err();
    assert_eq!(failure.status_key, "launcher.status.unsupportedMinecraft.name");
    assert_eq!(
        failure.dialog.args,
        vec!["1.20.0".to_string(), "2.5.0".to_string(), "1.21.1x, 1.21.2".to_string()]
    );
    assert_eq!(
        failure.message,
        "Latite DLL version 2.5.0 does not support Minecraft version 1.20.0. Supported Minecraft versions: 1.21.1x, 1.21.2"
    );
}

#[test]
fn package_version_checks() {
    let metadata = metadata();
    let found = PackageVersion { major: 1, minor: 21, build: 12004, revision: 0 };
    assert_eq!(check_package_version(&metadata, found).ok(), Some("1.21.1x".to_string()));
    let missing = PackageVersion { major: 1, minor: 21, build: 3004, revision: 7 };
    assert_eq!(format_package_version(missing), "1.21.3004.7");
    let failure = check_package_version(&metadata, missing).unwrap_err();
    assert_eq!(
        failure.message,
        "Latite DLL version 2.5.0 does not support Minecraft package version 1.21.3004.7. Supported Minecraft versions: 1.21.1x, 1.21.2"
    );
    assert_eq!(failure.dialog.args[0], "1.21.3004.7");
}

#[test]
fn target_process_detection() {
    assert!(is_target_process("minecraft.windows.exe", "Minecraft.Windows.exe", 4));
    assert!(!is_target_process("Minecraft.Windows.exe", "Minecraft.Windows.exe", 1));
    assert!(!is_target_process("other.exe", "Minecraft.Windows.exe", 9));
}

#[test]
fn file_version_check_steps() {
    let metadata = metadata();
    assert!(matches!(
        check_file_version(&metadata, Ok("1.21.2".to_string())),
        FileVersionCheck::Supported
    ));
    match check_file_version(&metadata, Ok("1.19.0".to_string())) {
        FileVersionCheck::Failed(failure) => {
            assert_eq!(failure.status_key, "launcher.status.unsupportedMinecraft.name");
            assert_eq!(
                failure.message,
                "Latite DLL version 2.5.0 does not support Minecraft version 1.19.0. Supported Minecraft versions: 1.21.1x, 1.21.2"
            );
        }
        _ => panic!("an unsupported version fails the check"),
    }
    assert!(matches!(
        check_file_version(
            &metadata,
            Err(FileVersionError::MissingVersionInfo { path: "C:\\mc.exe".to_string() })
        ),
        FileVersionCheck::NeedsPackageVersion
    ));
    match check_file_version(&metadata, Err(FileVersionError::Other("denied".to_string()))) {
        FileVersionCheck::Failed(failure) => {
            assert_eq!(failure.status_key, "launcher.status.verifyFailed.name");
            assert_eq!(failure.dialog.key, "launcher.error.minecraftVersionCheckFailed.name");
            assert_eq!(failure.dialog.args, vec!["denied".to_string()]);
            assert_eq!(failure.message, "denied");
        }
        _ => panic!("an unreadable version fails the check"),
    }
}

#[test]
fn package_lookup_steps() {
    let metadata = metadata();
    let found = PackageVersion { major: 1, minor: 21, build: 2000, revision: 3 };
    assert_eq!(
        check_package_lookup(&metadata, Ok(Some(found))).ok(),
        Some(Some("1.21.2".to_string()))
    );
    let missing = PackageVersion { major: 1, minor: 22, build: 0, revision: 0 };
    let failure = check_package_lookup(&metadata, Ok(Some(missing))).unwrap_err();
    assert_eq!(
        failure.message,
        "Latite DLL version 2.5.0 does not support Minecraft package version 1.22.0.0. Supported Minecraft versions: 1.21.1x, 1.21.2"
    );
    assert_eq!(check_package_lookup(&metadata, Ok(None)).ok(), Some(None));
    assert_eq!(check_package_lookup(&metadata, Err("no access".to_string())).ok(), Some(None));
}

#[test]
fn custom_dll_cache_key_is_the_std_hash_of_the_url() {
    for url in ["https://example.com/Custom.dll", "", "http://a/\u{e9}.dll"] {
        let mut hasher = DefaultHasher::new();
        url.hash(&mut hasher);
        assert_eq!(custom_dll_download_id(url), hasher.finish());
    }
    assert_ne!(
        custom_dll_download_id("https://example.com/a.dll"),
        custom_dll_download_id("https://example.com/b.dll")
    );
}

#[test]
fn inject_errors_are_shown_and_release_the_guard() {
    let mut state = AppState::new(OptionsStore::default());
    let guard = begin_injection(&mut state).ok().expect("first injection begins");
    match begin_injection(&mut state) {
        Err((dialog, error)) => {
            assert_eq!(dialog.key, "launcher.error.injectionInProgress.name");
            assert!(dialog.args.is_empty());
            assert!(error.dialog_already_shown());
            assert_eq!(
                error.message(),
                "Injection is already in progress. Please wait until Status: Idle"
            );
        }
        Ok(_) => panic!("a second injection is refused"),
    }
    let failure = version_check_failure("no access".to_string());
    let error = finish_injection(&mut state, guard, Err(failure)).unwrap_err();
    assert!(error.dialog_already_shown());
    assert_eq!(error.message(), "no access");
    assert!(!state.is_injecting());

    let guard = begin_injection(&mut state).ok().expect("the guard was released");
    assert!(finish_injection(&mut state, guard, Ok(())).is_ok());
    assert!(!state.is_injecting());
}
