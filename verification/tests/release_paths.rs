use latite_launcher::build_download::{BuildDownload, DownloadStep};
use latite_launcher::launch_request::BuildKind;
use latite_launcher::paths::{
    build_directory_name, get_dlls_path, get_latite_build_path, get_logs_path, get_options_path,
    join_path, launcher_path_in,
};
use latite_launcher::release::{
    build_assets, build_display_name, has_required_assets, latest_release_url, latite_dll_file_name,
    missing_after_download_message, temporary_download_path,
};

#[test]
fn build_names_and_assets() {
    assert_eq!(build_display_name(BuildKind::Nightly), "Latite Nightly");
    assert_eq!(latite_dll_file_name(BuildKind::Debug), "LatiteDebug.dll");
    let debug = build_assets(BuildKind::Debug);
    assert_eq!(debug.len(), 2);
    assert_eq!(debug[1].file_name, "LatiteDebug.pdb");
    for build in [BuildKind::Release, BuildKind::Nightly, BuildKind::Debug] {
        assert_eq!(build_assets(build)[0].file_name, latite_dll_file_name(build));
    }
    assert_eq!(
        build_assets(BuildKind::Release)[0].url,
        "https://github.com/Imrglop/Latite-Releases/releases/latest/download/Latite.dll"
    );
}

#[test]
fn required_assets_present() {
    assert!(has_required_assets(BuildKind::Release, &[true]));
    assert!(!has_required_assets(BuildKind::Release, &[false]));
    assert!(!has_required_assets(BuildKind::Debug, &[true]));
    assert!(has_required_assets(BuildKind::Debug, &[true, true]));
    assert!(!has_required_assets(BuildKind::Debug, &[true, false]));
}

#[test]
fn download_names_and_messages() {
    assert_eq!(temporary_download_path(Some("Latite.dll")), "Latite.dll.download");
    assert_eq!(temporary_download_path(None), "download.download");
    assert_eq!(
        latest_release_url("LatiteClient/Launcher"),
        "https://api.github.com/repos/LatiteClient/Launcher/releases/latest"
    );
    assert_eq!(
        missing_after_download_message(BuildKind::Release),
        "Latite Release files are missing after download."
    );
}

#[test]
fn launcher_paths() {
    assert_eq!(join_path("C:\\a", "b"), "C:\\a\\b");
    assert_eq!(join_path("C:\\a\\", "b"), "C:\\a\\b");
    assert_eq!(join_path("", "b"), "b");
    assert_eq!(join_path("C:", "Latite"), "C:Latite");
    assert_eq!(join_path("d:", "Latite"), "d:Latite");
    assert_eq!(join_path("1:", "Latite"), "1:\\Latite");
    assert_eq!(join_path("C:/", "Latite"), "C:/Latite");
    let launcher = launcher_path_in("C:\\Users\\me\\AppData\\Local");
    assert_eq!(launcher, "C:\\Users\\me\\AppData\\Local\\Latite\\Launcher");
    assert_eq!(get_dlls_path(&launcher), format!("{launcher}\\DLLs"));
    assert_eq!(get_logs_path(&launcher), format!("{launcher}\\Logs"));
    assert_eq!(get_options_path(&launcher), format!("{launcher}\\options.json"));
    assert_eq!(
        get_latite_build_path(&launcher, BuildKind::Nightly),
        format!("{launcher}\\DLLs\\nightly")
    );
    assert_eq!(build_directory_name(BuildKind::Release), "release");
}

#[test]
fn build_download_succeeds_in_order() {
    let mut download = BuildDownload::new(BuildKind::Debug);
    assert!(matches!(download.step(), DownloadStep::Download(0)));
    download.record_replace(Ok(()));
    assert!(matches!(download.step(), DownloadStep::Download(0)));
    download.record_download(Ok(()));
    assert!(matches!(download.step(), DownloadStep::Download(1)));
    download.record_download(Ok(()));
    assert!(matches!(download.step(), DownloadStep::Replace(0)));
    download.record_replace(Ok(()));
    assert!(matches!(download.step(), DownloadStep::Replace(1)));
    download.record_replace(Ok(()));
    assert!(matches!(download.step(), DownloadStep::Verify));
    download.record_verification(true);
    assert!(matches!(download.step(), DownloadStep::Finish));
}

#[test]
fn build_download_cleans_up_after_failures() {
    let mut download = BuildDownload::new(BuildKind::Debug);
    download.record_download(Ok(()));
    download.record_download(Err("Failed to download LatiteDebug.pdb: 404".to_string()));
    assert!(matches!(download.step(), DownloadStep::RemoveTemporaries(2)));
    download.record_cleanup();
    match download.step() {
        DownloadStep::Fail(error) => assert_eq!(error, "Failed to download LatiteDebug.pdb: 404"),
        _ => panic!("the download fails after the clean-up"),
    }

    let mut download = BuildDownload::new(BuildKind::Release);
    download.record_download(Err("offline".to_string()));
    assert!(matches!(download.step(), DownloadStep::RemoveTemporaries(1)));

    let mut download = BuildDownload::new(BuildKind::Nightly);
    download.record_download(Ok(()));
    download.record_replace(Err("locked".to_string()));
    assert!(matches!(download.step(), DownloadStep::RemoveTemporaries(1)));

    let mut download = BuildDownload::new(BuildKind::Nightly);
    download.record_download(Ok(()));
    download.record_replace(Ok(()));
    download.record_verification(false);
    match download.step() {
        DownloadStep::Fail(error) => {
            assert_eq!(error, "Latite Nightly files are missing after download.")
        }
        _ => panic!("missing files fail the download"),
    }
}
