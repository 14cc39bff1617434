//! The decisions of a launch: which DLL to use, whether to download it,
//! whether the running Minecraft is supported, and what a failure shows.
use vstd::prelude::*;
use vstd::utf8::encode_utf8;
use vstd::std_specs::hash::DefaultHasherAdditionalSpecFns;
use std::collections::hash_map::DefaultHasher;
use std::hash::Hasher;

use crate::app_state::{
    injection_in_progress_message, spec_end_injection, spec_try_begin_injection, AppState,
    InjectionGuard,
};
use crate::inject::PackageVersion;
use crate::latite_dll::{spec_supported_version_matches, spec_versions_equivalent, versions_equivalent, LatiteDllMetadata};
use crate::launch_request::BuildKind;
use crate::release::{build_display_name, spec_build_display_name};
use crate::text::{
    bytes_eq_ignore_ascii_case, chars_of, contains, decimal, decimal_chars, hex_fixed,
    hex_fixed_chars, hex, hex_chars, decimal_string, join, join_strings, starts_with, str_contains, str_eq_ignore_ascii_case,
    str_equal, str_starts_with, string_from_chars, string_views, append_chars,
};
use crate::ui::UiDialog;
use crate::version_info::{
    file_version_error_message, match_supported_package_version, most_specific_match,
    FileVersionError,
};

verus! {

/// Why a launch failed, and whether the user has been shown a dialog for
/// it already.
pub struct LaunchError {
    message: String,
    dialog_already_shown: bool,
}

impl View for LaunchError {
    type V = (Seq<char>, bool);

    closed spec fn view(&self) -> (Seq<char>, bool) {
        (self.message@, self.dialog_already_shown)
    }
}

impl LaunchError {
    pub fn new(message: String) -> (r: Self)
        ensures
            r@ == (message@, false),
    {
        LaunchError { message, dialog_already_shown: false }
    }

    pub fn mark_dialog_shown(self) -> (r: Self)
        ensures
            r@ == (self@.0, true),
    {
        LaunchError { message: self.message, dialog_already_shown: true }
    }

    pub fn message(&self) -> (r: &str)
        ensures
            r@ == self@.0,
    {
        self.message.as_str()
    }

    pub fn dialog_already_shown(&self) -> (r: bool)
        ensures
            r == self@.1,
    {
        self.dialog_already_shown
    }

    pub fn into_message(self) -> (r: String)
        ensures
            r@ == self@.0,
    {
        self.message
    }
}

/// A failure to report: the status line to show, the dialog, and the
/// message to log and hand back.
pub struct FailureReport {
    pub status_key: String,
    pub dialog: UiDialog,
    pub message: String,
}

impl FailureReport {
    /// The error that the launch ends with once the failure was shown.
    pub fn into_error(self) -> (r: LaunchError)
        ensures
            r@ == (self.message@, true),
    {
        LaunchError::new(self.message).mark_dialog_shown()
    }
}

/// Begins an injection. A second injection while one is under way is
/// refused with the dialog to show and an error already marked as shown
/// (no status line goes with it).
pub fn begin_injection(state: &mut AppState) -> (r: Result<InjectionGuard, (UiDialog, LaunchError)>)
    ensures
        final(state)@ == spec_try_begin_injection(old(state)@).0,
        r is Ok == spec_try_begin_injection(old(state)@).1,
        r matches Ok(g) ==> g.issued_by(final(state)@),
        r matches Err((dialog, error)) ==> {
            &&& dialog.level == crate::ui::UiDialogLevel::Error
            &&& dialog.key@ == "launcher.error.injectionInProgress.name"@
            &&& dialog.args@.len() == 0
            &&& error@ == (injection_in_progress_message(), true)
        },
{
    match state.try_begin_injection() {
        Ok(guard) => Ok(guard),
        Err(message) => Err(
            (
                UiDialog::error("launcher.error.injectionInProgress.name"),
                LaunchError::new(message).mark_dialog_shown(),
            ),
        ),
    }
}

/// Ends the injection that `guard` began with the outcome of its steps,
/// where a failure is the report that has been shown to the user. Whatever
/// the outcome, the injection is over and the next one can begin, and an
/// error handed back is marked as already shown, so the caller never shows
/// a second dialog for it.
pub fn finish_injection(
    state: &mut AppState,
    guard: InjectionGuard,
    outcome: Result<(), FailureReport>,
) -> (r: Result<(), LaunchError>)
    requires
        guard.issued_by(old(state)@),
    ensures
        final(state)@ == spec_end_injection(old(state)@),
        spec_try_begin_injection(final(state)@).1,
        match outcome {
            Ok(()) => r is Ok,
            Err(failure) => r matches Err(e) && e@ == (failure.message@, true),
        },
        r matches Err(e) ==> e@.1,
{
    state.end_injection(guard);
    match outcome {
        Ok(()) => Ok(()),
        Err(failure) => Err(failure.into_error()),
    }
}

/// The supported versions as shown to the user.
pub open spec fn spec_supported_versions_text(versions: Seq<Seq<char>>) -> Seq<char> {
    if versions.len() == 0 {
        "none reported"@
    } else {
        join(versions, ", "@)
    }
}

/// The supported versions joined with commas, or `none reported`.
pub fn format_supported_versions(versions: &[String]) -> (r: String)
    ensures
        r@ == spec_supported_versions_text(string_views(versions@)),
{
    if versions.len() == 0 {
        String::from_str("none reported")
    } else {
        join_strings(versions, ", ")
    }
}

/// The build that was asked for, else the configured one.
pub fn resolve_latite_build(state: &AppState, requested_build: Option<BuildKind>) -> (r: BuildKind)
    ensures
        r == match requested_build {
            Some(build) => build,
            None => state@.options.latite_build,
        },
{
    match requested_build {
        Some(build) => build,
        None => state.get_latite_build(),
    }
}

/// A custom DLL given as an `http://` or `https://` address.
pub fn is_custom_dll_url(value: &str) -> (r: bool)
    ensures
        r == (starts_with(value@, "http://"@) || starts_with(value@, "https://"@)),
{
    str_starts_with(value, "http://") || str_starts_with(value, "https://")
}

/// What parsing a text as a URL gives: the URL's scheme, or the parse
/// error's message.
pub uninterp spec fn url_parse_scheme(url: Seq<char>) -> Result<Seq<char>, Seq<char>>;

/// The views of a result of two strings.
pub open spec fn result_views(r: Result<String, String>) -> Result<Seq<char>, Seq<char>> {
    match r {
        Ok(s) => Ok(s@),
        Err(e) => Err(e@),
    }
}

/// Calls `reqwest::Url::parse` (the `url` crate's URL parser) and keeps
/// `Url::scheme` of the parsed URL, or the parse error's message. Trusted:
/// the outcome depends on the text alone, and `url_parse_scheme` names it.
#[verifier::external_body]
fn parse_url_scheme(url: &str) -> (r: Result<String, String>)
    ensures
        result_views(r) == url_parse_scheme(url@),
{
    match reqwest::Url::parse(url) {
        Ok(parsed) => Ok(parsed.scheme().to_string()),
        Err(error) => Err(error.to_string()),
    }
}

/// A parsed custom DLL address is accepted when its scheme is `http` or
/// `https`; a parse error is reported with its message.
pub open spec fn spec_check_parsed_dll_url(parsed: Result<Seq<char>, Seq<char>>) -> Result<(), Seq<char>> {
    match parsed {
        Err(error) => Err("Invalid DLL URL: "@ + error),
        Ok(scheme) => if scheme == "http"@ || scheme == "https"@ {
            Ok(())
        } else {
            Err("Custom DLL URLs must use http or https."@)
        },
    }
}

pub open spec fn unit_result_views(r: Result<(), String>) -> Result<(), Seq<char>> {
    match r {
        Ok(()) => Ok(()),
        Err(e) => Err(e@),
    }
}

/// Decides on a custom DLL address from what parsing it gave: its scheme,
/// or the parse error's message.
pub fn check_parsed_dll_url(parsed: Result<String, String>) -> (r: Result<(), String>)
    ensures
        unit_result_views(r) == spec_check_parsed_dll_url(result_views(parsed)),
{
    match parsed {
        Err(error) => {
            let mut message = String::from_str("Invalid DLL URL: ");
            message.append(error.as_str());
            Err(message)
        },
        Ok(scheme) => {
            if str_equal(scheme.as_str(), "http") || str_equal(scheme.as_str(), "https") {
                Ok(())
            } else {
                Err(String::from_str("Custom DLL URLs must use http or https."))
            }
        },
    }
}

/// A custom DLL address must parse as a URL with the `http` or `https`
/// scheme.
pub fn validate_custom_dll_url(url: &str) -> (r: Result<(), String>)
    ensures
        unit_result_views(r) == spec_check_parsed_dll_url(url_parse_scheme(url@)),
{
    check_parsed_dll_url(parse_url_scheme(url))
}

/// The status line for an error while preparing the DLL: an unusable path
/// has its own.
pub open spec fn spec_dll_error_status(error: Seq<char>) -> Seq<char> {
    if contains(error, "does not exist"@) || contains(error, "is not a file"@) || contains(
        error,
        "is not a DLL"@,
    ) || contains(error, "Failed to resolve DLL path"@) {
        "launcher.status.invalidDllPath.name"@
    } else {
        "launcher.status.preparingDll.name"@
    }
}

/// The status line for an error while preparing the DLL.
pub fn classify_dll_error(error: &str) -> (r: &'static str)
    ensures
        r@ == spec_dll_error_status(error@),
{
    if str_contains(error, "does not exist") || str_contains(error, "is not a file")
        || str_contains(error, "is not a DLL") || str_contains(error, "Failed to resolve DLL path") {
        "launcher.status.invalidDllPath.name"
    } else {
        "launcher.status.preparingDll.name"
    }
}

/// The failure shown when the DLL could not be prepared.
pub fn dll_preparation_failure(error: String) -> (r: FailureReport)
    ensures
        r.status_key@ == spec_dll_error_status(error@),
        r.dialog.level == crate::ui::UiDialogLevel::Error,
        r.dialog.key@ == "launcher.error.prepareDll.name"@,
        string_views(r.dialog.args@) == seq![error@],
        r.message@ == error@,
{
    let status_key = String::from_str(classify_dll_error(error.as_str()));
    let dialog = UiDialog::error("launcher.error.prepareDll.name").with_arg(error.as_str());
    assert(string_views(dialog.args@) =~= seq![error@]);
    FailureReport { status_key, dialog, message: error }
}

/// Whether the release DLL has to be downloaded: when its files are not
/// all there, when the cached DLL's metadata could not be read, or when the
/// latest release is not the version at hand (the cached DLL's, else the
/// one last used).
pub open spec fn spec_release_needs_download(
    release_cached: bool,
    cached_metadata_version: Option<Seq<char>>,
    previous_version: Option<Seq<char>>,
    latest_version: Option<Seq<char>>,
) -> bool {
    let cached_version = match cached_metadata_version {
        Some(v) => Some(v),
        None => previous_version,
    };
    let has_newer_release = match latest_version {
        Some(latest) => match cached_version {
            Some(cached) => !spec_versions_equivalent(cached, latest),
            None => true,
        },
        None => false,
    };
    !release_cached || cached_metadata_version is None || has_newer_release
}

pub open spec fn opt_view(o: Option<&str>) -> Option<Seq<char>> {
    match o {
        Some(s) => Some(s@),
        None => None,
    }
}

/// Decides whether the release DLL has to be downloaded.
pub fn release_needs_download(
    release_cached: bool,
    cached_metadata_version: Option<&str>,
    previous_version: Option<&str>,
    latest_version: Option<&str>,
) -> (r: bool)
    ensures
        r == spec_release_needs_download(
            release_cached,
            opt_view(cached_metadata_version),
            opt_view(previous_version),
            opt_view(latest_version),
        ),
{
    let cached_version = match cached_metadata_version {
        Some(v) => Some(v),
        None => previous_version,
    };
    let has_newer_release = match latest_version {
        Some(latest) => match cached_version {
            Some(cached) => !versions_equivalent(cached, latest),
            None => true,
        },
        None => false,
    };
    !release_cached || cached_metadata_version.is_none() || has_newer_release
}

/// The release DLL is downloaded exactly when its files are not cached, the
/// cached DLL's version cannot be read, or the latest release is known and
/// differs from the cached DLL's version; the version recorded from the last
/// use never changes the decision. In particular, offline (no latest release
/// known) a cached, readable release is reused.
pub proof fn lemma_release_download_decision(
    release_cached: bool,
    cached_metadata_version: Option<Seq<char>>,
    previous_version: Option<Seq<char>>,
    latest_version: Option<Seq<char>>,
)
    ensures
        spec_release_needs_download(
            release_cached,
            cached_metadata_version,
            previous_version,
            latest_version,
        ) == (!release_cached || match cached_metadata_version {
            None => true,
            Some(cached) => latest_version matches Some(latest) && !spec_versions_equivalent(
                cached,
                latest,
            ),
        }),
        release_cached && cached_metadata_version is Some && latest_version is None
            ==> !spec_release_needs_download(
            release_cached,
            cached_metadata_version,
            previous_version,
            latest_version,
        ),
{
}

/// The outcome of refreshing a nightly or debug build: a failed download is
/// forgiven when the build's files are cached.
pub fn mutable_build_outcome(download: Result<(), String>, cached_assets_exist: bool) -> (r: Result<
    (),
    String,
>)
    ensures
        unit_result_views(r) == match download {
            Ok(()) => Ok(()),
            Err(e) => if cached_assets_exist {
                Ok(())
            } else {
                Err(e@)
            },
        },
{
    match download {
        Ok(()) => Ok(()),
        Err(error) => {
            if cached_assets_exist {
                Ok(())
            } else {
                Err(error)
            }
        },
    }
}

/// The outcome of downloading the release build: a failed download is
/// forgiven when the cached release is usable (its files are there and its
/// DLL's version could be read), so that the cached build is reused while a
/// fresh one cannot be had.
pub fn release_download_outcome(
    download: Result<(), String>,
    release_cached: bool,
    cached_metadata_readable: bool,
) -> (r: Result<(), String>)
    ensures
        unit_result_views(r) == match download {
            Ok(()) => Ok(()),
            Err(e) => if release_cached && cached_metadata_readable {
                Ok(())
            } else {
                Err(e@)
            },
        },
{
    match download {
        Ok(()) => Ok(()),
        Err(error) => {
            if release_cached && cached_metadata_readable {
                Ok(())
            } else {
                Err(error)
            }
        },
    }
}

/// The checks on a custom DLL path, in order: it exists, it is a file, and
/// its extension is `dll` in any ASCII case.
pub open spec fn spec_check_custom_dll_path(
    path: Seq<char>,
    exists: bool,
    is_file: bool,
    extension: Option<Seq<char>>,
) -> Result<(), Seq<char>> {
    if !exists {
        Err("The selected DLL does not exist: "@ + path)
    } else if !is_file {
        Err("The selected path is not a file: "@ + path)
    } else if !(extension matches Some(e) && bytes_eq_ignore_ascii_case(
        encode_utf8(e),
        encode_utf8("dll"@),
    )) {
        Err("The selected file is not a DLL: "@ + path)
    } else {
        Ok(())
    }
}

/// Checks a custom DLL path, given what the file system says of it.
pub fn check_custom_dll_path(path: &str, exists: bool, is_file: bool, extension: Option<&str>) -> (r:
    Result<(), String>)
    ensures
        unit_result_views(r) == spec_check_custom_dll_path(path@, exists, is_file, opt_view(extension)),
{
    if !exists {
        let mut message = String::from_str("The selected DLL does not exist: ");
        message.append(path);
        return Err(message);
    }
    if !is_file {
        let mut message = String::from_str("The selected path is not a file: ");
        message.append(path);
        return Err(message);
    }
    let is_dll = match extension {
        Some(e) => str_eq_ignore_ascii_case(e, "dll"),
        None => false,
    };
    if !is_dll {
        let mut message = String::from_str("The selected file is not a DLL: ");
        message.append(path);
        return Err(message);
    }
    Ok(())
}

/// The key under which a downloaded custom DLL is cached: the `std`
/// `DefaultHasher` digest of the URL hashed as a `str` (its UTF-8 bytes,
/// then the byte `0xff`).
pub fn custom_dll_download_id(url: &str) -> (r: u64)
    ensures
        r == DefaultHasher::spec_finish(seq![encode_utf8(url@), seq![0xffu8]]),
{
    let mut hasher = DefaultHasher::new();
    hasher.write(url.as_bytes());
    let end: [u8; 1] = [0xff];
    let end_bytes = end.as_slice();
    assert(end_bytes@ =~= seq![0xffu8]);
    hasher.write(end_bytes);
    assert(hasher@ =~= seq![encode_utf8(url@), seq![0xffu8]]);
    hasher.finish()
}

/// The file name under which a downloaded custom DLL is cached.
pub fn custom_dll_file_name(download_id: u64) -> (r: String)
    ensures
        r@ == "custom-"@ + hex_fixed(download_id as nat, 16) + ".dll"@,
{
    let mut name = String::from_str("custom-");
    let hex = hex_fixed_chars(download_id, 16);
    let hex_text = string_from_chars(&hex);
    name.append(hex_text.as_str());
    name.append(".dll");
    name
}

/// The error when a build's files are missing and could not be downloaded.
pub fn missing_build_files_message(build: BuildKind) -> (r: String)
    ensures
        r@ == spec_build_display_name(build) + " files are missing and could not be downloaded."@,
{
    let mut message = String::from_str(build_display_name(build));
    message.append(" files are missing and could not be downloaded.");
    message
}

/// `major.minor.build.revision` of a package version.
pub open spec fn spec_package_version_text(v: PackageVersion) -> Seq<char> {
    decimal(v.major as nat) + seq!['.'] + decimal(v.minor as nat) + seq!['.'] + decimal(
        v.build as nat,
    ) + seq!['.'] + decimal(v.revision as nat)
}

/// The text of a package version.
pub fn format_package_version(v: PackageVersion) -> (r: String)
    ensures
        r@ == spec_package_version_text(v),
{
    let mut chars = decimal_chars(v.major as u128);
    chars.push('.');
    let minor = decimal_chars(v.minor as u128);
    append_chars(&mut chars, &minor);
    chars.push('.');
    let build = decimal_chars(v.build as u128);
    append_chars(&mut chars, &build);
    chars.push('.');
    let revision = decimal_chars(v.revision as u128);
    append_chars(&mut chars, &revision);
    assert(chars@ =~= spec_package_version_text(v));
    string_from_chars(&chars)
}

/// The failure shown when the DLL does not support the detected Minecraft
/// version (`what` names the kind of version, `version` is its text).
fn unsupported_failure(metadata: &LatiteDllMetadata, what: &str, version: &str) -> (r: FailureReport)
    ensures
        r.status_key@ == "launcher.status.unsupportedMinecraft.name"@,
        r.dialog.level == crate::ui::UiDialogLevel::Error,
        r.dialog.key@ == "launcher.error.unsupportedMinecraftVersion.name"@,
        string_views(r.dialog.args@) == seq![
            version@,
            metadata@.0,
            spec_supported_versions_text(metadata@.1),
        ],
        r.message@ == "Latite DLL version "@ + metadata@.0 + " does not support "@ + what@ + " "@
            + version@ + ". Supported Minecraft versions: "@ + spec_supported_versions_text(
            metadata@.1,
        ),
{
    let supported = format_supported_versions(metadata.supported_minecraft_versions());
    let dialog = UiDialog::error("launcher.error.unsupportedMinecraftVersion.name").with_arg(
        version,
    ).with_arg(metadata.version()).with_arg(supported.as_str());
    assert(string_views(dialog.args@) =~= seq![
        version@,
        metadata@.0,
        spec_supported_versions_text(metadata@.1),
    ]);
    let mut message = String::from_str("Latite DLL version ");
    message.append(metadata.version());
    message.append(" does not support ");
    message.append(what);
    message.append(" ");
    message.append(version);
    message.append(". Supported Minecraft versions: ");
    message.append(supported.as_str());
    FailureReport {
        status_key: String::from_str("launcher.status.unsupportedMinecraft.name"),
        dialog,
        message,
    }
}

/// Checks the Minecraft version read from the game's executable against
/// the versions the DLL supports.
pub fn check_minecraft_version(metadata: &LatiteDllMetadata, minecraft_version: &str) -> (r: Result<
    (),
    FailureReport,
>)
    ensures
        r is Ok <==> exists|i: int|
            0 <= i < metadata@.1.len() && spec_supported_version_matches(
                #[trigger] metadata@.1[i],
                minecraft_version@,
            ),
        r matches Err(f) ==> {
            &&& f.status_key@ == "launcher.status.unsupportedMinecraft.name"@
            &&& f.dialog.key@ == "launcher.error.unsupportedMinecraftVersion.name"@
            &&& f.dialog.level == crate::ui::UiDialogLevel::Error
            &&& string_views(f.dialog.args@) == seq![
                minecraft_version@,
                metadata@.0,
                spec_supported_versions_text(metadata@.1),
            ]
            &&& f.message@ == "Latite DLL version "@ + metadata@.0
                + " does not support Minecraft version "@ + minecraft_version@
                + ". Supported Minecraft versions: "@ + spec_supported_versions_text(metadata@.1)
        },
{
    if metadata.supports_minecraft_version(minecraft_version) {
        return Ok(());
    }
    let failure = unsupported_failure(metadata, "Minecraft version", minecraft_version);
    proof {
        reveal_strlit("Latite DLL version ");
        reveal_strlit(" does not support ");
        reveal_strlit("Minecraft version");
        reveal_strlit(" ");
        reveal_strlit(" does not support Minecraft version ");
    }
    assert(failure.message@ =~= "Latite DLL version "@ + metadata@.0
        + " does not support Minecraft version "@ + minecraft_version@
        + ". Supported Minecraft versions: "@ + spec_supported_versions_text(metadata@.1));
    Err(failure)
}

/// Checks the package version of the running game against the versions
/// the DLL supports; on success gives the supported version it falls
/// under.
pub fn check_package_version(metadata: &LatiteDllMetadata, package_version: PackageVersion) -> (r:
    Result<String, FailureReport>)
    ensures
        match most_specific_match(
            metadata@.1,
            package_version.major,
            package_version.minor,
            package_version.build,
        ) {
            Some(i) => r matches Ok(s) && s@ == metadata@.1[i],
            None => r matches Err(f) && {
                &&& f.status_key@ == "launcher.status.unsupportedMinecraft.name"@
                &&& f.dialog.key@ == "launcher.error.unsupportedMinecraftVersion.name"@
                &&& f.dialog.level == crate::ui::UiDialogLevel::Error
                &&& string_views(f.dialog.args@) == seq![
                    spec_package_version_text(package_version),
                    metadata@.0,
                    spec_supported_versions_text(metadata@.1),
                ]
                &&& f.message@ == "Latite DLL version "@ + metadata@.0
                    + " does not support Minecraft package version "@ + spec_package_version_text(
                    package_version,
                ) + ". Supported Minecraft versions: "@ + spec_supported_versions_text(metadata@.1)
            },
        },
{
    let supported = metadata.supported_minecraft_versions();
    proof {
        crate::version_info::lemma_most_specific_match_in_range(
            metadata@.1,
            package_version.major,
            package_version.minor,
            package_version.build,
        );
    }
    match match_supported_package_version(
        package_version.major,
        package_version.minor,
        package_version.build,
        supported,
    ) {
        Some(version) => Ok(String::from_str(version)),
        None => {
            let text = format_package_version(package_version);
            let failure = unsupported_failure(metadata, "Minecraft package version", text.as_str());
            proof {
                reveal_strlit("Latite DLL version ");
                reveal_strlit(" does not support ");
                reveal_strlit("Minecraft package version");
                reveal_strlit(" ");
                reveal_strlit(" does not support Minecraft package version ");
            }
            assert(failure.message@ =~= "Latite DLL version "@ + metadata@.0
                + " does not support Minecraft package version "@ + spec_package_version_text(
                package_version,
            ) + ". Supported Minecraft versions: "@ + spec_supported_versions_text(metadata@.1));
            Err(failure)
        },
    }
}

/// The failure shown when the Minecraft version could not be checked.
pub fn version_check_failure(error: String) -> (r: FailureReport)
    ensures
        r.status_key@ == "launcher.status.verifyFailed.name"@,
        r.dialog.level == crate::ui::UiDialogLevel::Error,
        r.dialog.key@ == "launcher.error.minecraftVersionCheckFailed.name"@,
        string_views(r.dialog.args@) == seq![error@],
        r.message@ == error@,
{
    let dialog = UiDialog::error("launcher.error.minecraftVersionCheckFailed.name").with_arg(
        error.as_str(),
    );
    assert(string_views(dialog.args@) =~= seq![error@]);
    FailureReport {
        status_key: String::from_str("launcher.status.verifyFailed.name"),
        dialog,
        message: error,
    }
}

/// What the check of the running game goes on with once the file version
/// of its executable has been read.
pub enum FileVersionCheck {
    /// The DLL supports the game: carry on with the injection.
    Supported,
    /// The version could not be checked, or it is not supported.
    Failed(FailureReport),
    /// The executable carries no version resource: ask the game's package
    /// for its version instead.
    NeedsPackageVersion,
}

/// The DLL supports `version` by one of its supported version patterns.
pub open spec fn dll_supports(dll: (Seq<char>, Seq<Seq<char>>), version: Seq<char>) -> bool {
    exists|i: int| 0 <= i < dll.1.len() && spec_supported_version_matches(#[trigger] dll.1[i], version)
}

/// Decides the check of the running game from what reading its
/// executable's file version gave: a readable version is held against the
/// DLL's supported versions, a missing version resource sends the check on
/// to the package version, and any other error fails it.
pub fn check_file_version(metadata: &LatiteDllMetadata, file_version: Result<String, FileVersionError>) -> (r:
    FileVersionCheck)
    ensures
        match file_version {
            Ok(version) => if dll_supports(metadata@, version@) {
                r is Supported
            } else {
                r matches FileVersionCheck::Failed(f) && {
                    &&& f.status_key@ == "launcher.status.unsupportedMinecraft.name"@
                    &&& f.dialog.key@ == "launcher.error.unsupportedMinecraftVersion.name"@
                    &&& f.dialog.level == crate::ui::UiDialogLevel::Error
                    &&& string_views(f.dialog.args@) == seq![
                        version@,
                        metadata@.0,
                        spec_supported_versions_text(metadata@.1),
                    ]
                    &&& f.message@ == "Latite DLL version "@ + metadata@.0
                        + " does not support Minecraft version "@ + version@
                        + ". Supported Minecraft versions: "@ + spec_supported_versions_text(
                        metadata@.1,
                    )
                }
            },
            Err(error) => if error is MissingVersionInfo {
                r is NeedsPackageVersion
            } else {
                r matches FileVersionCheck::Failed(f) && {
                    &&& f.status_key@ == "launcher.status.verifyFailed.name"@
                    &&& f.dialog.key@ == "launcher.error.minecraftVersionCheckFailed.name"@
                    &&& f.dialog.level == crate::ui::UiDialogLevel::Error
                    &&& string_views(f.dialog.args@) == seq![file_version_error_message(error)]
                    &&& f.message@ == file_version_error_message(error)
                }
            },
        },
{
    match file_version {
        Ok(version) => match check_minecraft_version(metadata, version.as_str()) {
            Ok(()) => FileVersionCheck::Supported,
            Err(failure) => FileVersionCheck::Failed(failure),
        },
        Err(error) => {
            if error.is_missing_version_info() {
                FileVersionCheck::NeedsPackageVersion
            } else {
                FileVersionCheck::Failed(version_check_failure(error.message()))
            }
        },
    }
}

/// Decides the check of the running game from what asking its package for
/// its version gave. A package version is held against the DLL's supported
/// versions, and the supported version it falls under is handed back; a
/// game without a package identity, or a failed lookup, skips the check
/// (`Ok(None)`) and the injection goes on.
pub fn check_package_lookup(
    metadata: &LatiteDllMetadata,
    lookup: Result<Option<PackageVersion>, String>,
) -> (r: Result<Option<String>, FailureReport>)
    ensures
        match lookup {
            Ok(Some(package_version)) => match most_specific_match(
                metadata@.1,
                package_version.major,
                package_version.minor,
                package_version.build,
            ) {
                Some(i) => r matches Ok(Some(s)) && s@ == metadata@.1[i],
                None => r matches Err(f) && {
                    &&& f.status_key@ == "launcher.status.unsupportedMinecraft.name"@
                    &&& f.dialog.key@ == "launcher.error.unsupportedMinecraftVersion.name"@
                    &&& f.dialog.level == crate::ui::UiDialogLevel::Error
                    &&& string_views(f.dialog.args@) == seq![
                        spec_package_version_text(package_version),
                        metadata@.0,
                        spec_supported_versions_text(metadata@.1),
                    ]
                    &&& f.message@ == "Latite DLL version "@ + metadata@.0
                        + " does not support Minecraft package version "@
                        + spec_package_version_text(package_version)
                        + ". Supported Minecraft versions: "@ + spec_supported_versions_text(
                        metadata@.1,
                    )
                },
            },
            Ok(None) => r matches Ok(None),
            Err(_) => r matches Ok(None),
        },
{
    match lookup {
        Ok(Some(package_version)) => match check_package_version(metadata, package_version) {
            Ok(version) => Ok(Some(version)),
            Err(failure) => Err(failure),
        },
        Ok(None) => Ok(None),
        Err(_) => Ok(None),
    }
}

/// The failure reported when the injected game ended with a non-zero exit
/// code; none when it closed normally.
pub fn process_exit_failure(pid: u32, exit_code: u32) -> (r: Option<FailureReport>)
    ensures
        exit_code == 0 <==> r is None,
        r matches Some(f) ==> {
            &&& f.status_key@ == "launcher.status.injectFailed.name"@
            &&& f.dialog.level == crate::ui::UiDialogLevel::Error
            &&& f.dialog.key@ == "launcher.error.injectedProcessExited.name"@
            &&& string_views(f.dialog.args@) == seq![
                decimal(pid as nat),
                "0x"@ + hex(exit_code as nat),
            ]
            &&& f.message@ == "Minecraft process "@ + decimal(pid as nat)
                + " closed after DLL injection with exit code "@ + "0x"@ + hex(exit_code as nat)
                + ". The DLL may be incompatible with your Minecraft version."@
        },
{
    if exit_code == 0 {
        return None;
    }
    let pid_text = decimal_string(pid as u128);
    let mut code_text = String::from_str("0x");
    let digits = hex_chars(exit_code as u64);
    let digits_text = string_from_chars(&digits);
    code_text.append(digits_text.as_str());
    let dialog = UiDialog::error("launcher.error.injectedProcessExited.name").with_arg(
        pid_text.as_str(),
    ).with_arg(code_text.as_str());
    assert(string_views(dialog.args@) =~= seq![
        decimal(pid as nat),
        "0x"@ + hex(exit_code as nat),
    ]);
    let mut message = String::from_str("Minecraft process ");
    message.append(pid_text.as_str());
    message.append(" closed after DLL injection with exit code ");
    message.append(code_text.as_str());
    message.append(". The DLL may be incompatible with your Minecraft version.");
    assert(message@ =~= "Minecraft process "@ + decimal(pid as nat)
        + " closed after DLL injection with exit code "@ + "0x"@ + hex(exit_code as nat)
        + ". The DLL may be incompatible with your Minecraft version."@);
    Some(
        FailureReport {
            status_key: String::from_str("launcher.status.injectFailed.name"),
            dialog,
            message,
        },
    )
}

/// The error when the game's process did not show up after launching it.
pub fn process_not_found_message(process_name: &str) -> (r: String)
    ensures
        r@ == process_name@
            + " was not found after launching. Please try launching again, or please make sure Minecraft is installed."@,
{
    let mut message = String::from_str(process_name);
    message.append(
        " was not found after launching. Please try launching again, or please make sure Minecraft is installed.",
    );
    message
}

/// How much longer to wait so that a status stays up for `minimum`
/// nanoseconds after `elapsed` have passed.
pub fn remaining_wait(elapsed: u128, minimum: u128) -> (r: u128)
    ensures
        r == if elapsed < minimum {
            minimum - elapsed
        } else {
            0
        },
{
    if elapsed < minimum {
        minimum - elapsed
    } else {
        0
    }
}

} // verus!
