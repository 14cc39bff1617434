//! Where the launcher keeps its files, below its own directory.
use vstd::prelude::*;

use crate::launch_request::BuildKind;

verus! {

/// `base` is a bare drive such as `C:`, naming the current directory of
/// that drive.
pub open spec fn is_bare_drive(base: Seq<char>) -> bool {
    &&& base.len() == 2
    &&& ('a' <= base[0] <= 'z' || 'A' <= base[0] <= 'Z')
    &&& base[1] == ':'
}

/// `base` joined with the relative name `name`, with a backslash between
/// them unless `base` is empty, already ends in a separator, or is a bare
/// drive (`C:` joined with `Latite` is `C:Latite`, relative to that drive's
/// current directory).
pub open spec fn spec_join_path(base: Seq<char>, name: Seq<char>) -> Seq<char> {
    if base.len() == 0 || base.last() == '\\' || base.last() == '/' || is_bare_drive(base) {
        base + name
    } else {
        base + seq!['\\'] + name
    }
}

/// The directory name of a build below the DLLs directory.
pub open spec fn spec_build_directory_name(build: BuildKind) -> Seq<char> {
    match build {
        BuildKind::Release => "release"@,
        BuildKind::Nightly => "nightly"@,
        BuildKind::Debug => "debug"@,
    }
}

/// Joins a relative name to a directory path.
pub fn join_path(base: &str, name: &str) -> (r: String)
    ensures
        r@ == spec_join_path(base@, name@),
{
    let base_chars = crate::text::chars_of(base);
    let n = base_chars.len();
    let mut r = String::from_str(base);
    let bare_drive = n == 2 && (('a' <= base_chars[0] && base_chars[0] <= 'z') || ('A'
        <= base_chars[0] && base_chars[0] <= 'Z')) && base_chars[1] == ':';
    if n == 0 || base_chars[n - 1] == '\\' || base_chars[n - 1] == '/' || bare_drive {
        r.append(name);
    } else {
        r.append("\\");
        proof {
            reveal_strlit("\\");
        }
        assert("\\"@ =~= seq!['\\']);
        r.append(name);
    }
    r
}

pub fn build_directory_name(build: BuildKind) -> (r: &'static str)
    ensures
        r@ == spec_build_directory_name(build),
{
    match build {
        BuildKind::Release => "release",
        BuildKind::Nightly => "nightly",
        BuildKind::Debug => "debug",
    }
}

/// The launcher's directory below the local application data directory.
pub fn launcher_path_in(local_app_data: &str) -> (r: String)
    ensures
        r@ == spec_join_path(spec_join_path(local_app_data@, "Latite"@), "Launcher"@),
{
    let latite = join_path(local_app_data, "Latite");
    join_path(latite.as_str(), "Launcher")
}

/// The directory of the downloaded DLLs.
pub fn get_dlls_path(launcher_path: &str) -> (r: String)
    ensures
        r@ == spec_join_path(launcher_path@, "DLLs"@),
{
    join_path(launcher_path, "DLLs")
}

/// The directory of the launcher's logs.
pub fn get_logs_path(launcher_path: &str) -> (r: String)
    ensures
        r@ == spec_join_path(launcher_path@, "Logs"@),
{
    join_path(launcher_path, "Logs")
}

/// The directory of one build's files, below the DLLs directory.
pub fn get_latite_build_path(launcher_path: &str, build: BuildKind) -> (r: String)
    ensures
        r@ == spec_join_path(
            spec_join_path(launcher_path@, "DLLs"@),
            spec_build_directory_name(build),
        ),
{
    let dlls = get_dlls_path(launcher_path);
    join_path(dlls.as_str(), build_directory_name(build))
}

/// The settings file.
pub fn get_options_path(launcher_path: &str) -> (r: String)
    ensures
        r@ == spec_join_path(launcher_path@, "options.json"@),
{
    join_path(launcher_path, "options.json")
}

} // verus!
