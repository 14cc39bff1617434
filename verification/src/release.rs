//! The Latite builds that the launcher downloads, and the files each needs.
use vstd::prelude::*;

use crate::launch_request::BuildKind;

verus! {

/// A file of a build and the address it is downloaded from.
#[derive(Clone, Copy)]
pub struct AssetDownload {
    pub file_name: &'static str,
    pub url: &'static str,
}

/// The name under which a build is shown.
pub open spec fn spec_build_display_name(build: BuildKind) -> Seq<char> {
    match build {
        BuildKind::Release => "Latite Release"@,
        BuildKind::Nightly => "Latite Nightly"@,
        BuildKind::Debug => "Latite Debug"@,
    }
}

/// The file name of a build's DLL.
pub open spec fn spec_latite_dll_file_name(build: BuildKind) -> Seq<char> {
    match build {
        BuildKind::Release => "Latite.dll"@,
        BuildKind::Nightly => "LatiteNightly.dll"@,
        BuildKind::Debug => "LatiteDebug.dll"@,
    }
}

/// The files of a build, with their download addresses, in download order.
pub open spec fn spec_build_assets(build: BuildKind) -> Seq<(Seq<char>, Seq<char>)> {
    match build {
        BuildKind::Release => seq![
            (
                "Latite.dll"@,
                "https://github.com/Imrglop/Latite-Releases/releases/latest/download/Latite.dll"@,
            ),
        ],
        BuildKind::Nightly => seq![
            (
                "LatiteNightly.dll"@,
                "https://github.com/LatiteClient/Latite/releases/download/nightly/LatiteNightly.dll"@,
            ),
        ],
        BuildKind::Debug => seq![
            (
                "LatiteDebug.dll"@,
                "https://github.com/LatiteClient/Latite/releases/download/debug/LatiteDebug.dll"@,
            ),
            (
                "LatiteDebug.pdb"@,
                "https://github.com/LatiteClient/Latite/releases/download/debug/LatiteDebug.pdb"@,
            ),
        ],
    }
}

pub fn build_display_name(build: BuildKind) -> (r: &'static str)
    ensures
        r@ == spec_build_display_name(build),
{
    match build {
        BuildKind::Release => "Latite Release",
        BuildKind::Nightly => "Latite Nightly",
        BuildKind::Debug => "Latite Debug",
    }
}

pub fn latite_dll_file_name(build: BuildKind) -> (r: &'static str)
    ensures
        r@ == spec_latite_dll_file_name(build),
{
    match build {
        BuildKind::Release => "Latite.dll",
        BuildKind::Nightly => "LatiteNightly.dll",
        BuildKind::Debug => "LatiteDebug.dll",
    }
}

/// The files of a build, with their download addresses.
pub fn build_assets(build: BuildKind) -> (r: Vec<AssetDownload>)
    ensures
        r@.len() == spec_build_assets(build).len(),
        forall|i: int|
            0 <= i < r@.len() ==> (#[trigger] r@[i].file_name@, r@[i].url@) == spec_build_assets(
                build,
            )[i],
{
    let mut r = Vec::new();
    match build {
        BuildKind::Release => {
            r.push(
                AssetDownload {
                    file_name: "Latite.dll",
                    url: "https://github.com/Imrglop/Latite-Releases/releases/latest/download/Latite.dll",
                },
            );
        },
        BuildKind::Nightly => {
            r.push(
                AssetDownload {
                    file_name: "LatiteNightly.dll",
                    url: "https://github.com/LatiteClient/Latite/releases/download/nightly/LatiteNightly.dll",
                },
            );
        },
        BuildKind::Debug => {
            r.push(
                AssetDownload {
                    file_name: "LatiteDebug.dll",
                    url: "https://github.com/LatiteClient/Latite/releases/download/debug/LatiteDebug.dll",
                },
            );
            r.push(
                AssetDownload {
                    file_name: "LatiteDebug.pdb",
                    url: "https://github.com/LatiteClient/Latite/releases/download/debug/LatiteDebug.pdb",
                },
            );
        },
    }
    r
}

/// Every file of the build is present; `file_is_present[i]` tells whether
/// the `i`-th file of `build_assets(build)` is a file in the build's
/// directory.
pub fn has_required_assets(build: BuildKind, file_is_present: &[bool]) -> (r: bool)
    ensures
        r == (spec_build_assets(build).len() <= file_is_present@.len() && forall|i: int|
            0 <= i < spec_build_assets(build).len() ==> #[trigger] file_is_present@[i]),
{
    let assets = build_assets(build);
    let n = assets.len();
    if n > file_is_present.len() {
        return false;
    }
    for i in 0..n
        invariant
            n == spec_build_assets(build).len() <= file_is_present@.len(),
            forall|k: int| 0 <= k < i ==> #[trigger] file_is_present@[k],
    {
        if !file_is_present[i] {
            return false;
        }
    }
    true
}

/// The name under which a file is downloaded before it replaces the file
/// `destination_file_name` (`download` when the destination has none).
pub fn temporary_download_path(destination_file_name: Option<&str>) -> (r: String)
    ensures
        r@ == match destination_file_name {
            Some(name) => name@,
            None => "download"@,
        } + ".download"@,
{
    let mut name = match destination_file_name {
        Some(name) => String::from_str(name),
        None => String::from_str("download"),
    };
    name.append(".download");
    name
}

/// The GitHub API address of the latest release of `repo`.
pub fn latest_release_url(repo: &str) -> (r: String)
    ensures
        r@ == "https://api.github.com/repos/"@ + repo@ + "/releases/latest"@,
{
    let mut url = String::from_str("https://api.github.com/repos/");
    url.append(repo);
    url.append("/releases/latest");
    url
}

/// The error when a build's files are still missing after a download.
pub fn missing_after_download_message(build: BuildKind) -> (r: String)
    ensures
        r@ == spec_build_display_name(build) + " files are missing after download."@,
{
    let mut message = String::from_str(build_display_name(build));
    message.append(" files are missing after download.");
    message
}

/// The address ends in `/` and the file name.
pub open spec fn address_names_file(url: Seq<char>, file_name: Seq<char>) -> bool {
    url.len() > file_name.len() && url.subrange(url.len() - file_name.len() - 1, url.len() as int)
        == seq!['/'] + file_name
}

/// Every file of a build is downloaded from an address that names that very
/// file, and no two builds fetch their DLL from the same address.
pub proof fn lemma_assets_fetched_from_their_own_address(build: BuildKind, other: BuildKind)
    ensures
        forall|i: int|
            0 <= i < spec_build_assets(build).len() ==> address_names_file(
                (#[trigger] spec_build_assets(build)[i]).1,
                spec_build_assets(build)[i].0,
            ),
        build != other ==> spec_build_assets(build)[0].1 != spec_build_assets(other)[0].1,
{
    reveal_strlit("Latite.dll");
    reveal_strlit("LatiteNightly.dll");
    reveal_strlit("LatiteDebug.dll");
    reveal_strlit("LatiteDebug.pdb");
    reveal_strlit("https://github.com/Imrglop/Latite-Releases/releases/latest/download/Latite.dll");
    reveal_strlit("https://github.com/LatiteClient/Latite/releases/download/nightly/LatiteNightly.dll");
    reveal_strlit("https://github.com/LatiteClient/Latite/releases/download/debug/LatiteDebug.dll");
    reveal_strlit("https://github.com/LatiteClient/Latite/releases/download/debug/LatiteDebug.pdb");
    let release = "https://github.com/Imrglop/Latite-Releases/releases/latest/download/Latite.dll"@;
    let nightly = "https://github.com/LatiteClient/Latite/releases/download/nightly/LatiteNightly.dll"@;
    let debug = "https://github.com/LatiteClient/Latite/releases/download/debug/LatiteDebug.dll"@;
    let pdb = "https://github.com/LatiteClient/Latite/releases/download/debug/LatiteDebug.pdb"@;
    assert(address_names_file(release, "Latite.dll"@)) by {
        assert(release.subrange(release.len() - 11, release.len() as int) =~= seq!['/']
            + "Latite.dll"@);
    }
    assert(address_names_file(nightly, "LatiteNightly.dll"@)) by {
        assert(nightly.subrange(nightly.len() - 18, nightly.len() as int) =~= seq!['/']
            + "LatiteNightly.dll"@);
    }
    assert(address_names_file(debug, "LatiteDebug.dll"@)) by {
        assert(debug.subrange(debug.len() - 16, debug.len() as int) =~= seq!['/']
            + "LatiteDebug.dll"@);
    }
    assert(address_names_file(pdb, "LatiteDebug.pdb"@)) by {
        assert(pdb.subrange(pdb.len() - 16, pdb.len() as int) =~= seq!['/'] + "LatiteDebug.pdb"@);
    }
    assert(release.len() != nightly.len());
    assert(release[19] != debug[19]);
    assert(nightly.len() != debug.len());
}

/// A build's DLL is one of the files downloaded for it: the first.
pub proof fn lemma_dll_is_first_asset(build: BuildKind)
    ensures
        spec_build_assets(build).len() >= 1,
        spec_build_assets(build)[0].0 == spec_latite_dll_file_name(build),
{
}

} // verus!
