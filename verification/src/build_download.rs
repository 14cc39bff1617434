//! The order in which a build's files are downloaded and put in place: every
//! file is first fetched into a temporary file, and only once all of them
//! arrived are the temporary files moved over the build's files. A failure
//! removes the temporary files before it is reported.
use vstd::prelude::*;

use crate::launch_request::BuildKind;
use crate::release::{missing_after_download_message, spec_build_assets, spec_build_display_name, build_assets};

verus! {

/// The number of files of a build.
pub open spec fn asset_count(build: BuildKind) -> nat {
    spec_build_assets(build).len()
}

/// Where a download of a build stands.
pub enum DownloadPhase {
    /// The files before this position were downloaded; this one is next.
    Downloading(usize),
    /// Every file was downloaded; those before this position were moved in
    /// place, this one is next.
    Replacing(usize),
    /// The temporary files of the first so many files are to be removed,
    /// then the download fails with the error.
    CleaningUp(usize, String),
    /// Every file was moved in place; their presence is to be checked.
    Verifying,
    /// The download failed with this error.
    Failed(String),
    /// Every file of the build is in place.
    Finished,
}

/// What the caller is to do next for a download of a build.
pub enum DownloadStep {
    /// Fetch the file at this position into its temporary file, after
    /// removing a stale one, and report with `record_download`.
    Download(usize),
    /// Move the temporary file of the file at this position over it, and
    /// report with `record_replace`.
    Replace(usize),
    /// Remove the temporary files of the first so many files, and report
    /// with `record_cleanup`.
    RemoveTemporaries(usize),
    /// Check that every file of the build is present, and report with
    /// `record_verification`.
    Verify,
    /// Give up with this error.
    Fail(String),
    /// Done: the build's DLL is in place.
    Finish,
}

/// A download of the files of a build.
pub struct BuildDownload {
    build: BuildKind,
    phase: DownloadPhase,
    downloaded: Ghost<nat>,
    replaced: Ghost<nat>,
}

impl BuildDownload {
    #[verifier::type_invariant]
    spec fn well_formed(self) -> bool {
        let n = asset_count(self.build);
        match self.phase {
            DownloadPhase::Downloading(i) => i < n && self.downloaded@ == i && self.replaced@ == 0,
            DownloadPhase::Replacing(i) => i < n && self.downloaded@ == n && self.replaced@ == i,
            DownloadPhase::CleaningUp(k, _) => 1 <= k <= n && self.downloaded@ <= k
                && self.replaced@ <= n,
            DownloadPhase::Verifying => self.downloaded@ == n && self.replaced@ == n,
            DownloadPhase::Failed(_) => self.downloaded@ <= n && self.replaced@ <= n,
            DownloadPhase::Finished => self.downloaded@ == n && self.replaced@ == n,
        }
    }

    /// The build being downloaded.
    pub closed spec fn build(self) -> BuildKind {
        self.build
    }

    /// Where the download stands.
    pub closed spec fn phase(self) -> DownloadPhase {
        self.phase
    }

    /// How many files have been downloaded into their temporary files.
    pub closed spec fn downloaded(self) -> nat {
        self.downloaded@
    }

    /// How many files have been moved in place.
    pub closed spec fn replaced(self) -> nat {
        self.replaced@
    }

    /// A download of `build` that has not started.
    pub fn new(build: BuildKind) -> (r: Self)
        ensures
            r.build() == build,
            r.phase() == DownloadPhase::Downloading(0),
            r.downloaded() == 0,
            r.replaced() == 0,
    {
        BuildDownload {
            build,
            phase: DownloadPhase::Downloading(0),
            downloaded: Ghost(0),
            replaced: Ghost(0),
        }
    }

    /// What to do next. No file is moved in place before every file of the
    /// build has been downloaded.
    pub fn step(&self) -> (r: DownloadStep)
        ensures
            match self.phase() {
                DownloadPhase::Downloading(i) => r == DownloadStep::Download(i),
                DownloadPhase::Replacing(i) => r == DownloadStep::Replace(i),
                DownloadPhase::CleaningUp(k, _) => r == DownloadStep::RemoveTemporaries(k),
                DownloadPhase::Verifying => r == DownloadStep::Verify,
                DownloadPhase::Failed(e) => r matches DownloadStep::Fail(m) && m@ == e@,
                DownloadPhase::Finished => r == DownloadStep::Finish,
            },
            r matches DownloadStep::Download(i) ==> i < asset_count(self.build()) && i
                == self.downloaded() && self.replaced() == 0,
            r matches DownloadStep::Replace(i) ==> i < asset_count(self.build()) && self.downloaded()
                == asset_count(self.build()) && i == self.replaced(),
            r matches DownloadStep::RemoveTemporaries(k) ==> 1 <= k <= asset_count(self.build()),
            r is Finish ==> self.downloaded() == asset_count(self.build()) && self.replaced()
                == asset_count(self.build()),
    {
        proof {
            use_type_invariant(self);
        }
        match &self.phase {
            DownloadPhase::Downloading(i) => DownloadStep::Download(*i),
            DownloadPhase::Replacing(i) => DownloadStep::Replace(*i),
            DownloadPhase::CleaningUp(k, _) => DownloadStep::RemoveTemporaries(*k),
            DownloadPhase::Verifying => DownloadStep::Verify,
            DownloadPhase::Failed(e) => DownloadStep::Fail(e.clone()),
            DownloadPhase::Finished => DownloadStep::Finish,
        }
    }

    /// Reports how the download of the next file went. A success moves on
    /// to the next file, or to moving the files in place after the last;
    /// a failure removes the temporary files of every file whose download
    /// was started, this one included. Outside that phase nothing changes.
    pub fn record_download(&mut self, result: Result<(), String>)
        ensures
            final(self).build() == old(self).build(),
            match old(self).phase() {
                DownloadPhase::Downloading(i) => match result {
                    Ok(()) => {
                        &&& final(self).downloaded() == old(self).downloaded() + 1
                        &&& final(self).replaced() == 0
                        &&& final(self).phase() == if i + 1 < asset_count(old(self).build()) {
                            DownloadPhase::Downloading((i + 1) as usize)
                        } else {
                            DownloadPhase::Replacing(0)
                        }
                    },
                    Err(e) => {
                        &&& final(self).downloaded() == old(self).downloaded()
                        &&& final(self).replaced() == 0
                        &&& final(self).phase() matches DownloadPhase::CleaningUp(k, m) && k == i
                            + 1 && m@ == e@
                    },
                },
                _ => *final(self) == *old(self),
            },
    {
        proof {
            use_type_invariant(&*self);
        }
        if let DownloadPhase::Downloading(i) = self.phase {
            let n = build_assets(self.build).len();
            let ghost downloaded = self.downloaded@;
            match result {
                Ok(()) => {
                    let phase = if i + 1 < n {
                        DownloadPhase::Downloading(i + 1)
                    } else {
                        DownloadPhase::Replacing(0)
                    };
                    *self = BuildDownload {
                        build: self.build,
                        phase,
                        downloaded: Ghost(downloaded + 1),
                        replaced: Ghost(0),
                    };
                },
                Err(e) => {
                    *self = BuildDownload {
                        build: self.build,
                        phase: DownloadPhase::CleaningUp(i + 1, e),
                        downloaded: Ghost(downloaded),
                        replaced: Ghost(0),
                    };
                },
            }
        }
    }

    /// Reports how moving the next file in place went. A success moves on
    /// to the next file, or to checking the files after the last; a failure
    /// removes the temporary files of every file. Outside that phase
    /// nothing changes.
    pub fn record_replace(&mut self, result: Result<(), String>)
        ensures
            final(self).build() == old(self).build(),
            final(self).downloaded() == old(self).downloaded(),
            match old(self).phase() {
                DownloadPhase::Replacing(i) => match result {
                    Ok(()) => {
                        &&& final(self).replaced() == old(self).replaced() + 1
                        &&& final(self).phase() == if i + 1 < asset_count(old(self).build()) {
                            DownloadPhase::Replacing((i + 1) as usize)
                        } else {
                            DownloadPhase::Verifying
                        }
                    },
                    Err(e) => {
                        &&& final(self).replaced() == old(self).replaced()
                        &&& final(self).phase() matches DownloadPhase::CleaningUp(k, m) && k
                            == asset_count(old(self).build()) && m@ == e@
                    },
                },
                _ => *final(self) == *old(self),
            },
    {
        proof {
            use_type_invariant(&*self);
        }
        if let DownloadPhase::Replacing(i) = self.phase {
            let n = build_assets(self.build).len();
            let ghost downloaded = self.downloaded@;
            let ghost replaced = self.replaced@;
            match result {
                Ok(()) => {
                    let phase = if i + 1 < n {
                        DownloadPhase::Replacing(i + 1)
                    } else {
                        DownloadPhase::Verifying
                    };
                    *self = BuildDownload {
                        build: self.build,
                        phase,
                        downloaded: Ghost(downloaded),
                        replaced: Ghost(replaced + 1),
                    };
                },
                Err(e) => {
                    *self = BuildDownload {
                        build: self.build,
                        phase: DownloadPhase::CleaningUp(n, e),
                        downloaded: Ghost(downloaded),
                        replaced: Ghost(replaced),
                    };
                },
            }
        }
    }

    /// Reports that the temporary files were removed: the download now
    /// fails with the error that caused the clean-up. Outside that phase
    /// nothing changes.
    pub fn record_cleanup(&mut self)
        ensures
            final(self).build() == old(self).build(),
            final(self).downloaded() == old(self).downloaded(),
            final(self).replaced() == old(self).replaced(),
            match old(self).phase() {
                DownloadPhase::CleaningUp(_, e) => final(self).phase() matches DownloadPhase::Failed(
                    m,
                ) && m@ == e@,
                _ => *final(self) == *old(self),
            },
    {
        proof {
            use_type_invariant(&*self);
        }
        if let DownloadPhase::CleaningUp(_, e) = &self.phase {
            let error = e.clone();
            let ghost downloaded = self.downloaded@;
            let ghost replaced = self.replaced@;
            *self = BuildDownload {
                build: self.build,
                phase: DownloadPhase::Failed(error),
                downloaded: Ghost(downloaded),
                replaced: Ghost(replaced),
            };
        }
    }

    /// Reports whether every file of the build is present once they were
    /// moved in place: the download finishes, or fails because files are
    /// missing. Outside that phase nothing changes.
    pub fn record_verification(&mut self, all_present: bool)
        ensures
            final(self).build() == old(self).build(),
            final(self).downloaded() == old(self).downloaded(),
            final(self).replaced() == old(self).replaced(),
            match old(self).phase() {
                DownloadPhase::Verifying => if all_present {
                    final(self).phase() == DownloadPhase::Finished
                } else {
                    final(self).phase() matches DownloadPhase::Failed(m) && m@
                        == spec_build_display_name(old(self).build())
                        + " files are missing after download."@
                },
                _ => *final(self) == *old(self),
            },
    {
        proof {
            use_type_invariant(&*self);
        }
        if let DownloadPhase::Verifying = self.phase {
            let ghost downloaded = self.downloaded@;
            let ghost replaced = self.replaced@;
            let phase = if all_present {
                DownloadPhase::Finished
            } else {
                DownloadPhase::Failed(missing_after_download_message(self.build))
            };
            *self = BuildDownload {
                build: self.build,
                phase,
                downloaded: Ghost(downloaded),
                replaced: Ghost(replaced),
            };
        }
    }
}

} // verus!
