//! What the launcher is asked to inject.
use vstd::prelude::*;

verus! {

/// The Latite build channels.
#[derive(Clone, Copy, Debug, PartialEq, Eq, Structural)]
pub enum BuildKind {
    Release,
    Nightly,
    Debug,
}

impl Default for BuildKind {
    fn default() -> (r: Self)
        ensures
            r == BuildKind::Release,
    {
        BuildKind::Release
    }
}

/// A request to inject: a custom DLL (a path or an `http(s)` URL), or else
/// a Latite build (the configured one when none is given).
pub struct InjectRequest {
    pub dll_path: Option<String>,
    pub build: Option<BuildKind>,
}

impl Default for InjectRequest {
    fn default() -> (r: Self)
        ensures
            r.dll_path is None,
            r.build is None,
    {
        InjectRequest { dll_path: None, build: None }
    }
}

} // verus!
