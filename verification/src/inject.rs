//! What the injector decides about the processes it looks at.
use vstd::prelude::*;
use vstd::utf8::encode_utf8;

use crate::text::{bytes_eq_ignore_ascii_case, str_eq_ignore_ascii_case};

verus! {

/// The version of an installed package: `major.minor.build.revision`.
#[derive(Clone, Copy, Debug)]
pub struct PackageVersion {
    pub major: u16,
    pub minor: u16,
    pub build: u16,
    pub revision: u16,
}

/// A running process is the game when its executable name is the one
/// looked for, ignoring ASCII case, and it runs more than one thread (a
/// single-threaded launcher stub is passed over).
pub fn is_target_process(exe_name: &str, process_name: &str, thread_count: u32) -> (r: bool)
    ensures
        r == (bytes_eq_ignore_ascii_case(encode_utf8(exe_name@), encode_utf8(process_name@))
            && thread_count > 1),
{
    str_eq_ignore_ascii_case(exe_name, process_name) && thread_count > 1
}

} // verus!
