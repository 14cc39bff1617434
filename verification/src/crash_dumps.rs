//! Which crash dumps the launcher deletes.
use vstd::prelude::*;
use vstd::utf8::encode_utf8;

use crate::text::{bytes_eq_ignore_ascii_case, str_eq_ignore_ascii_case};

verus! {

/// Crash dumps older than this many seconds (seven days) are deleted.
pub const MAX_CRASH_DUMP_AGE_SECS: u64 = 604800;

/// A file is a crash dump when its extension is `dmp` in any ASCII case.
pub fn is_crash_dump_file(extension: Option<&str>) -> (r: bool)
    ensures
        r == (extension matches Some(e) && bytes_eq_ignore_ascii_case(
            encode_utf8(e@),
            encode_utf8("dmp"@),
        )),
{
    match extension {
        Some(e) => str_eq_ignore_ascii_case(e, "dmp"),
        None => false,
    }
}

/// A crash dump of the given age (whole seconds and the nanoseconds beyond
/// them) is older than seven days.
pub fn is_expired_crash_dump(age_secs: u64, age_subsec_nanos: u32) -> (r: bool)
    ensures
        r == (age_secs > MAX_CRASH_DUMP_AGE_SECS || (age_secs == MAX_CRASH_DUMP_AGE_SECS
            && age_subsec_nanos > 0)),
{
    age_secs > MAX_CRASH_DUMP_AGE_SECS || (age_secs == MAX_CRASH_DUMP_AGE_SECS && age_subsec_nanos
        > 0)
}

/// What the launcher read of a crash dump in the crash dumps directory.
pub struct CrashDumpCandidate {
    /// It is a regular file.
    pub is_file: bool,
    /// Its age as whole seconds and the nanoseconds beyond them; none when
    /// its modification time lies in the future.
    pub age: Option<(u64, u32)>,
}

/// A crash dump is deleted when it is a regular file older than seven days.
pub open spec fn spec_should_delete(c: CrashDumpCandidate) -> bool {
    c.is_file && match c.age {
        Some((secs, nanos)) => secs > MAX_CRASH_DUMP_AGE_SECS || (secs == MAX_CRASH_DUMP_AGE_SECS
            && nanos > 0),
        None => false,
    }
}

/// The positions, in increasing order, of the crash dumps to delete.
pub fn crash_dumps_to_delete(candidates: &Vec<CrashDumpCandidate>) -> (r: Vec<usize>)
    ensures
        forall|k: int| 0 <= k < r.len() ==> #[trigger] r[k] < candidates.len() && spec_should_delete(
            candidates@[r[k] as int],
        ),
        forall|k: int, l: int| 0 <= k < l < r.len() ==> #[trigger] r[k] < #[trigger] r[l],
        forall|i: int|
            0 <= i < candidates.len() && #[trigger] spec_should_delete(candidates@[i]) ==> exists|
                k: int,
            | 0 <= k < r.len() && r[k] == i,
{
    let mut r: Vec<usize> = Vec::new();
    let n = candidates.len();
    for i in 0..n
        invariant
            n == candidates.len(),
            forall|k: int| 0 <= k < r.len() ==> #[trigger] r[k] < i && spec_should_delete(
                candidates@[r[k] as int],
            ),
            forall|k: int, l: int| 0 <= k < l < r.len() ==> #[trigger] r[k] < #[trigger] r[l],
            forall|j: int|
                0 <= j < i && #[trigger] spec_should_delete(candidates@[j]) ==> exists|k: int|
                    0 <= k < r.len() && r[k] == j,
    {
        let c = &candidates[i];
        let expired = match c.age {
            Some((secs, nanos)) => is_expired_crash_dump(secs, nanos),
            None => false,
        };
        if c.is_file && expired {
            let ghost old_r = r@;
            r.push(i);
            assert forall|j: int|
                0 <= j < i + 1 && #[trigger] spec_should_delete(candidates@[j]) implies exists|
                    k: int,
                | 0 <= k < r.len() && r[k] == j by {
                if j < i {
                    let k = choose|k: int| 0 <= k < old_r.len() && old_r[k] == j;
                    assert(r[k] == j);
                } else {
                    assert(r[r.len() - 1] == j);
                }
            }
        }
    }
    r
}

} // verus!
