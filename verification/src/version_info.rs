//! Minecraft file versions and the match of a package version against the
//! Minecraft versions that a Latite build supports.
use vstd::prelude::*;
use vstd::utf8::encode_utf8;

use crate::text::{
    all_digits, decimal, decimal_chars, is_ascii_digit, parse_u16, parse_u16_chars, split,
    split_chars, string_from_chars, string_views, trim, trim_chars, trim_start_v,
    trim_start_v_chars, char_vec_views, chars_of, decimal_string, lemma_split_nonempty,
    is_whitespace, trim_start, trim_end, lemma_trim_end_append,
};

verus! {

/// Why the version of a file could not be read.
pub enum FileVersionError {
    /// The file carries no version resource.
    MissingVersionInfo { path: String },
    /// Any other failure, with its message.
    Other(String),
}

impl FileVersionError {
    pub fn is_missing_version_info(&self) -> (r: bool)
        ensures
            r == (self is MissingVersionInfo),
    {
        match self {
            FileVersionError::MissingVersionInfo { .. } => true,
            FileVersionError::Other(_) => false,
        }
    }

    /// The text that the error is shown as.
    pub fn message(&self) -> (r: String)
        ensures
            r@ == file_version_error_message(*self),
    {
        match self {
            FileVersionError::MissingVersionInfo { path } => {
                let mut r = String::from_str("No file version information is available for ");
                r.append(path.as_str());
                r.append(".");
                r
            },
            FileVersionError::Other(message) => message.clone(),
        }
    }
}

pub open spec fn file_version_error_message(e: FileVersionError) -> Seq<char> {
    match e {
        FileVersionError::MissingVersionInfo { path } => "No file version information is available for "@
            + path@ + "."@,
        FileVersionError::Other(message) => message@,
    }
}

/// The high 16 bits of a 32-bit value.
pub fn hiword(value: u32) -> (r: u16)
    ensures
        r == value / 0x10000,
{
    assert((value >> 16u32) as u16 == value / 0x10000) by (bit_vector);
    (value >> 16) as u16
}

/// The low 16 bits of a 32-bit value.
pub fn loword(value: u32) -> (r: u16)
    ensures
        r == value % 0x10000,
{
    assert(value as u16 == value % 0x10000) by (bit_vector);
    value as u16
}

/// `major.minor.build` of a fixed file version whose most and least
/// significant halves are `ms` and `ls`.
pub open spec fn spec_file_version_text(ms: u32, ls: u32) -> Seq<char> {
    decimal((ms / 0x10000) as nat) + seq!['.'] + decimal((ms % 0x10000) as nat) + seq!['.']
        + decimal((ls / 0x10000) as nat)
}

/// The version text of a fixed file version: major and minor from the most
/// significant half, build from the high word of the least significant half.
pub fn format_file_version(ms: u32, ls: u32) -> (r: String)
    ensures
        r@ == spec_file_version_text(ms, ls),
{
    let major = hiword(ms);
    let minor = loword(ms);
    let build = hiword(ls);
    let mut chars = decimal_chars(major as u128);
    chars.push('.');
    let minor_chars = decimal_chars(minor as u128);
    let mut i: usize = 0;
    let ghost base = chars@;
    while i < minor_chars.len()
        invariant
            i <= minor_chars.len(),
            chars@ == base + minor_chars@.take(i as int),
        decreases minor_chars.len() - i,
    {
        chars.push(minor_chars[i]);
        assert(minor_chars@.take(i + 1) =~= minor_chars@.take(i as int).push(minor_chars@[i as int]));
        i += 1;
    }
    chars.push('.');
    let build_chars = decimal_chars(build as u128);
    let ghost base2 = chars@;
    let mut k: usize = 0;
    while k < build_chars.len()
        invariant
            k <= build_chars.len(),
            chars@ == base2 + build_chars@.take(k as int),
        decreases build_chars.len() - k,
    {
        chars.push(build_chars[k]);
        assert(build_chars@.take(k + 1) =~= build_chars@.take(k as int).push(build_chars@[k as int]));
        k += 1;
    }
    assert(minor_chars@.take(minor_chars@.len() as int) =~= minor_chars@);
    assert(build_chars@.take(build_chars@.len() as int) =~= build_chars@);
    assert(chars@ =~= spec_file_version_text(ms, ls));
    string_from_chars(&chars)
}

/// A patch pattern character: an ASCII digit or the wildcard `x` / `X`.
pub open spec fn is_pattern_char(c: char) -> bool {
    is_ascii_digit(c) || c == 'x' || c == 'X'
}

/// A version string without surrounding white space and without leading
/// `v` / `V` (and the white space after them).
pub open spec fn normalized_version(version: Seq<char>) -> Seq<char> {
    trim(trim_start_v(trim(version)))
}

/// `major.minor.patch` of a version string, after trimming white space and
/// leading `v` / `V`; the patch is a non-empty run of digits and wildcards.
pub open spec fn spec_parse_three_part_version(version: Seq<char>) -> Option<(u16, u16, Seq<char>)> {
    let parts = split(normalized_version(version), '.');
    if parts.len() == 3 && parse_u16(parts[0]) is Some && parse_u16(parts[1]) is Some
        && parts[2].len() > 0 && forall|i: int|
        0 <= i < parts[2].len() ==> is_pattern_char(#[trigger] parts[2][i]) {
        Some((parse_u16(parts[0])->0, parse_u16(parts[1])->0, parts[2]))
    } else {
        None
    }
}

/// A leading `v` or `V` does not change how a version parses: `v1.21.12`
/// parses as `1.21.12` (the `v` is followed directly by the version, not by
/// white space).
pub proof fn lemma_leading_v_ignored(v: char, version: Seq<char>)
    requires
        v == 'v' || v == 'V',
        version.len() == 0 || !is_whitespace(version[0]),
    ensures
        spec_parse_three_part_version(seq![v] + version) == spec_parse_three_part_version(version),
{
    let with_v = seq![v] + version;
    assert(trim_start(with_v) == with_v);
    if version.len() == 0 {
        assert(with_v =~= seq![v]);
        assert(seq![v].drop_first() =~= Seq::<char>::empty());
        assert(trim_end(with_v) == with_v);
        assert(trim_start_v(with_v) == trim_start_v(Seq::<char>::empty()));
        assert(trim(version) == version);
    } else {
        lemma_trim_end_append(seq![v], version);
        assert(trim_start(version) == version);
        assert(trim(with_v) == seq![v] + trim(version));
        assert((seq![v] + trim(version)).drop_first() =~= trim(version));
    }
    assert(normalized_version(with_v) == normalized_version(version));
}

pub open spec fn is_wildcard_byte(b: u8) -> bool {
    b == 0x78 || b == 0x58
}

pub open spec fn is_digit_byte(b: u8) -> bool {
    0x30 <= b <= 0x39
}

/// The pattern matches the start of the version, byte by byte: a wildcard
/// stands for any ASCII digit, any other byte for itself.
pub open spec fn pattern_matches_prefix(pattern: Seq<u8>, version: Seq<u8>) -> bool {
    &&& pattern.len() <= version.len()
    &&& forall|i: int|
        0 <= i < pattern.len() ==> if is_wildcard_byte(#[trigger] pattern[i]) {
            is_digit_byte(version[i])
        } else {
            pattern[i] == version[i]
        }
}

/// The number of bytes that are not wildcards.
pub open spec fn concrete_count(bytes: Seq<u8>) -> nat
    decreases bytes.len(),
{
    if bytes.len() == 0 {
        0
    } else {
        concrete_count(bytes.drop_last()) + if is_wildcard_byte(bytes.last()) {
            0nat
        } else {
            1nat
        }
    }
}

/// How specific a patch pattern is: its length in bytes, then the number of
/// bytes in it that are not wildcards.
pub open spec fn specificity(patch: Seq<char>) -> (nat, nat) {
    (encode_utf8(patch).len(), concrete_count(encode_utf8(patch)))
}

/// Lexicographic `>=` on specificities.
pub open spec fn at_least_as_specific(a: (nat, nat), b: (nat, nat)) -> bool {
    a.0 > b.0 || (a.0 == b.0 && a.1 >= b.1)
}

/// The patch pattern of `version` when it names the package's major and
/// minor version and its pattern matches the start of the package build
/// number written in decimal.
pub open spec fn supported_patch(version: Seq<char>, major: u16, minor: u16, build: u16) -> Option<
    Seq<char>,
> {
    match spec_parse_three_part_version(version) {
        Some((v_major, v_minor, patch)) => if v_major == major && v_minor == minor
            && pattern_matches_prefix(encode_utf8(patch), encode_utf8(decimal(build as nat))) {
            Some(patch)
        } else {
            None
        },
        None => None,
    }
}

/// The specificity of the supported version at `j`.
pub open spec fn key_at(versions: Seq<Seq<char>>, j: int, major: u16, minor: u16, build: u16) -> (
    nat,
    nat,
) {
    specificity(supported_patch(versions[j], major, minor, build)->0)
}

/// The index of the matching supported version that is most specific; of
/// equally specific ones, the last.
pub open spec fn most_specific_match(
    versions: Seq<Seq<char>>,
    major: u16,
    minor: u16,
    build: u16,
) -> Option<int>
    decreases versions.len(),
{
    if versions.len() == 0 {
        None
    } else {
        let prev = most_specific_match(versions.drop_last(), major, minor, build);
        let last = versions.len() - 1;
        match supported_patch(versions.last(), major, minor, build) {
            None => prev,
            Some(patch) => match prev {
                None => Some(last),
                Some(j) => if at_least_as_specific(
                    specificity(patch),
                    key_at(versions, j, major, minor, build),
                ) {
                    Some(last)
                } else {
                    prev
                },
            },
        }
    }
}

pub proof fn lemma_most_specific_match_in_range(
    versions: Seq<Seq<char>>,
    major: u16,
    minor: u16,
    build: u16,
)
    ensures
        most_specific_match(versions, major, minor, build) matches Some(j) ==> 0 <= j
            < versions.len() && supported_patch(versions[j], major, minor, build) is Some,
    decreases versions.len(),
{
    if versions.len() > 0 {
        lemma_most_specific_match_in_range(versions.drop_last(), major, minor, build);
    }
}

/// Of the supported versions, the one chosen for a package version matches
/// it, and no other matching one is more specific; there is none exactly
/// when no supported version matches, and of equally specific matches the
/// last is chosen.
pub proof fn lemma_most_specific_match_is_best(
    versions: Seq<Seq<char>>,
    major: u16,
    minor: u16,
    build: u16,
)
    ensures
        (most_specific_match(versions, major, minor, build) is None) == (forall|j: int|
            0 <= j < versions.len() ==> #[trigger] supported_patch(versions[j], major, minor, build)
                is None),
        most_specific_match(versions, major, minor, build) matches Some(i) ==> {
            &&& 0 <= i < versions.len()
            &&& supported_patch(versions[i], major, minor, build) is Some
            &&& forall|j: int|
                0 <= j < versions.len() && #[trigger] supported_patch(versions[j], major, minor, build)
                    is Some ==> at_least_as_specific(
                    key_at(versions, i, major, minor, build),
                    key_at(versions, j, major, minor, build),
                )
            &&& forall|j: int|
                i < j < versions.len() && #[trigger] supported_patch(versions[j], major, minor, build)
                    is Some ==> !at_least_as_specific(
                    key_at(versions, j, major, minor, build),
                    key_at(versions, i, major, minor, build),
                )
        },
    decreases versions.len(),
{
    if versions.len() > 0 {
        let init = versions.drop_last();
        lemma_most_specific_match_is_best(init, major, minor, build);
        lemma_most_specific_match_in_range(init, major, minor, build);
        let last = versions.len() - 1;
        assert forall|j: int| 0 <= j < init.len() implies init[j] == versions[j] by {}
        assert forall|j: int| 0 <= j < init.len() implies key_at(init, j, major, minor, build)
            == key_at(versions, j, major, minor, build) by {}
        if supported_patch(versions.last(), major, minor, build) is None {
            if most_specific_match(versions, major, minor, build) is None {
                assert forall|j: int| 0 <= j < versions.len() implies #[trigger] supported_patch(
                    versions[j],
                    major,
                    minor,
                    build,
                ) is None by {
                    if j < last {
                        assert(supported_patch(init[j], major, minor, build) is None);
                    }
                }
            }
        }
    }
}

/// The supported Minecraft version that a package version
/// `major.minor.build` falls under: a supported `major.minor.patch` whose
/// patch pattern matches the start of the build number; the most specific
/// such one, and of equally specific ones the last.
pub fn match_supported_package_version<'a>(
    package_major: u16,
    package_minor: u16,
    package_build: u16,
    supported_versions: &'a [String],
) -> (r: Option<&'a str>)
    ensures
        match most_specific_match(
            string_views(supported_versions@),
            package_major,
            package_minor,
            package_build,
        ) {
            Some(i) => r matches Some(s) && s@ == supported_versions@[i]@,
            None => r is None,
        },
{
    let ghost views = string_views(supported_versions@);
    let build_text = decimal_string(package_build as u128);
    let n = supported_versions.len();
    let mut best: Option<usize> = None;
    let mut best_key: (usize, usize) = (0, 0);
    assert(views.take(0) =~= Seq::<Seq<char>>::empty());
    for i in 0..n
        invariant
            n == supported_versions@.len() == views.len(),
            views == string_views(supported_versions@),
            build_text@ == decimal(package_build as nat),
            match best {
                None => most_specific_match(
                    views.take(i as int),
                    package_major,
                    package_minor,
                    package_build,
                ) is None,
                Some(j) => most_specific_match(
                    views.take(i as int),
                    package_major,
                    package_minor,
                    package_build,
                ) == Some(j as int) && j < i && (best_key.0 as nat, best_key.1 as nat) == key_at(
                    views,
                    j as int,
                    package_major,
                    package_minor,
                    package_build,
                ),
            },
    {
        let ghost prefix = views.take(i + 1);
        assert(prefix.drop_last() =~= views.take(i as int));
        assert(prefix.last() == supported_versions@[i as int]@);
        proof {
            lemma_most_specific_match_in_range(views.take(i as int), package_major, package_minor, package_build);
        }
        match parse_three_part_version(supported_versions[i].as_str()) {
            None => {},
            Some((major, minor, patch)) => {
                if major == package_major && minor == package_minor
                    && version_pattern_matches_prefix(patch.as_str(), build_text.as_str()) {
                    let key = patch_specificity(patch.as_str());
                    match best {
                        None => {
                            best = Some(i);
                            best_key = key;
                        },
                        Some(j) => {
                            assert(key_at(prefix, j as int, package_major, package_minor, package_build)
                                == key_at(views, j as int, package_major, package_minor, package_build));
                            if key.0 > best_key.0 || (key.0 == best_key.0 && key.1 >= best_key.1) {
                                best = Some(i);
                                best_key = key;
                            }
                        },
                    }
                }
            },
        }
    }
    assert(views.take(n as int) =~= views);
    match best {
        Some(j) => Some(supported_versions[j].as_str()),
        None => None,
    }
}

/// The byte length of a patch pattern and the number of its bytes that are
/// not wildcards.
fn patch_specificity(patch: &str) -> (r: (usize, usize))
    ensures
        (r.0 as nat, r.1 as nat) == specificity(patch@),
{
    let bytes = patch.as_bytes();
    let n = bytes.len();
    let mut count: usize = 0;
    assert(bytes@.take(0) =~= Seq::<u8>::empty());
    for i in 0..n
        invariant
            n == bytes@.len(),
            bytes@ == encode_utf8(patch@),
            count as nat == concrete_count(bytes@.take(i as int)),
            count <= i,
    {
        assert(bytes@.take(i + 1).drop_last() =~= bytes@.take(i as int));
        let b = bytes[i];
        if !(b == 0x78 || b == 0x58) {
            count += 1;
        }
    }
    assert(bytes@.take(n as int) =~= bytes@);
    (n, count)
}

/// The patch pattern matches the start of the version text byte by byte,
/// where `x` or `X` in the pattern stands for any ASCII digit.
fn version_pattern_matches_prefix(pattern: &str, version: &str) -> (r: bool)
    ensures
        r == pattern_matches_prefix(encode_utf8(pattern@), encode_utf8(version@)),
{
    let p = pattern.as_bytes();
    let v = version.as_bytes();
    if p.len() > v.len() {
        return false;
    }
    let n = p.len();
    for i in 0..n
        invariant
            n == p@.len() <= v@.len(),
            p@ == encode_utf8(pattern@),
            v@ == encode_utf8(version@),
            forall|k: int|
                0 <= k < i ==> if is_wildcard_byte(#[trigger] p@[k]) {
                    is_digit_byte(v@[k])
                } else {
                    p@[k] == v@[k]
                },
    {
        let pb = p[i];
        let vb = v[i];
        let ok = if pb == 0x78 || pb == 0x58 {
            0x30 <= vb && vb <= 0x39
        } else {
            pb == vb
        };
        if !ok {
            return false;
        }
    }
    true
}

/// `version` without surrounding white space and leading `v` / `V`, as
/// characters.
pub fn normalized_version_chars(version: &str) -> (r: Vec<char>)
    ensures
        r@ == normalized_version(version@),
{
    let chars = chars_of(version);
    let trimmed = trim_chars(&chars);
    let without_v = trim_start_v_chars(&trimmed);
    trim_chars(&without_v)
}

/// `major.minor.patch` of a supported Minecraft version string.
fn parse_three_part_version(version: &str) -> (r: Option<(u16, u16, String)>)
    ensures
        match spec_parse_three_part_version(version@) {
            Some((major, minor, patch)) => r matches Some((a, b, p)) && a == major && b == minor
                && p@ == patch,
            None => r is None,
        },
{
    let normalized = normalized_version_chars(version);
    let parts = split_chars(&normalized, '.');
    let ghost spec_parts = split(normalized_version(version@), '.');
    assert(char_vec_views(parts@) == spec_parts);
    assert(parts@.len() == spec_parts.len());
    if parts.len() != 3 {
        return None;
    }
    assert(parts@[0]@ == spec_parts[0]);
    assert(parts@[1]@ == spec_parts[1]);
    assert(parts@[2]@ == spec_parts[2]);
    let major = match parse_u16_chars(&parts[0]) {
        Some(value) => value,
        None => return None,
    };
    let minor = match parse_u16_chars(&parts[1]) {
        Some(value) => value,
        None => return None,
    };
    let patch = &parts[2];
    if patch.len() == 0 {
        return None;
    }
    let n = patch.len();
    for i in 0..n
        invariant
            n == patch@.len(),
            spec_parts == split(normalized_version(version@), '.'),
            spec_parts.len() == 3,
            patch@ == spec_parts[2],
            forall|k: int| 0 <= k < i ==> is_pattern_char(#[trigger] patch@[k]),
    {
        let c = patch[i];
        if !((c >= '0' && c <= '9') || c == 'x' || c == 'X') {
            assert(!is_pattern_char(patch@[i as int]));
            return None;
        }
    }
    Some((major, minor, string_from_chars(patch)))
}

} // verus!
