//! What a Latite DLL reports about itself, and the comparison of version
//! strings against the Minecraft versions it supports.
use vstd::prelude::*;
use vstd::utf8::encode_utf8;

use crate::text::{
    byte_lower, bytes_eq_ignore_ascii_case, chars_of, decimal, decimal_string, string_from_chars,
    string_views, to_lower_byte, trim, trim_chars,
};
use crate::version_info::{is_digit_byte, is_wildcard_byte, normalized_version, normalized_version_chars};

verus! {

/// The most supported Minecraft versions that a DLL may report.
pub const MAX_SUPPORTED_MINECRAFT_VERSIONS: u32 = 512;

/// The version of a Latite DLL and the Minecraft versions it supports.
pub struct LatiteDllMetadata {
    version: String,
    supported_minecraft_versions: Vec<String>,
}

impl View for LatiteDllMetadata {
    type V = (Seq<char>, Seq<Seq<char>>);

    closed spec fn view(&self) -> (Seq<char>, Seq<Seq<char>>) {
        (self.version@, string_views(self.supported_minecraft_versions@))
    }
}

impl LatiteDllMetadata {
    /// The metadata read from a DLL's exports.
    pub fn new(version: String, supported_minecraft_versions: Vec<String>) -> (r: Self)
        ensures
            r@ == (version@, string_views(supported_minecraft_versions@)),
    {
        LatiteDllMetadata { version, supported_minecraft_versions }
    }

    pub fn version(&self) -> (r: &str)
        ensures
            r@ == self@.0,
    {
        self.version.as_str()
    }

    pub fn supported_minecraft_versions(&self) -> (r: &[String])
        ensures
            string_views(r@) == self@.1,
    {
        self.supported_minecraft_versions.as_slice()
    }

    /// Some supported version pattern matches `minecraft_version`.
    pub fn supports_minecraft_version(&self, minecraft_version: &str) -> (r: bool)
        ensures
            r == exists|i: int|
                0 <= i < self@.1.len() && spec_supported_version_matches(
                    #[trigger] self@.1[i],
                    minecraft_version@,
                ),
    {
        let n = self.supported_minecraft_versions.len();
        for i in 0..n
            invariant
                n == self@.1.len(),
                forall|k: int|
                    0 <= k < i ==> !spec_supported_version_matches(
                        #[trigger] self@.1[k],
                        minecraft_version@,
                    ),
        {
            if supported_version_matches(self.supported_minecraft_versions[i].as_str(), minecraft_version) {
                assert(self@.1[i as int] == self.supported_minecraft_versions@[i as int]@);
                return true;
            }
        }
        false
    }
}

/// Two version strings are the same once normalized, ignoring ASCII case.
pub open spec fn spec_versions_equivalent(left: Seq<char>, right: Seq<char>) -> bool {
    bytes_eq_ignore_ascii_case(
        encode_utf8(normalized_version(left)),
        encode_utf8(normalized_version(right)),
    )
}

/// One byte of a supported-version pattern against one byte of a version: a
/// wildcard stands for an ASCII digit, any other byte for itself in either
/// ASCII case.
pub open spec fn pattern_byte_matches(p: u8, v: u8) -> bool {
    if is_wildcard_byte(p) {
        is_digit_byte(v)
    } else {
        byte_lower(p) == byte_lower(v)
    }
}

/// The normalized pattern and version have the same length, and each byte
/// of the pattern matches the byte of the version at the same place.
pub open spec fn spec_supported_version_matches(pattern: Seq<char>, version: Seq<char>) -> bool {
    let p = encode_utf8(normalized_version(pattern));
    let v = encode_utf8(normalized_version(version));
    &&& p.len() == v.len()
    &&& forall|i: int| 0 <= i < p.len() ==> pattern_byte_matches(#[trigger] p[i], v[i])
}

/// `version` trimmed, without leading `v` / `V`, trimmed again.
fn normalize_version(version: &str) -> (r: String)
    ensures
        r@ == normalized_version(version@),
{
    let chars = normalized_version_chars(version);
    string_from_chars(&chars)
}

/// The two versions are the same after normalization, ignoring ASCII case.
pub fn versions_equivalent(left: &str, right: &str) -> (r: bool)
    ensures
        r == spec_versions_equivalent(left@, right@),
{
    let l = normalize_version(left);
    let r = normalize_version(right);
    let a = l.as_str().as_bytes();
    let b = r.as_str().as_bytes();
    if a.len() != b.len() {
        return false;
    }
    let n = a.len();
    for i in 0..n
        invariant
            n == a@.len() == b@.len(),
            a@ == encode_utf8(normalized_version(left@)),
            b@ == encode_utf8(normalized_version(right@)),
            forall|k: int| 0 <= k < i ==> byte_lower(#[trigger] a@[k]) == byte_lower(b@[k]),
    {
        if to_lower_byte(a[i]) != to_lower_byte(b[i]) {
            return false;
        }
    }
    true
}

/// A supported-version pattern such as `1.21.1x` matches a Minecraft
/// version: same length once both are normalized, `x` / `X` standing for any
/// ASCII digit and every other byte matching itself in either ASCII case.
pub fn supported_version_matches(pattern: &str, minecraft_version: &str) -> (r: bool)
    ensures
        r == spec_supported_version_matches(pattern@, minecraft_version@),
{
    let p_text = normalize_version(pattern);
    let v_text = normalize_version(minecraft_version);
    let p = p_text.as_str().as_bytes();
    let v = v_text.as_str().as_bytes();
    if p.len() != v.len() {
        return false;
    }
    let n = p.len();
    for i in 0..n
        invariant
            n == p@.len() == v@.len(),
            p@ == encode_utf8(normalized_version(pattern@)),
            v@ == encode_utf8(normalized_version(minecraft_version@)),
            forall|k: int| 0 <= k < i ==> pattern_byte_matches(#[trigger] p@[k], v@[k]),
    {
        let pb = p[i];
        let vb = v[i];
        let ok = if pb == 0x78 || pb == 0x58 {
            0x30 <= vb && vb <= 0x39
        } else {
            to_lower_byte(pb) == to_lower_byte(vb)
        };
        if !ok {
            return false;
        }
    }
    true
}

/// `versions_equivalent` is reflexive.
pub proof fn lemma_versions_equivalent_reflexive(version: Seq<char>)
    ensures
        spec_versions_equivalent(version, version),
{
}

/// `versions_equivalent` is symmetric.
pub proof fn lemma_versions_equivalent_symmetric(left: Seq<char>, right: Seq<char>)
    ensures
        spec_versions_equivalent(left, right) == spec_versions_equivalent(right, left),
{
}

/// `versions_equivalent` is transitive.
pub proof fn lemma_versions_equivalent_transitive(a: Seq<char>, b: Seq<char>, c: Seq<char>)
    requires
        spec_versions_equivalent(a, b),
        spec_versions_equivalent(b, c),
    ensures
        spec_versions_equivalent(a, c),
{
    let x = encode_utf8(normalized_version(a));
    let y = encode_utf8(normalized_version(b));
    let z = encode_utf8(normalized_version(c));
    assert forall|i: int| 0 <= i < x.len() implies byte_lower(#[trigger] x[i]) == byte_lower(
        z[i],
    ) by {
        assert(byte_lower(x[i]) == byte_lower(y[i]));
        assert(byte_lower(y[i]) == byte_lower(z[i]));
    }
}

/// A supported-version pattern without wildcards matches exactly the
/// versions that are equivalent to it.
pub proof fn lemma_pattern_without_wildcards_matches_equivalent(
    pattern: Seq<char>,
    version: Seq<char>,
)
    requires
        forall|i: int|
            0 <= i < encode_utf8(normalized_version(pattern)).len() ==> !is_wildcard_byte(
                #[trigger] encode_utf8(normalized_version(pattern))[i],
            ),
    ensures
        spec_supported_version_matches(pattern, version) == spec_versions_equivalent(
            pattern,
            version,
        ),
{
    let p = encode_utf8(normalized_version(pattern));
    let v = encode_utf8(normalized_version(version));
    if spec_versions_equivalent(pattern, version) {
        assert forall|i: int| 0 <= i < p.len() implies pattern_byte_matches(#[trigger] p[i], v[i]) by {
            assert(!is_wildcard_byte(p[i]));
        }
    }
    if spec_supported_version_matches(pattern, version) {
        assert forall|i: int| 0 <= i < p.len() implies byte_lower(#[trigger] p[i]) == byte_lower(
            v[i],
        ) by {
            assert(pattern_byte_matches(p[i], v[i]));
            assert(!is_wildcard_byte(p[i]));
        }
    }
}

/// The error for an exported string: a null pointer (`None`) or a value
/// that is empty once trimmed is refused; any other value is kept.
pub open spec fn spec_check_exported_string(value: Option<Seq<char>>, export_name: Seq<char>) -> Result<
    Seq<char>,
    Seq<char>,
> {
    match value {
        None => Err(export_name + " returned a null string pointer."@),
        Some(text) => if trim(text).len() == 0 {
            Err(export_name + " returned an empty string."@)
        } else {
            Ok(text)
        },
    }
}

/// Checks a string that a DLL export returned; `None` stands for a null
/// pointer.
pub fn check_exported_string(value: Option<String>, export_name: &str) -> (r: Result<String, String>)
    ensures
        match spec_check_exported_string(
            match value {
                Some(v) => Some(v@),
                None => None,
            },
            export_name@,
        ) {
            Ok(text) => r matches Ok(s) && s@ == text,
            Err(message) => r matches Err(e) && e@ == message,
        },
{
    match value {
        None => {
            let mut message = String::from_str(export_name);
            message.append(" returned a null string pointer.");
            Err(message)
        },
        Some(text) => {
            let chars = chars_of(text.as_str());
            let trimmed = trim_chars(&chars);
            if trimmed.len() == 0 {
                let mut message = String::from_str(export_name);
                message.append(" returned an empty string.");
                Err(message)
            } else {
                Ok(text)
            }
        },
    }
}

/// The count of supported versions that a DLL reported is refused when it
/// is above the limit.
pub fn check_supported_count(count: u32) -> (r: Result<(), String>)
    ensures
        r is Ok <==> count <= MAX_SUPPORTED_MINECRAFT_VERSIONS,
        r matches Err(e) ==> e@ == "LatiteGetSupportedMinecraftVersionCount returned "@ + decimal(
            count as nat,
        ) + ", which is larger than the supported limit of 512."@,
{
    if count > MAX_SUPPORTED_MINECRAFT_VERSIONS {
        let mut message = String::from_str("LatiteGetSupportedMinecraftVersionCount returned ");
        let count_text = decimal_string(count as u128);
        message.append(count_text.as_str());
        message.append(", which is larger than the supported limit of 512.");
        Err(message)
    } else {
        Ok(())
    }
}

/// The error when the DLL lacks one of the functions it must export.
pub fn missing_export_message(export_name: &str) -> (r: String)
    ensures
        r@ == "DLL does not export required function "@ + export_name@ + "."@,
{
    let mut message = String::from_str("DLL does not export required function ");
    message.append(export_name);
    message.append(".");
    message
}

/// The error for the supported version at `index`.
pub fn indexed_export_error(error: String, index: u32) -> (r: String)
    ensures
        r@ == error@ + " at index "@ + decimal(index as nat),
{
    let mut message = error;
    message.append(" at index ");
    let index_text = decimal_string(index as u128);
    message.append(index_text.as_str());
    message
}

} // verus!
