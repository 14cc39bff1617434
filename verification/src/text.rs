//! Character-level text helpers shared by the launcher's parsers and
//! formatters, each with the mathematical meaning it is proved against.
use vstd::prelude::*;
use vstd::utf8::encode_utf8;

verus! {

/// Unicode `White_Space`, the property that `char::is_whitespace` tests.
pub open spec fn is_whitespace(c: char) -> bool {
    ||| '\u{9}' <= c <= '\u{d}'
    ||| c == ' '
    ||| c == '\u{85}'
    ||| c == '\u{a0}'
    ||| c == '\u{1680}'
    ||| '\u{2000}' <= c <= '\u{200a}'
    ||| c == '\u{2028}'
    ||| c == '\u{2029}'
    ||| c == '\u{202f}'
    ||| c == '\u{205f}'
    ||| c == '\u{3000}'
}

/// `s` without its leading white space.
pub open spec fn trim_start(s: Seq<char>) -> Seq<char>
    decreases s.len(),
{
    if s.len() > 0 && is_whitespace(s[0]) {
        trim_start(s.drop_first())
    } else {
        s
    }
}

/// `s` without its trailing white space.
pub open spec fn trim_end(s: Seq<char>) -> Seq<char>
    decreases s.len(),
{
    if s.len() > 0 && is_whitespace(s.last()) {
        trim_end(s.drop_last())
    } else {
        s
    }
}

/// `s` without white space at either end (`str::trim`).
pub open spec fn trim(s: Seq<char>) -> Seq<char> {
    trim_end(trim_start(s))
}

/// `s` without any run of leading `v` / `V` characters.
pub open spec fn trim_start_v(s: Seq<char>) -> Seq<char>
    decreases s.len(),
{
    if s.len() > 0 && (s[0] == 'v' || s[0] == 'V') {
        trim_start_v(s.drop_first())
    } else {
        s
    }
}

/// The pieces of `s` between occurrences of `sep` (`str::split` with a
/// character pattern): never empty, and one piece more than there are
/// separators.
pub open spec fn split(s: Seq<char>, sep: char) -> Seq<Seq<char>>
    decreases s.len(),
{
    if s.len() == 0 {
        seq![Seq::<char>::empty()]
    } else {
        let init = split(s.drop_last(), sep);
        if s.last() == sep {
            init.push(Seq::<char>::empty())
        } else {
            init.update(init.len() - 1, init.last().push(s.last()))
        }
    }
}

/// `s` with every `from` replaced by `to`.
pub open spec fn replace_char(s: Seq<char>, from: char, to: char) -> Seq<char> {
    Seq::new(s.len(), |i: int| if s[i] == from { to } else { s[i] })
}

pub open spec fn is_ascii_upper(c: char) -> bool {
    'A' <= c <= 'Z'
}

pub open spec fn is_ascii_lower(c: char) -> bool {
    'a' <= c <= 'z'
}

/// `char::to_ascii_lowercase`.
pub open spec fn ascii_lower(c: char) -> char {
    if is_ascii_upper(c) {
        ((c as u32) + 32) as char
    } else {
        c
    }
}

/// `char::to_ascii_uppercase`.
pub open spec fn ascii_upper(c: char) -> char {
    if is_ascii_lower(c) {
        ((c as u32) - 32) as char
    } else {
        c
    }
}

pub open spec fn lower_seq(s: Seq<char>) -> Seq<char> {
    Seq::new(s.len(), |i: int| ascii_lower(s[i]))
}

pub open spec fn upper_seq(s: Seq<char>) -> Seq<char> {
    Seq::new(s.len(), |i: int| ascii_upper(s[i]))
}

pub open spec fn is_ascii_digit(c: char) -> bool {
    '0' <= c <= '9'
}

/// The value of an ASCII digit.
pub open spec fn digit_value(c: char) -> nat {
    ((c as int) - ('0' as int)) as nat
}

/// The decimal value of a string of ASCII digits.
pub open spec fn digits_value(d: Seq<char>) -> nat
    decreases d.len(),
{
    if d.len() == 0 {
        0
    } else {
        digits_value(d.drop_last()) * 10 + digit_value(d.last())
    }
}

pub open spec fn all_digits(d: Seq<char>) -> bool {
    forall|i: int| 0 <= i < d.len() ==> is_ascii_digit(#[trigger] d[i])
}

/// `str::parse::<u16>`: an optional `+`, then at least one ASCII digit,
/// with a value that fits in `u16`.
pub open spec fn parse_u16(s: Seq<char>) -> Option<u16> {
    let d = if s.len() > 1 && s[0] == '+' {
        s.drop_first()
    } else {
        s
    };
    if d.len() > 0 && all_digits(d) && digits_value(d) <= u16::MAX {
        Some(digits_value(d) as u16)
    } else {
        None
    }
}

/// The ASCII digit for `d` (below ten).
pub open spec fn digit_char(d: nat) -> char {
    if d == 0 {
        '0'
    } else if d == 1 {
        '1'
    } else if d == 2 {
        '2'
    } else if d == 3 {
        '3'
    } else if d == 4 {
        '4'
    } else if d == 5 {
        '5'
    } else if d == 6 {
        '6'
    } else if d == 7 {
        '7'
    } else if d == 8 {
        '8'
    } else {
        '9'
    }
}

/// The decimal text of `n`, without leading zeros (`n.to_string()`).
pub open spec fn decimal(n: nat) -> Seq<char>
    decreases n,
{
    if n < 10 {
        seq![digit_char(n)]
    } else {
        decimal(n / 10).push(digit_char(n % 10))
    }
}

/// The lower-case hexadecimal digit for `d` (below sixteen).
pub open spec fn hex_digit_char(d: nat) -> char {
    if d < 10 {
        digit_char(d)
    } else if d == 10 {
        'a'
    } else if d == 11 {
        'b'
    } else if d == 12 {
        'c'
    } else if d == 13 {
        'd'
    } else if d == 14 {
        'e'
    } else {
        'f'
    }
}

/// The last `width` lower-case hexadecimal digits of `n`, zero padded.
pub open spec fn hex_fixed(n: nat, width: nat) -> Seq<char>
    decreases width,
{
    if width == 0 {
        Seq::<char>::empty()
    } else {
        hex_fixed(n / 16, (width - 1) as nat).push(hex_digit_char(n % 16))
    }
}

/// The lower-case hexadecimal text of `n`, without leading zeros.
pub open spec fn hex(n: nat) -> Seq<char>
    decreases n,
{
    if n < 16 {
        seq![hex_digit_char(n)]
    } else {
        hex(n / 16).push(hex_digit_char(n % 16))
    }
}

/// `prefix` is a prefix of `s`.
pub open spec fn starts_with(s: Seq<char>, prefix: Seq<char>) -> bool {
    prefix.len() <= s.len() && s.subrange(0, prefix.len() as int) == prefix
}

/// `needle` occurs in `s` at `i`.
pub open spec fn occurs_at(s: Seq<char>, needle: Seq<char>, i: int) -> bool {
    0 <= i && i + needle.len() <= s.len() && s.subrange(i, i + needle.len()) == needle
}

/// `needle` occurs somewhere in `s` (`str::contains`).
pub open spec fn contains(s: Seq<char>, needle: Seq<char>) -> bool {
    exists|i: int| occurs_at(s, needle, i)
}

/// The views of a sequence of strings.
pub open spec fn string_views(v: Seq<String>) -> Seq<Seq<char>> {
    v.map_values(|s: String| s@)
}

/// The views of a sequence of character vectors.
pub open spec fn char_vec_views(v: Seq<Vec<char>>) -> Seq<Seq<char>> {
    v.map_values(|s: Vec<char>| s@)
}

/// The pieces joined with `sep` between neighbours (`[String]::join`).
pub open spec fn join(parts: Seq<Seq<char>>, sep: Seq<char>) -> Seq<char>
    decreases parts.len(),
{
    if parts.len() == 0 {
        Seq::<char>::empty()
    } else if parts.len() == 1 {
        parts[0]
    } else {
        join(parts.drop_last(), sep) + sep + parts.last()
    }
}

pub proof fn lemma_split_nonempty(s: Seq<char>, sep: char)
    ensures
        split(s, sep).len() >= 1,
    decreases s.len(),
{
    if s.len() > 0 {
        lemma_split_nonempty(s.drop_last(), sep);
    }
}

/// No character of `s` is `c`.
pub open spec fn avoids(s: Seq<char>, c: char) -> bool {
    forall|k: int| 0 <= k < s.len() ==> s[k] != c
}

pub proof fn lemma_trim_start_avoids(s: Seq<char>, c: char)
    requires
        avoids(s, c),
    ensures
        avoids(trim_start(s), c),
    decreases s.len(),
{
    if s.len() > 0 && is_whitespace(s[0]) {
        lemma_trim_start_avoids(s.drop_first(), c);
    }
}

pub proof fn lemma_trim_end_avoids(s: Seq<char>, c: char)
    requires
        avoids(s, c),
    ensures
        avoids(trim_end(s), c),
    decreases s.len(),
{
    if s.len() > 0 && is_whitespace(s.last()) {
        lemma_trim_end_avoids(s.drop_last(), c);
    }
}

pub proof fn lemma_trim_avoids(s: Seq<char>, c: char)
    requires
        avoids(s, c),
    ensures
        avoids(trim(s), c),
{
    lemma_trim_start_avoids(s, c);
    lemma_trim_end_avoids(trim_start(s), c);
}

/// The pieces of a split avoid the separator and every character that the
/// whole avoids.
pub proof fn lemma_split_avoids(s: Seq<char>, sep: char, c: char)
    requires
        avoids(s, c),
    ensures
        forall|i: int| 0 <= i < split(s, sep).len() ==> avoids(#[trigger] split(s, sep)[i], c)
            && avoids(split(s, sep)[i], sep),
    decreases s.len(),
{
    if s.len() > 0 {
        lemma_split_avoids(s.drop_last(), sep, c);
        lemma_split_nonempty(s.drop_last(), sep);
        let init = split(s.drop_last(), sep);
        if s.last() != sep {
            assert(s.last() == s[s.len() - 1]);
            assert forall|i: int| 0 <= i < split(s, sep).len() implies avoids(
                #[trigger] split(s, sep)[i],
                c,
            ) && avoids(split(s, sep)[i], sep) by {
                if i == init.len() - 1 {
                    let p = init.last().push(s.last());
                    assert(split(s, sep)[i] == p);
                    assert forall|k: int| 0 <= k < p.len() implies p[k] != c && p[k] != sep by {
                        if k < init.last().len() {
                            assert(p[k] == init.last()[k]);
                        }
                    }
                }
            }
        }
    }
}

/// The first character left by `trim_start` is no white space.
pub proof fn lemma_trim_start_first(s: Seq<char>)
    ensures
        trim_start(s).len() > 0 ==> !is_whitespace(trim_start(s)[0]),
    decreases s.len(),
{
    if s.len() > 0 && is_whitespace(s[0]) {
        lemma_trim_start_first(s.drop_first());
    }
}

/// `trim_end` keeps a prefix whose last character is no white space.
pub proof fn lemma_trim_end_prefix(s: Seq<char>)
    ensures
        trim_end(s).len() <= s.len(),
        forall|k: int| 0 <= k < trim_end(s).len() ==> #[trigger] trim_end(s)[k] == s[k],
        trim_end(s).len() > 0 ==> !is_whitespace(trim_end(s).last()),
    decreases s.len(),
{
    if s.len() > 0 && is_whitespace(s.last()) {
        lemma_trim_end_prefix(s.drop_last());
    }
}

/// A non-empty trimmed text starts and ends with a character that is no
/// white space.
pub proof fn lemma_trim_edges(s: Seq<char>)
    ensures
        trim(s).len() > 0 ==> !is_whitespace(trim(s)[0]) && !is_whitespace(trim(s).last()),
{
    lemma_trim_start_first(s);
    lemma_trim_end_prefix(trim_start(s));
}

/// Splitting a text without the separator gives the text alone.
pub proof fn lemma_split_without_separator(s: Seq<char>, sep: char)
    requires
        avoids(s, sep),
    ensures
        split(s, sep) == seq![s],
    decreases s.len(),
{
    if s.len() > 0 {
        lemma_split_without_separator(s.drop_last(), sep);
        assert(s.last() == s[s.len() - 1]);
        assert(s.drop_last().push(s.last()) =~= s);
        assert(split(s, sep) =~= seq![s]);
    } else {
        assert(s =~= Seq::<char>::empty());
        assert(split(s, sep) =~= seq![s]);
    }
}

/// The first piece of `a + b`, where `a` has no separator and `b` is empty
/// or starts with one, is `a`.
pub proof fn lemma_split_first_piece(a: Seq<char>, b: Seq<char>, sep: char)
    requires
        avoids(a, sep),
        b.len() == 0 || b[0] == sep,
    ensures
        split(a + b, sep)[0] == a,
        b.len() > 0 ==> split(a + b, sep).len() >= 2,
    decreases b.len(),
{
    if b.len() == 0 {
        assert(a + b =~= a);
        lemma_split_without_separator(a, sep);
    } else if b.len() == 1 {
        lemma_split_without_separator(a, sep);
        assert((a + b).drop_last() =~= a);
        assert((a + b).last() == sep);
    } else {
        lemma_split_first_piece(a, b.drop_last(), sep);
        assert((a + b).drop_last() =~= a + b.drop_last());
    }
}

/// Trimming a text whose ends are no white space leaves it as it is.
pub proof fn lemma_trim_unchanged(s: Seq<char>)
    requires
        s.len() == 0 || (!is_whitespace(s[0]) && !is_whitespace(s.last())),
    ensures
        trim(s) == s,
{
    assert(trim_start(s) == s);
    assert(trim_end(s) == s);
}

/// Trailing white space of `a + b` is trailing white space of `b` when `b`
/// starts with a character that is none.
pub proof fn lemma_trim_end_append(a: Seq<char>, b: Seq<char>)
    requires
        b.len() > 0,
        !is_whitespace(b[0]),
    ensures
        trim_end(a + b) == a + trim_end(b),
    decreases b.len(),
{
    if is_whitespace(b.last()) {
        assert(b.len() > 1);
        lemma_trim_end_append(a, b.drop_last());
        assert((a + b).drop_last() =~= a + b.drop_last());
        assert((a + b).last() == b.last());
    } else {
        assert((a + b).last() == b.last());
    }
}

/// Trimming twice is trimming once.
pub proof fn lemma_trim_twice(s: Seq<char>)
    ensures
        trim(trim(s)) == trim(s),
{
    lemma_trim_edges(s);
    lemma_trim_unchanged(trim(s));
}

/// A separator and a piece without separators, appended to a text, add
/// that piece to the text's split.
pub proof fn lemma_split_push(x: Seq<char>, p: Seq<char>, sep: char)
    requires
        avoids(p, sep),
    ensures
        split(x + seq![sep] + p, sep) == split(x, sep).push(p),
    decreases p.len(),
{
    lemma_split_nonempty(x, sep);
    if p.len() == 0 {
        assert(x + seq![sep] + p =~= x.push(sep));
        assert((x + seq![sep] + p).drop_last() =~= x);
        assert(p =~= Seq::<char>::empty());
    } else {
        lemma_split_push(x, p.drop_last(), sep);
        let s = x + seq![sep] + p;
        assert(s.drop_last() =~= x + seq![sep] + p.drop_last());
        assert(s.last() == p[p.len() - 1]);
        assert(p.drop_last().push(p.last()) =~= p);
        assert(split(s, sep) =~= split(x, sep).push(p));
    }
}

/// `char::to_ascii_lowercase` gives the character itself or a lower-case
/// ASCII letter.
pub proof fn lemma_ascii_lower_char(c: char)
    ensures
        ascii_lower(c) == c || is_ascii_lower(ascii_lower(c)),
        !is_ascii_upper(ascii_lower(c)),
{
}

/// `char::to_ascii_uppercase` gives the character itself or an upper-case
/// ASCII letter.
pub proof fn lemma_ascii_upper_char(c: char)
    ensures
        ascii_upper(c) == c || is_ascii_upper(ascii_upper(c)),
{
}

/// `u8::to_ascii_lowercase`.
pub open spec fn byte_lower(b: u8) -> u8 {
    if 0x41 <= b <= 0x5a {
        (b + 32) as u8
    } else {
        b
    }
}

/// `[u8]::eq_ignore_ascii_case`.
pub open spec fn bytes_eq_ignore_ascii_case(a: Seq<u8>, b: Seq<u8>) -> bool {
    &&& a.len() == b.len()
    &&& forall|i: int| 0 <= i < a.len() ==> byte_lower(#[trigger] a[i]) == byte_lower(b[i])
}

/// A string with the given characters; trusted: std's `FromIterator<char>`
/// for `String` appends the characters in iteration order.
#[verifier::external_body]
pub(crate) fn string_from_chars(chars: &Vec<char>) -> (r: String)
    ensures
        r@ == chars@,
{
    chars.iter().collect()
}

/// The characters of `s`, in order.
pub fn chars_of(s: &str) -> (v: Vec<char>)
    ensures
        v@ == s@,
{
    let mut v: Vec<char> = Vec::new();
    for c in it: s.chars()
        invariant
            v@ == it.seq().take(it.index() as int),
    {
        v.push(c);
    }
    v
}

pub fn is_whitespace_char(c: char) -> (r: bool)
    ensures
        r == is_whitespace(c),
{
    (c >= '\u{9}' && c <= '\u{d}') || c == ' ' || c == '\u{85}' || c == '\u{a0}' || c
        == '\u{1680}' || (c >= '\u{2000}' && c <= '\u{200a}') || c == '\u{2028}' || c
        == '\u{2029}' || c == '\u{202f}' || c == '\u{205f}' || c == '\u{3000}'
}

pub fn is_ascii_digit_char(c: char) -> (r: bool)
    ensures
        r == is_ascii_digit(c),
{
    c >= '0' && c <= '9'
}

pub fn to_ascii_lower(c: char) -> (r: char)
    ensures
        r == ascii_lower(c),
{
    if c >= 'A' && c <= 'Z' {
        ((c as u8) + 32) as char
    } else {
        c
    }
}

pub fn to_ascii_upper(c: char) -> (r: char)
    ensures
        r == ascii_upper(c),
{
    if c >= 'a' && c <= 'z' {
        ((c as u8) - 32) as char
    } else {
        c
    }
}

pub fn to_lower_byte(b: u8) -> (r: u8)
    ensures
        r == byte_lower(b),
{
    if 0x41 <= b && b <= 0x5a {
        b + 32
    } else {
        b
    }
}

/// `str::eq_ignore_ascii_case`: the UTF-8 bytes are equal once ASCII letters
/// are lower-cased.
pub fn str_eq_ignore_ascii_case(a: &str, b: &str) -> (r: bool)
    ensures
        r == bytes_eq_ignore_ascii_case(encode_utf8(a@), encode_utf8(b@)),
{
    let x = a.as_bytes();
    let y = b.as_bytes();
    if x.len() != y.len() {
        return false;
    }
    let n = x.len();
    for i in 0..n
        invariant
            n == x@.len() == y@.len(),
            x@ == encode_utf8(a@),
            y@ == encode_utf8(b@),
            forall|k: int| 0 <= k < i ==> byte_lower(#[trigger] x@[k]) == byte_lower(y@[k]),
    {
        if to_lower_byte(x[i]) != to_lower_byte(y[i]) {
            return false;
        }
    }
    true
}

/// Appends the characters of `src` to `dst`.
pub fn append_chars(dst: &mut Vec<char>, src: &Vec<char>)
    ensures
        final(dst)@ == old(dst)@ + src@,
{
    let n = src.len();
    for i in 0..n
        invariant
            n == src@.len(),
            dst@ == old(dst)@ + src@.take(i as int),
    {
        dst.push(src[i]);
        assert(src@.take(i + 1) =~= src@.take(i as int).push(src@[i as int]));
    }
    assert(src@.take(n as int) =~= src@);
}

/// `v` with every `from` replaced by `to`.
pub fn replace_char_chars(v: &Vec<char>, from: char, to: char) -> (r: Vec<char>)
    ensures
        r@ == replace_char(v@, from, to),
{
    let mut r: Vec<char> = Vec::new();
    let n = v.len();
    for i in 0..n
        invariant
            n == v@.len(),
            r@ == replace_char(v@.take(i as int), from, to),
    {
        let c = v[i];
        r.push(if c == from { to } else { c });
        assert(r@ =~= replace_char(v@.take(i + 1), from, to));
    }
    assert(v@.take(n as int) =~= v@);
    r
}

/// `v` with ASCII letters in lower case.
pub fn lower_chars(v: &Vec<char>) -> (r: Vec<char>)
    ensures
        r@ == lower_seq(v@),
{
    let mut r: Vec<char> = Vec::new();
    let n = v.len();
    for i in 0..n
        invariant
            n == v@.len(),
            r@ == lower_seq(v@.take(i as int)),
    {
        r.push(to_ascii_lower(v[i]));
        assert(r@ =~= lower_seq(v@.take(i + 1)));
    }
    assert(v@.take(n as int) =~= v@);
    r
}

/// `v` with ASCII letters in upper case.
pub fn upper_chars(v: &Vec<char>) -> (r: Vec<char>)
    ensures
        r@ == upper_seq(v@),
{
    let mut r: Vec<char> = Vec::new();
    let n = v.len();
    for i in 0..n
        invariant
            n == v@.len(),
            r@ == upper_seq(v@.take(i as int)),
    {
        r.push(to_ascii_upper(v[i]));
        assert(r@ =~= upper_seq(v@.take(i + 1)));
    }
    assert(v@.take(n as int) =~= v@);
    r
}

/// The characters of `v` from `lo` up to `hi`.
pub fn copy_range(v: &Vec<char>, lo: usize, hi: usize) -> (r: Vec<char>)
    requires
        lo <= hi <= v.len(),
    ensures
        r@ == v@.subrange(lo as int, hi as int),
{
    let mut r: Vec<char> = Vec::new();
    let mut i = lo;
    while i < hi
        invariant
            lo <= i <= hi <= v.len(),
            r@ == v@.subrange(lo as int, i as int),
        decreases hi - i,
    {
        r.push(v[i]);
        assert(v@.subrange(lo as int, i + 1) =~= v@.subrange(lo as int, i as int).push(v@[i as int]));
        i += 1;
    }
    r
}

/// `str::trim` on characters.
pub fn trim_chars(v: &Vec<char>) -> (r: Vec<char>)
    ensures
        r@ == trim(v@),
{
    let n = v.len();
    let mut i: usize = 0;
    assert(v@.skip(0) =~= v@);
    while i < n && is_whitespace_char(v[i])
        invariant
            i <= n == v.len(),
            trim_start(v@) == trim_start(v@.skip(i as int)),
        decreases n - i,
    {
        assert(v@.skip(i as int).drop_first() =~= v@.skip(i + 1));
        i += 1;
    }
    assert(trim_start(v@) == v@.subrange(i as int, n as int)) by {
        assert(v@.skip(i as int) =~= v@.subrange(i as int, n as int));
    }
    let mut j: usize = n;
    while j > i && is_whitespace_char(v[j - 1])
        invariant
            i <= j <= n == v.len(),
            trim_end(v@.subrange(i as int, n as int)) == trim_end(v@.subrange(i as int, j as int)),
        decreases j,
    {
        assert(v@.subrange(i as int, j as int).drop_last() =~= v@.subrange(i as int, j - 1));
        j -= 1;
    }
    copy_range(v, i, j)
}

/// `trim_start_matches(['v', 'V'])` on characters.
pub fn trim_start_v_chars(v: &Vec<char>) -> (r: Vec<char>)
    ensures
        r@ == trim_start_v(v@),
{
    let n = v.len();
    let mut i: usize = 0;
    assert(v@.skip(0) =~= v@);
    while i < n && (v[i] == 'v' || v[i] == 'V')
        invariant
            i <= n == v.len(),
            trim_start_v(v@) == trim_start_v(v@.skip(i as int)),
        decreases n - i,
    {
        assert(v@.skip(i as int).drop_first() =~= v@.skip(i + 1));
        i += 1;
    }
    assert(v@.skip(i as int) =~= v@.subrange(i as int, n as int));
    copy_range(v, i, n)
}

/// `str::split` with a character separator, on characters.
pub fn split_chars(v: &Vec<char>, sep: char) -> (r: Vec<Vec<char>>)
    ensures
        char_vec_views(r@) == split(v@, sep),
{
    let mut done: Vec<Vec<char>> = Vec::new();
    let mut cur: Vec<char> = Vec::new();
    let n = v.len();
    assert(v@.take(0) =~= Seq::<char>::empty());
    assert(char_vec_views(done@).push(cur@) =~= split(v@.take(0), sep));
    for i in 0..n
        invariant
            n == v.len(),
            char_vec_views(done@).push(cur@) == split(v@.take(i as int), sep),
    {
        let c = v[i];
        assert(v@.take(i + 1).drop_last() =~= v@.take(i as int));
        assert(v@.take(i + 1).last() == c);
        let ghost before = char_vec_views(done@);
        let ghost old_cur = cur@;
        if c == sep {
            let finished = cur;
            done.push(finished);
            cur = Vec::new();
            assert(char_vec_views(done@) =~= before.push(old_cur));
            assert(char_vec_views(done@).push(cur@) =~= before.push(old_cur).push(
                Seq::<char>::empty(),
            ));
        } else {
            cur.push(c);
            assert(char_vec_views(done@).push(cur@) =~= before.push(old_cur).update(
                before.len() as int,
                old_cur.push(c),
            ));
        }
    }
    assert(v@.take(n as int) =~= v@);
    let ghost before = char_vec_views(done@);
    let last = cur;
    done.push(last);
    assert(char_vec_views(done@) =~= before.push(last@));
    done
}

/// Character-wise equality.
pub fn chars_equal(a: &Vec<char>, b: &Vec<char>) -> (r: bool)
    ensures
        r == (a@ == b@),
{
    if a.len() != b.len() {
        return false;
    }
    let n = a.len();
    for i in 0..n
        invariant
            n == a.len() == b.len(),
            forall|k: int| 0 <= k < i ==> a@[k] == b@[k],
    {
        if a[i] != b[i] {
            return false;
        }
    }
    assert(a@ =~= b@);
    true
}

/// `a == b` on string slices.
pub fn str_equal(a: &str, b: &str) -> (r: bool)
    ensures
        r == (a@ == b@),
{
    let av = chars_of(a);
    let bv = chars_of(b);
    chars_equal(&av, &bv)
}

/// `str::starts_with` with a string prefix.
pub fn str_starts_with(s: &str, prefix: &str) -> (r: bool)
    ensures
        r == starts_with(s@, prefix@),
{
    let sv = chars_of(s);
    let pv = chars_of(prefix);
    if pv.len() > sv.len() {
        return false;
    }
    let n = pv.len();
    for i in 0..n
        invariant
            n == pv.len() <= sv.len(),
            sv@ == s@,
            pv@ == prefix@,
            forall|k: int| 0 <= k < i ==> sv@[k] == pv@[k],
    {
        if sv[i] != pv[i] {
            assert(sv@.subrange(0, n as int)[i as int] == sv@[i as int]);
            assert(sv@.subrange(0, n as int) != pv@);
            return false;
        }
    }
    assert(sv@.subrange(0, n as int) =~= pv@);
    true
}

/// `needle` occurs in `s` at `i`, decided.
fn occurs_at_exec(s: &Vec<char>, needle: &Vec<char>, i: usize) -> (r: bool)
    ensures
        r == occurs_at(s@, needle@, i as int),
{
    if i > s.len() || needle.len() > s.len() - i {
        return false;
    }
    let n = needle.len();
    for k in 0..n
        invariant
            n == needle.len(),
            i + n <= s.len(),
            forall|m: int| 0 <= m < k ==> s@[i + m] == needle@[m],
    {
        if s[i + k] != needle[k] {
            assert(s@.subrange(i as int, i + n)[k as int] != needle@[k as int]);
            return false;
        }
    }
    assert(s@.subrange(i as int, i + n) =~= needle@);
    true
}

/// The first place where `needle` occurs in `s` at or after `from`.
pub fn find_from(s: &Vec<char>, needle: &Vec<char>, from: usize) -> (r: Option<usize>)
    requires
        from <= s.len(),
    ensures
        match r {
            Some(i) => from <= i && occurs_at(s@, needle@, i as int) && forall|j: int|
                from <= j < i ==> !occurs_at(s@, needle@, j),
            None => forall|j: int| from <= j ==> !occurs_at(s@, needle@, j),
        },
{
    let n = s.len();
    let mut i = from;
    while i < n
        invariant
            from <= i <= n,
            n == s.len(),
            forall|j: int| from <= j < i ==> !occurs_at(s@, needle@, j),
        decreases n - i,
    {
        if occurs_at_exec(s, needle, i) {
            return Some(i);
        }
        i += 1;
    }
    if occurs_at_exec(s, needle, n) {
        return Some(n);
    }
    None
}

/// `str::contains` with a string needle.
pub fn str_contains(s: &str, needle: &str) -> (r: bool)
    ensures
        r == contains(s@, needle@),
{
    let sv = chars_of(s);
    let nv = chars_of(needle);
    match find_from(&sv, &nv, 0) {
        Some(i) => true,
        None => false,
    }
}

/// The decimal text of `n`.
pub fn decimal_chars(n: u128) -> (r: Vec<char>)
    ensures
        r@ == decimal(n as nat),
    decreases n,
{
    if n < 10 {
        let mut r = Vec::new();
        r.push(digit_for(n as u8));
        r
    } else {
        let mut r = decimal_chars(n / 10);
        r.push(digit_for((n % 10) as u8));
        r
    }
}

/// `n.to_string()` for an unsigned integer.
pub fn decimal_string(n: u128) -> (r: String)
    ensures
        r@ == decimal(n as nat),
{
    let chars = decimal_chars(n);
    string_from_chars(&chars)
}

fn digit_for(d: u8) -> (r: char)
    requires
        d < 10,
    ensures
        r == digit_char(d as nat),
{
    if d == 0 {
        '0'
    } else if d == 1 {
        '1'
    } else if d == 2 {
        '2'
    } else if d == 3 {
        '3'
    } else if d == 4 {
        '4'
    } else if d == 5 {
        '5'
    } else if d == 6 {
        '6'
    } else if d == 7 {
        '7'
    } else if d == 8 {
        '8'
    } else {
        '9'
    }
}

fn hex_digit_for(d: u8) -> (r: char)
    requires
        d < 16,
    ensures
        r == hex_digit_char(d as nat),
{
    if d < 10 {
        digit_for(d)
    } else if d == 10 {
        'a'
    } else if d == 11 {
        'b'
    } else if d == 12 {
        'c'
    } else if d == 13 {
        'd'
    } else if d == 14 {
        'e'
    } else {
        'f'
    }
}

/// The last `width` lower-case hexadecimal digits of `n`, zero padded.
pub fn hex_fixed_chars(n: u64, width: u8) -> (r: Vec<char>)
    ensures
        r@ == hex_fixed(n as nat, width as nat),
    decreases width,
{
    if width == 0 {
        Vec::new()
    } else {
        let mut r = hex_fixed_chars(n / 16, width - 1);
        r.push(hex_digit_for((n % 16) as u8));
        r
    }
}

/// The lower-case hexadecimal text of `n`.
pub fn hex_chars(n: u64) -> (r: Vec<char>)
    ensures
        r@ == hex(n as nat),
    decreases n,
{
    if n < 16 {
        let mut r = Vec::new();
        r.push(hex_digit_for(n as u8));
        r
    } else {
        let mut r = hex_chars(n / 16);
        r.push(hex_digit_for((n % 16) as u8));
        r
    }
}

/// `str::parse::<u16>` on characters.
pub fn parse_u16_chars(v: &Vec<char>) -> (r: Option<u16>)
    ensures
        r == parse_u16(v@),
{
    let n = v.len();
    let start: usize = if n > 1 && v[0] == '+' {
        1
    } else {
        0
    };
    let ghost d = if v@.len() > 1 && v@[0] == '+' {
        v@.drop_first()
    } else {
        v@
    };
    assert(d =~= v@.subrange(start as int, n as int));
    if start == n {
        return None;
    }
    let mut acc: u32 = 0;
    assert(v@.subrange(start as int, start as int) =~= Seq::<char>::empty());
    for i in start..n
        invariant
            start < n == v.len(),
            d == v@.subrange(start as int, n as int),
            d == if v@.len() > 1 && v@[0] == '+' {
                v@.drop_first()
            } else {
                v@
            },
            all_digits(v@.subrange(start as int, i as int)),
            acc as nat == if digits_value(v@.subrange(start as int, i as int)) < 65536 {
                digits_value(v@.subrange(start as int, i as int))
            } else {
                65536
            },
    {
        let c = v[i];
        if !is_ascii_digit_char(c) {
            assert(d[i - start] == c);
            assert(!all_digits(d));
            return None;
        }
        let ghost prefix = v@.subrange(start as int, i as int);
        assert(v@.subrange(start as int, i + 1).drop_last() =~= prefix);
        assert(v@.subrange(start as int, i + 1) =~= prefix.push(c));
        let dv = (c as u32) - ('0' as u32);
        acc = acc * 10 + dv;
        if acc > 65536 {
            acc = 65536;
        }
    }
    if acc <= 65535 {
        Some(acc as u16)
    } else {
        None
    }
}

/// `[String]::join` with a string separator.
pub fn join_strings(parts: &[String], sep: &str) -> (r: String)
    ensures
        r@ == join(string_views(parts@), sep@),
{
    let mut r = String::new();
    let n = parts.len();
    for i in 0..n
        invariant
            n == parts.len(),
            r@ == join(string_views(parts@).take(i as int), sep@),
    {
        assert(string_views(parts@).take(i + 1).drop_last() =~= string_views(parts@).take(
            i as int,
        ));
        if i == 0 {
            r.append(parts[i].as_str());
            assert(string_views(parts@).take(1) =~= seq![parts@[0]@]);
        } else {
            r.append(sep);
            r.append(parts[i].as_str());
        }
    }
    assert(string_views(parts@).take(n as int) =~= string_views(parts@));
    r
}

} // verus!
