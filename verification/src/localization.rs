//! Choosing the launcher's language and looking up its translations.
use vstd::prelude::*;

use crate::text::{
    append_chars, chars_of, lower_chars, lower_seq, replace_char, replace_char_chars, split,
    split_chars, string_from_chars, str_equal, trim, trim_chars, upper_chars, upper_seq,
    char_vec_views, lemma_split_nonempty, avoids, is_whitespace, is_ascii_upper, ascii_lower,
    lemma_trim_avoids, lemma_split_avoids, lemma_trim_edges, lemma_split_first_piece,
    lemma_ascii_lower_char, lemma_ascii_upper_char, lemma_trim_twice, lemma_trim_unchanged,
    lemma_split_push, lemma_split_without_separator, is_ascii_lower, ascii_upper,
};

verus! {

/// The locales that the launcher ships translations for, in lookup order.
pub open spec fn registered_locales() -> Seq<Seq<char>> {
    seq![
        "cs_CZ"@,
        "en_US"@,
        "es_ES"@,
        "fa_IR"@,
        "fr_FR"@,
        "ja_JP"@,
        "nl_NL"@,
        "pl_PL"@,
        "pt_PT"@,
    ]
}

/// Languages whose locale is named explicitly, in lookup order.
pub open spec fn language_fallbacks() -> Seq<(Seq<char>, Seq<char>)> {
    seq![("es"@, "es_ES"@), ("fa"@, "fa_IR"@)]
}

pub open spec fn default_locale() -> Seq<char> {
    "en_US"@
}

fn registered_locale_ids() -> (r: Vec<&'static str>)
    ensures
        r@.len() == registered_locales().len(),
        forall|i: int| 0 <= i < r@.len() ==> #[trigger] r@[i]@ == registered_locales()[i],
{
    let mut r: Vec<&'static str> = Vec::new();
    r.push("cs_CZ");
    r.push("en_US");
    r.push("es_ES");
    r.push("fa_IR");
    r.push("fr_FR");
    r.push("ja_JP");
    r.push("nl_NL");
    r.push("pl_PL");
    r.push("pt_PT");
    r
}

fn language_fallback_ids() -> (r: Vec<(&'static str, &'static str)>)
    ensures
        r@.len() == language_fallbacks().len(),
        forall|i: int|
            0 <= i < r@.len() ==> (#[trigger] r@[i].0@, r@[i].1@) == language_fallbacks()[i],
{
    let mut r: Vec<(&'static str, &'static str)> = Vec::new();
    r.push(("es", "es_ES"));
    r.push(("fa", "fa_IR"));
    r
}

/// The non-empty trimmed pieces, each after an underscore.
pub open spec fn locale_tail(parts: Seq<Seq<char>>) -> Seq<char>
    decreases parts.len(),
{
    if parts.len() == 0 {
        Seq::<char>::empty()
    } else {
        let p = trim(parts.last());
        locale_tail(parts.drop_last()) + if p.len() == 0 {
            Seq::<char>::empty()
        } else {
            seq!['_'] + p
        }
    }
}

/// A locale id in the form `language_REGION[_rest...]`: hyphens become
/// underscores, anything from the first `.` on is dropped, the language is
/// lower-cased and the region upper-cased; `None` when there is no
/// language.
pub open spec fn spec_normalize_locale_id(value: Seq<char>) -> Option<Seq<char>> {
    let replaced = replace_char(trim(value), '-', '_');
    let head = trim(split(replaced, '.')[0]);
    if head.len() == 0 {
        None
    } else {
        let parts = split(head, '_');
        let language = trim(parts[0]);
        if language.len() == 0 {
            None
        } else {
            let region = if parts.len() > 1 && trim(parts[1]).len() > 0 {
                seq!['_'] + upper_seq(trim(parts[1]))
            } else {
                Seq::<char>::empty()
            };
            let rest = if parts.len() > 2 {
                parts.skip(2)
            } else {
                Seq::<Seq<char>>::empty()
            };
            Some(lower_seq(language) + region + locale_tail(rest))
        }
    }
}

proof fn lemma_locale_tail_starts_with_separator(parts: Seq<Seq<char>>)
    ensures
        locale_tail(parts).len() == 0 || locale_tail(parts)[0] == '_',
    decreases parts.len(),
{
    if parts.len() > 0 {
        lemma_locale_tail_starts_with_separator(parts.drop_last());
    }
}

proof fn lemma_locale_tail_avoids(parts: Seq<Seq<char>>, c: char)
    requires
        c != '_',
        forall|i: int| 0 <= i < parts.len() ==> avoids(#[trigger] parts[i], c),
    ensures
        avoids(locale_tail(parts), c),
    decreases parts.len(),
{
    if parts.len() > 0 {
        lemma_locale_tail_avoids(parts.drop_last(), c);
        assert(avoids(parts[parts.len() - 1], c));
        lemma_trim_avoids(parts.last(), c);
    }
}

/// The trimmed pieces that `locale_tail` keeps, in order.
pub open spec fn kept_pieces(parts: Seq<Seq<char>>) -> Seq<Seq<char>>
    decreases parts.len(),
{
    if parts.len() == 0 {
        Seq::<Seq<char>>::empty()
    } else {
        let p = trim(parts.last());
        kept_pieces(parts.drop_last()) + if p.len() == 0 {
            Seq::<Seq<char>>::empty()
        } else {
            seq![p]
        }
    }
}

/// Each kept piece is non-empty, trimmed already, and free of what all the
/// pieces are free of.
proof fn lemma_kept_pieces_clean(parts: Seq<Seq<char>>, c: char)
    requires
        forall|i: int| 0 <= i < parts.len() ==> avoids(#[trigger] parts[i], c),
    ensures
        forall|i: int|
            0 <= i < kept_pieces(parts).len() ==> (#[trigger] kept_pieces(parts)[i]).len() > 0
                && trim(kept_pieces(parts)[i]) == kept_pieces(parts)[i] && avoids(
                kept_pieces(parts)[i],
                c,
            ),
    decreases parts.len(),
{
    if parts.len() > 0 {
        let dl = parts.drop_last();
        lemma_kept_pieces_clean(dl, c);
        assert(avoids(parts[parts.len() - 1], c));
        lemma_trim_twice(parts.last());
        lemma_trim_avoids(parts.last(), c);
        let k = kept_pieces(parts);
        assert forall|i: int| 0 <= i < k.len() implies (#[trigger] k[i]).len() > 0 && trim(k[i])
            == k[i] && avoids(k[i], c) by {
            if i < kept_pieces(dl).len() {
                assert(k[i] == kept_pieces(dl)[i]);
            } else {
                assert(k[i] == trim(parts.last()));
            }
        }
    }
}

/// Splitting a text followed by a locale tail at `_` gives the text's
/// pieces, then the kept pieces.
proof fn lemma_split_locale_tail(x: Seq<char>, parts: Seq<Seq<char>>)
    requires
        forall|i: int| 0 <= i < parts.len() ==> avoids(#[trigger] parts[i], '_'),
    ensures
        split(x + locale_tail(parts), '_') == split(x, '_') + kept_pieces(parts),
    decreases parts.len(),
{
    if parts.len() == 0 {
        assert(x + locale_tail(parts) =~= x);
        assert(split(x, '_') + kept_pieces(parts) =~= split(x, '_'));
    } else {
        let dl = parts.drop_last();
        lemma_split_locale_tail(x, dl);
        let p = trim(parts.last());
        assert(avoids(parts[parts.len() - 1], '_'));
        lemma_trim_avoids(parts.last(), '_');
        if p.len() == 0 {
            assert(locale_tail(parts) =~= locale_tail(dl));
            assert(kept_pieces(parts) =~= kept_pieces(dl));
        } else {
            assert(x + locale_tail(parts) =~= (x + locale_tail(dl)) + seq!['_'] + p);
            lemma_split_push(x + locale_tail(dl), p, '_');
            assert(split(x, '_') + kept_pieces(parts) =~= (split(x, '_') + kept_pieces(dl)).push(p));
        }
    }
}

/// The locale tail of pieces that are non-empty and trimmed is each piece
/// after an underscore.
proof fn lemma_locale_tail_of_clean(parts: Seq<Seq<char>>)
    requires
        forall|i: int|
            0 <= i < parts.len() ==> (#[trigger] parts[i]).len() > 0 && trim(parts[i]) == parts[i],
    ensures
        parts.len() > 0 ==> locale_tail(parts) == seq!['_'] + parts[0] + locale_tail(parts.skip(1)),
        locale_tail(kept_pieces(parts)) == locale_tail(parts),
    decreases parts.len(),
{
    if parts.len() > 0 {
        let dl = parts.drop_last();
        lemma_locale_tail_of_clean(dl);
        assert(parts.last() == parts[parts.len() - 1]);
        if parts.len() == 1 {
            assert(dl =~= Seq::<Seq<char>>::empty());
            assert(parts.skip(1) =~= Seq::<Seq<char>>::empty());
        } else {
            assert(parts.skip(1).drop_last() =~= dl.skip(1));
            assert(parts.skip(1).last() == parts.last());
            assert(dl[0] == parts[0]);
        }
        assert(kept_pieces(parts) =~= kept_pieces(dl).push(parts.last()));
        assert(kept_pieces(parts).drop_last() =~= kept_pieces(dl));
        lemma_locale_tail_kept(dl);
    }
}

proof fn lemma_locale_tail_kept(parts: Seq<Seq<char>>)
    ensures
        locale_tail(kept_pieces(parts)) == locale_tail(parts),
    decreases parts.len(),
{
    if parts.len() > 0 {
        let dl = parts.drop_last();
        lemma_locale_tail_kept(dl);
        let p = trim(parts.last());
        if p.len() == 0 {
            assert(kept_pieces(parts) =~= kept_pieces(dl));
        } else {
            lemma_trim_twice(parts.last());
            assert(kept_pieces(parts).drop_last() =~= kept_pieces(dl));
            assert(kept_pieces(parts).last() == p);
        }
    }
}

/// A non-empty locale tail ends in a character that is no white space.
proof fn lemma_locale_tail_last(parts: Seq<Seq<char>>)
    ensures
        locale_tail(parts).len() > 0 ==> !is_whitespace(locale_tail(parts).last()),
    decreases parts.len(),
{
    if parts.len() > 0 {
        lemma_locale_tail_last(parts.drop_last());
        lemma_trim_edges(parts.last());
    }
}

/// A normalized locale id is never empty and holds no `-` and no `.`; its
/// language, the part before the first `_`, is not empty, neither starts
/// nor ends with white space, and has no upper-case ASCII letter.
pub proof fn lemma_normalized_locale_id_shape(value: Seq<char>)
    ensures
        spec_normalize_locale_id(value) matches Some(id) ==> {
            &&& id.len() > 0
            &&& avoids(id, '-')
            &&& avoids(id, '.')
            &&& split(id, '_')[0].len() > 0
            &&& !is_whitespace(split(id, '_')[0][0])
            &&& !is_whitespace(split(id, '_')[0].last())
            &&& forall|k: int|
                0 <= k < split(id, '_')[0].len() ==> !is_ascii_upper(#[trigger] split(id, '_')[0][k])
        },
{
    let replaced = replace_char(trim(value), '-', '_');
    assert(avoids(replaced, '-'));
    lemma_split_nonempty(replaced, '.');
    lemma_split_avoids(replaced, '.', '-');
    let piece = split(replaced, '.')[0];
    assert(avoids(piece, '-') && avoids(piece, '.'));
    let head = trim(piece);
    lemma_trim_avoids(piece, '-');
    lemma_trim_avoids(piece, '.');
    if head.len() > 0 {
        let parts = split(head, '_');
        lemma_split_nonempty(head, '_');
        lemma_split_avoids(head, '_', '-');
        lemma_split_avoids(head, '_', '.');
        let language = trim(parts[0]);
        assert(avoids(parts[0], '_'));
        lemma_trim_avoids(parts[0], '-');
        lemma_trim_avoids(parts[0], '.');
        lemma_trim_avoids(parts[0], '_');
        lemma_trim_edges(parts[0]);
        if language.len() > 0 {
            let lower = lower_seq(language);
            assert forall|k: int| 0 <= k < lower.len() implies lower[k] != '-' && lower[k] != '.'
                && lower[k] != '_' && !is_ascii_upper(#[trigger] lower[k]) by {
                lemma_ascii_lower_char(language[k]);
            }
            lemma_ascii_lower_char(language[0]);
            lemma_ascii_lower_char(language.last());
            assert(lower.last() == ascii_lower(language.last()));
            let region = if parts.len() > 1 && trim(parts[1]).len() > 0 {
                seq!['_'] + upper_seq(trim(parts[1]))
            } else {
                Seq::<char>::empty()
            };
            if parts.len() > 1 {
                lemma_trim_avoids(parts[1], '-');
                lemma_trim_avoids(parts[1], '.');
                let up = upper_seq(trim(parts[1]));
                assert forall|k: int| 0 <= k < up.len() implies up[k] != '-' && up[k] != '.' by {
                    lemma_ascii_upper_char(trim(parts[1])[k]);
                }
            }
            assert(avoids(region, '-') && avoids(region, '.'));
            let rest = if parts.len() > 2 {
                parts.skip(2)
            } else {
                Seq::<Seq<char>>::empty()
            };
            assert forall|i: int| 0 <= i < rest.len() implies avoids(#[trigger] rest[i], '-')
                && avoids(rest[i], '.') by {
                assert(rest[i] == parts[i + 2]);
            }
            lemma_locale_tail_avoids(rest, '-');
            lemma_locale_tail_avoids(rest, '.');
            let tail = locale_tail(rest);
            lemma_locale_tail_starts_with_separator(rest);
            let id = lower + region + tail;
            assert(id == spec_normalize_locale_id(value)->0);
            assert(id =~= lower + (region + tail));
            assert((region + tail).len() == 0 || (region + tail)[0] == '_');
            lemma_split_first_piece(lower, region + tail, '_');
            assert forall|k: int| 0 <= k < id.len() implies id[k] != '-' && id[k] != '.' by {
                if k < lower.len() {
                } else if k < lower.len() + region.len() {
                    assert(id[k] == region[k - lower.len()]);
                } else {
                    assert(id[k] == tail[k - lower.len() - region.len()]);
                }
            }
        }
    }
}

/// Normalizing a normalized locale id gives it back, unless the piece
/// after its first `_` holds a lower-case ASCII letter. That piece is a
/// region, upper-cased, except when the region was empty and a later piece
/// moved up into its place: `en__x` normalizes to `en_x`, which normalizes
/// to `en_X`.
pub proof fn lemma_normalize_locale_id_again(value: Seq<char>)
    requires
        spec_normalize_locale_id(value) is Some,
        split(spec_normalize_locale_id(value)->0, '_').len() > 1 ==> forall|k: int|
            0 <= k < split(spec_normalize_locale_id(value)->0, '_')[1].len() ==> !is_ascii_lower(
                #[trigger] split(spec_normalize_locale_id(value)->0, '_')[1][k],
            ),
    ensures
        spec_normalize_locale_id(spec_normalize_locale_id(value)->0) == spec_normalize_locale_id(
            value,
        ),
{
    lemma_normalized_locale_id_shape(value);
    let id = spec_normalize_locale_id(value)->0;
    let replaced = replace_char(trim(value), '-', '_');
    lemma_split_nonempty(replaced, '.');
    assert(avoids(replaced, '-'));
    lemma_split_avoids(replaced, '.', '-');
    assert(avoids(split(replaced, '.')[0], '-'));
    lemma_trim_avoids(split(replaced, '.')[0], '-');
    let head = trim(split(replaced, '.')[0]);
    let parts = split(head, '_');
    lemma_split_nonempty(head, '_');
    lemma_split_avoids(head, '_', '-');
    assert(avoids(parts[0], '_'));
    let language = trim(parts[0]);
    lemma_trim_avoids(parts[0], '_');
    lemma_trim_edges(parts[0]);
    let lower = lower_seq(language);
    assert forall|k: int| 0 <= k < lower.len() implies lower[k] != '_' && ascii_lower(
        #[trigger] lower[k],
    ) == lower[k] by {
        lemma_ascii_lower_char(language[k]);
    }
    lemma_ascii_lower_char(language[0]);
    lemma_ascii_lower_char(language.last());
    assert(lower.last() == ascii_lower(language.last()));
    assert(avoids(lower, '_'));
    lemma_trim_unchanged(lower);
    assert(lower_seq(lower) =~= lower);
    lemma_split_without_separator(lower, '_');
    let region = if parts.len() > 1 && trim(parts[1]).len() > 0 {
        seq!['_'] + upper_seq(trim(parts[1]))
    } else {
        Seq::<char>::empty()
    };
    let rest = if parts.len() > 2 {
        parts.skip(2)
    } else {
        Seq::<Seq<char>>::empty()
    };
    assert forall|i: int| 0 <= i < rest.len() implies avoids(#[trigger] rest[i], '_') by {
        assert(rest[i] == parts[i + 2]);
    }
    let tail = locale_tail(rest);
    let ks = kept_pieces(rest);
    lemma_kept_pieces_clean(rest, '_');
    lemma_locale_tail_kept(rest);
    lemma_locale_tail_last(rest);
    lemma_locale_tail_of_clean(ks);
    assert(id == lower + region + tail);
    // The second pass sees `id` itself up to the split at `_`.
    if region.len() > 0 {
        let t = trim(parts[1]);
        let up = upper_seq(t);
        assert(avoids(parts[1], '_'));
        lemma_trim_avoids(parts[1], '_');
        lemma_trim_edges(parts[1]);
        lemma_trim_unchanged(t);
        assert forall|k: int| 0 <= k < up.len() implies up[k] != '_' && ascii_upper(#[trigger] up[k])
            == up[k] by {
            lemma_ascii_upper_char(t[k]);
        }
        lemma_ascii_upper_char(t[0]);
        lemma_ascii_upper_char(t.last());
        assert(up.last() == ascii_upper(t.last()));
        lemma_trim_unchanged(up);
        assert(upper_seq(up) =~= up);
        assert(region =~= seq!['_'] + up);
        lemma_split_push(lower, up, '_');
        assert(lower + region =~= lower + seq!['_'] + up);
        lemma_split_locale_tail(lower + region, rest);
        assert(id =~= (lower + region) + tail);
        assert(split(id, '_') =~= seq![lower, up] + ks);
        if tail.len() > 0 {
            assert(id.last() == tail.last());
        } else {
            assert(id.last() == up.last());
        }
        lemma_trim_unchanged(id);
        assert(replace_char(id, '-', '_') =~= id);
        lemma_split_without_separator(id, '.');
        let parts2 = split(id, '_');
        assert(parts2[0] == lower);
        assert(parts2[1] == up);
        let rest2 = if parts2.len() > 2 {
            parts2.skip(2)
        } else {
            Seq::<Seq<char>>::empty()
        };
        assert(rest2 =~= ks);
    } else {
        lemma_split_locale_tail(lower, rest);
        assert(id =~= lower + tail);
        assert(split(id, '_') =~= seq![lower] + ks);
        if tail.len() > 0 {
            assert(id.last() == tail.last());
        } else {
            assert(id.last() == lower.last());
        }
        lemma_trim_unchanged(id);
        assert(replace_char(id, '-', '_') =~= id);
        lemma_split_without_separator(id, '.');
        let parts2 = split(id, '_');
        assert(parts2[0] == lower);
        if ks.len() == 0 {
            assert(parts2.len() == 1);
            assert(tail == locale_tail(Seq::<Seq<char>>::empty()));
            assert(id =~= lower);
        } else {
            let k1 = ks[0];
            assert(parts2[1] == k1);
            assert forall|k: int| 0 <= k < k1.len() implies ascii_upper(#[trigger] k1[k]) == k1[k] by {
                assert(!is_ascii_lower(parts2[1][k]));
            }
            assert(upper_seq(k1) =~= k1);
            let rest2 = if parts2.len() > 2 {
                parts2.skip(2)
            } else {
                Seq::<Seq<char>>::empty()
            };
            assert(rest2 =~= ks.skip(1));
            assert(id =~= lower + (seq!['_'] + upper_seq(trim(k1))) + locale_tail(rest2));
        }
    }
}

/// The first registered locale whose language part is `code`.
pub open spec fn first_with_language(locales: Seq<Seq<char>>, code: Seq<char>) -> Option<Seq<char>>
    decreases locales.len(),
{
    if locales.len() == 0 {
        None
    } else if split(locales[0], '_')[0] == code {
        Some(locales[0])
    } else {
        first_with_language(locales.drop_first(), code)
    }
}

/// The value paired with the first occurrence of `key`.
pub open spec fn lookup<V>(pairs: Seq<(Seq<char>, V)>, key: Seq<char>) -> Option<V>
    decreases pairs.len(),
{
    if pairs.len() == 0 {
        None
    } else if pairs[0].0 == key {
        Some(pairs[0].1)
    } else {
        lookup(pairs.drop_first(), key)
    }
}

/// The registered locale for a locale id: the registered locale itself,
/// else the explicit fallback for its language, else the first registered
/// locale of its language, else the default.
pub open spec fn spec_resolve_locale_candidate(locale_id: Seq<char>) -> Seq<char> {
    match spec_normalize_locale_id(locale_id) {
        None => default_locale(),
        Some(normalized) => if registered_locales().contains(normalized) {
            normalized
        } else {
            let code = split(normalized, '_')[0];
            match lookup(language_fallbacks(), code) {
                Some(locale) => locale,
                None => match first_with_language(registered_locales(), code) {
                    Some(locale) => locale,
                    None => default_locale(),
                },
            }
        },
    }
}

/// The locale to show: the preferred one unless it is missing or `auto`,
/// else the system's, else the default.
pub open spec fn spec_resolve_locale(preference: Option<Seq<char>>, system_locale: Option<Seq<char>>) -> Seq<char> {
    let preferred = match preference {
        Some(p) => spec_normalize_locale_id(p),
        None => None,
    };
    match preferred {
        Some(id) if id != "auto"@ => spec_resolve_locale_candidate(id),
        _ => match system_locale {
            Some(s) => spec_resolve_locale_candidate(s),
            None => default_locale(),
        },
    }
}

/// Normalizes a locale id such as `en-us.UTF-8` to `en_US`.
pub fn normalize_locale_id(value: &str) -> (r: Option<String>)
    ensures
        match spec_normalize_locale_id(value@) {
            Some(id) => r matches Some(s) && s@ == id,
            None => r is None,
        },
{
    let chars = chars_of(value);
    let trimmed = trim_chars(&chars);
    let replaced = replace_char_chars(&trimmed, '-', '_');
    let dotted = split_chars(&replaced, '.');
    proof {
        lemma_split_nonempty(replace_char(trim(value@), '-', '_'), '.');
    }
    assert(dotted@[0]@ == split(replace_char(trim(value@), '-', '_'), '.')[0]);
    let head = trim_chars(&dotted[0]);
    if head.len() == 0 {
        return None;
    }
    let parts = split_chars(&head, '_');
    let ghost spec_parts = split(head@, '_');
    proof {
        lemma_split_nonempty(head@, '_');
    }
    assert(char_vec_views(parts@) == spec_parts);
    assert(parts@[0]@ == spec_parts[0]);
    let language = trim_chars(&parts[0]);
    if language.len() == 0 {
        return None;
    }
    let mut id = lower_chars(&language);
    let ghost lowered = id@;
    if parts.len() > 1 {
        assert(parts@[1]@ == spec_parts[1]);
        let region = trim_chars(&parts[1]);
        if region.len() > 0 {
            id.push('_');
            let upper = upper_chars(&region);
            append_chars(&mut id, &upper);
        }
    }
    let ghost with_region = id@;
    assert(with_region == lowered + if spec_parts.len() > 1 && trim(spec_parts[1]).len() > 0 {
        seq!['_'] + upper_seq(trim(spec_parts[1]))
    } else {
        Seq::<char>::empty()
    });
    let n = parts.len();
    if n > 2 {
        let mut k: usize = 2;
        assert(spec_parts.subrange(2, 2) =~= Seq::<Seq<char>>::empty());
        while k < n
            invariant
                2 <= k <= n,
                n == parts@.len() == spec_parts.len(),
                char_vec_views(parts@) == spec_parts,
                id@ == with_region + locale_tail(spec_parts.subrange(2, k as int)),
            decreases n - k,
        {
            assert(parts@[k as int]@ == spec_parts[k as int]);
            let part = trim_chars(&parts[k]);
            if part.len() > 0 {
                id.push('_');
                append_chars(&mut id, &part);
            }
            assert(spec_parts.subrange(2, k + 1).drop_last() =~= spec_parts.subrange(2, k as int));
            assert(spec_parts.subrange(2, k + 1).last() == spec_parts[k as int]);
            assert(id@ =~= with_region + locale_tail(spec_parts.subrange(2, k + 1)));
            k += 1;
        }
        assert(spec_parts.subrange(2, n as int) =~= spec_parts.skip(2));
    } else {
        assert(locale_tail(Seq::<Seq<char>>::empty()) =~= Seq::<char>::empty());
        assert(id@ =~= with_region + locale_tail(Seq::<Seq<char>>::empty()));
    }
    Some(string_from_chars(&id))
}

/// The registered locale that a locale id resolves to.
#[verifier::loop_isolation(false)]
pub fn resolve_locale_candidate(locale_id: &str) -> (r: &'static str)
    ensures
        r@ == spec_resolve_locale_candidate(locale_id@),
{
    let normalized = match normalize_locale_id(locale_id) {
        Some(id) => id,
        None => return "en_US",
    };
    let registered = registered_locale_ids();
    let n = registered.len();
    for i in 0..n
        invariant
            n == registered@.len() == registered_locales().len(),
            forall|j: int|
                0 <= j < registered@.len() ==> #[trigger] registered@[j]@ == registered_locales()[j],
            forall|j: int| 0 <= j < i ==> registered_locales()[j] != normalized@,
    {
        if str_equal(registered[i], normalized.as_str()) {
            assert(registered_locales()[i as int] == normalized@);
            return registered[i];
        }
    }
    assert(!registered_locales().contains(normalized@)) by {
        if registered_locales().contains(normalized@) {
            let j = choose|j: int|
                0 <= j < registered_locales().len() && registered_locales()[j] == normalized@;
            assert(registered@[j]@ == registered_locales()[j]);
        }
    }
    let normalized_chars = chars_of(normalized.as_str());
    let pieces = split_chars(&normalized_chars, '_');
    proof {
        lemma_split_nonempty(normalized@, '_');
    }
    assert(pieces@[0]@ == split(normalized@, '_')[0]);
    let code = string_from_chars(&pieces[0]);
    let ghost code_view = split(normalized@, '_')[0];
    let fallbacks = language_fallback_ids();
    let m = fallbacks.len();
    assert(language_fallbacks().skip(0) =~= language_fallbacks());
    for i in 0..m
        invariant
            m == fallbacks@.len() == language_fallbacks().len(),
            code@ == code_view,
            forall|j: int|
                0 <= j < fallbacks@.len() ==> (#[trigger] fallbacks@[j].0@, fallbacks@[j].1@)
                    == language_fallbacks()[j],
            lookup(language_fallbacks(), code_view) == lookup(
                language_fallbacks().skip(i as int),
                code_view,
            ),
    {
        assert(language_fallbacks().skip(i as int)[0] == language_fallbacks()[i as int]);
        assert(language_fallbacks().skip(i as int).drop_first() =~= language_fallbacks().skip(
            i + 1,
        ));
        let (language, locale) = fallbacks[i];
        assert((language@, locale@) == language_fallbacks()[i as int]);
        if str_equal(language, code.as_str()) {
            return locale;
        }
    }
    assert(language_fallbacks().skip(m as int) =~= Seq::<(Seq<char>, Seq<char>)>::empty());
    assert(registered_locales().skip(0) =~= registered_locales());
    for i in 0..n
        invariant
            n == registered@.len() == registered_locales().len(),
            code@ == code_view,
            forall|j: int|
                0 <= j < registered@.len() ==> #[trigger] registered@[j]@ == registered_locales()[j],
            first_with_language(registered_locales(), code_view) == first_with_language(
                registered_locales().skip(i as int),
                code_view,
            ),
    {
        assert(registered_locales().skip(i as int)[0] == registered_locales()[i as int]);
        assert(registered_locales().skip(i as int).drop_first() =~= registered_locales().skip(
            i + 1,
        ));
        assert(registered@[i as int]@ == registered_locales()[i as int]);
        let locale_chars = chars_of(registered[i]);
        let locale_pieces = split_chars(&locale_chars, '_');
        proof {
            lemma_split_nonempty(registered_locales()[i as int], '_');
        }
        assert(locale_pieces@[0]@ == split(registered_locales()[i as int], '_')[0]);
        let code_chars = chars_of(code.as_str());
        if crate::text::chars_equal(&locale_pieces[0], &code_chars) {
            return registered[i];
        }
    }
    assert(registered_locales().skip(n as int) =~= Seq::<Seq<char>>::empty());
    "en_US"
}

/// The registered locale to show, from the user's preference and the
/// system's locale.
pub fn resolve_locale(preference: Option<&str>, system_locale: Option<&str>) -> (r: &'static str)
    ensures
        r@ == spec_resolve_locale(
            match preference {
                Some(p) => Some(p@),
                None => None,
            },
            match system_locale {
                Some(s) => Some(s@),
                None => None,
            },
        ),
{
    let preferred = match preference {
        Some(p) => normalize_locale_id(p),
        None => None,
    };
    match preferred {
        Some(id) => {
            if !str_equal(id.as_str(), "auto") {
                return resolve_locale_candidate(id.as_str());
            }
        },
        None => {},
    }
    match system_locale {
        Some(s) => resolve_locale_candidate(s),
        None => "en_US",
    }
}

proof fn lemma_first_with_language_registered(locales: Seq<Seq<char>>, code: Seq<char>)
    ensures
        first_with_language(locales, code) matches Some(l) ==> locales.contains(l),
    decreases locales.len(),
{
    if locales.len() > 0 && split(locales[0], '_')[0] != code {
        lemma_first_with_language_registered(locales.drop_first(), code);
        if let Some(l) = first_with_language(locales.drop_first(), code) {
            let j = choose|j: int| 0 <= j < locales.drop_first().len() && locales.drop_first()[j] == l;
            assert(locales[j + 1] == l);
        }
    }
    if locales.len() > 0 && split(locales[0], '_')[0] == code {
        assert(locales[0] == locales[0]);
    }
}

proof fn lemma_candidate_registered(id: Seq<char>)
    ensures
        registered_locales().contains(spec_resolve_locale_candidate(id)),
{
    let r = registered_locales();
    assert(r[1] == default_locale());
    if let Some(normalized) = spec_normalize_locale_id(id) {
        if !r.contains(normalized) {
            let code = split(normalized, '_')[0];
            let f = language_fallbacks();
            assert(f.drop_first()[0] == f[1]);
            assert(f.drop_first().drop_first() =~= Seq::<(Seq<char>, Seq<char>)>::empty());
            reveal_with_fuel(lookup, 3);
            if let Some(locale) = lookup(f, code) {
                assert(locale == f[0].1 || locale == f[1].1);
                assert(r[2] == f[0].1);
                assert(r[3] == f[1].1);
            } else {
                lemma_first_with_language_registered(r, code);
            }
        }
    }
}

/// Whatever the preference and the system locale, the locale chosen is one
/// that the launcher ships translations for.
pub proof fn lemma_resolved_locale_is_registered(
    preference: Option<Seq<char>>,
    system_locale: Option<Seq<char>>,
)
    ensures
        registered_locales().contains(spec_resolve_locale(preference, system_locale)),
{
    assert(registered_locales()[1] == default_locale());
    assert(registered_locales()[2] == language_fallbacks()[0].1);
    assert(registered_locales()[3] == language_fallbacks()[1].1);
    assert forall|id: Seq<char>| registered_locales().contains(
        #[trigger] spec_resolve_locale_candidate(id),
    ) by {
        lemma_candidate_registered(id);
    }
    let preferred = match preference {
        Some(p) => spec_normalize_locale_id(p),
        None => None,
    };
    if let Some(id) = preferred {
        assert(registered_locales().contains(spec_resolve_locale_candidate(id)));
    }
    if let Some(s) = system_locale {
        assert(registered_locales().contains(spec_resolve_locale_candidate(s)));
    }
}

/// The translation file of one locale: a JSON document whose
/// `translations` object maps keys to texts.
pub struct LocaleTranslations {
    pub locale_id: String,
    pub json: String,
}

/// The translation files of the locales that the launcher ships, in lookup
/// order.
pub struct LocaleCatalog {
    pub locales: Vec<LocaleTranslations>,
}

pub open spec fn catalog_view(locales: Seq<LocaleTranslations>) -> Seq<(Seq<char>, Seq<char>)> {
    locales.map_values(|l: LocaleTranslations| (l.locale_id@, l.json@))
}

/// What `serde_json` reads from the JSON text `json` as the string member
/// `key` of its top-level member `object`: none when the text is not JSON,
/// either member is missing or not an object, or the value is no string.
pub uninterp spec fn json_member_text(json: Seq<char>, object: Seq<char>, key: Seq<char>) -> Option<Seq<char>>;

/// Parses `json` with `serde_json::from_str` into a `serde_json::Value`,
/// then takes `Value::get(object)`, `Value::get(key)` and `Value::as_str`.
/// Trusted: the text handed back is the one those calls give, a function of
/// the three arguments alone, which `json_member_text` names.
#[verifier::external_body]
fn json_member(json: &str, object: &str, key: &str) -> (r: Option<String>)
    ensures
        match json_member_text(json@, object@, key@) {
            Some(text) => r matches Some(s) && s@ == text,
            None => r is None,
        },
{
    let value: serde_json::Value = serde_json::from_str(json).ok()?;
    value.get(object)?.get(key)?.as_str().map(|text| text.to_string())
}

/// What `serde_json` reads from the JSON text `json` as the string member
/// `key` of its top-level object: none when the text is not JSON, the
/// member is missing, or its value is no string.
pub uninterp spec fn json_top_level_text(json: Seq<char>, key: Seq<char>) -> Option<Seq<char>>;

/// Parses `json` with `serde_json::from_str` into a `serde_json::Value`,
/// then takes `Value::get(key)` and `Value::as_str`. Trusted: the text
/// handed back is the one those calls give, a function of the two arguments
/// alone, which `json_top_level_text` names.
#[verifier::external_body]
fn json_top_level_member(json: &str, key: &str) -> (r: Option<String>)
    ensures
        match json_top_level_text(json@, key@) {
            Some(text) => r matches Some(s) && s@ == text,
            None => r is None,
        },
{
    let value: serde_json::Value = serde_json::from_str(json).ok()?;
    value.get(key)?.as_str().map(|text| text.to_string())
}

/// The language that the user picked in the settings file whose text is
/// `options_json`: its `launcher_language` member, when that is a string.
pub fn language_preference(options_json: &str) -> (r: Option<String>)
    ensures
        match json_top_level_text(options_json@, "launcher_language"@) {
            Some(text) => r matches Some(s) && s@ == text,
            None => r is None,
        },
{
    json_top_level_member(options_json, "launcher_language")
}

/// The translation of `key` in the locale `locale_id`.
pub open spec fn spec_locale_translation(
    catalog: Seq<(Seq<char>, Seq<char>)>,
    locale_id: Seq<char>,
    key: Seq<char>,
) -> Option<Seq<char>> {
    match lookup(catalog, locale_id) {
        Some(json) => json_member_text(json, "translations"@, key),
        None => None,
    }
}

/// The translation of `key` in `locale_id`, falling back to the default
/// locale.
pub open spec fn spec_translation_for_locale(
    catalog: Seq<(Seq<char>, Seq<char>)>,
    locale_id: Seq<char>,
    key: Seq<char>,
) -> Option<Seq<char>> {
    match spec_locale_translation(catalog, locale_id, key) {
        Some(text) => Some(text),
        None => if locale_id == default_locale() {
            None
        } else {
            spec_locale_translation(catalog, default_locale(), key)
        },
    }
}

/// A locale's own translation wins: when its file has the key, that text
/// is shown, whatever English says. Only a key that the locale lacks falls
/// back to English, and English has no fallback of its own.
pub proof fn lemma_own_translation_first(
    catalog: Seq<(Seq<char>, Seq<char>)>,
    locale_id: Seq<char>,
    key: Seq<char>,
)
    ensures
        spec_locale_translation(catalog, locale_id, key) is Some ==> spec_translation_for_locale(
            catalog,
            locale_id,
            key,
        ) == spec_locale_translation(catalog, locale_id, key),
        spec_locale_translation(catalog, locale_id, key) is None && locale_id != default_locale()
            ==> spec_translation_for_locale(catalog, locale_id, key) == spec_locale_translation(
            catalog,
            default_locale(),
            key,
        ),
        spec_locale_translation(catalog, locale_id, key) is None && locale_id == default_locale()
            ==> spec_translation_for_locale(catalog, locale_id, key) is None,
{
}

/// Where the locale `locale_id` stands in the catalog.
fn find_locale(catalog: &LocaleCatalog, locale_id: &str) -> (r: Option<usize>)
    ensures
        match lookup(catalog_view(catalog.locales@), locale_id@) {
            Some(json) => r matches Some(i) && i < catalog.locales@.len()
                && catalog_view(catalog.locales@)[i as int].1 == json,
            None => r is None,
        },
{
    let ghost c = catalog_view(catalog.locales@);
    let n = catalog.locales.len();
    assert(c.skip(0) =~= c);
    for i in 0..n
        invariant
            n == catalog.locales@.len() == c.len(),
            c == catalog_view(catalog.locales@),
            lookup(c, locale_id@) == lookup(c.skip(i as int), locale_id@),
    {
        assert(c.skip(i as int)[0] == c[i as int]);
        assert(c.skip(i as int).drop_first() =~= c.skip(i + 1));
        if str_equal(catalog.locales[i].locale_id.as_str(), locale_id) {
            return Some(i);
        }
    }
    assert(c.skip(n as int) =~= Seq::<(Seq<char>, Seq<char>)>::empty());
    None
}

/// The translation of `key` in the locale `locale_id`, if that locale has
/// one.
pub fn get_locale_translation(catalog: &LocaleCatalog, locale_id: &str, key: &str) -> (r: Option<
    String,
>)
    ensures
        match spec_locale_translation(catalog_view(catalog.locales@), locale_id@, key@) {
            Some(text) => r matches Some(s) && s@ == text,
            None => r is None,
        },
{
    let ghost c = catalog_view(catalog.locales@);
    let index = match find_locale(catalog, locale_id) {
        Some(index) => index,
        None => return None,
    };
    assert(lookup(c, locale_id@) == Some(c[index as int].1));
    json_member(catalog.locales[index].json.as_str(), "translations", key)
}

/// The translation of `key` in `locale_id`, else in the default locale.
pub fn get_translation_for_locale(catalog: &LocaleCatalog, locale_id: &str, key: &str) -> (r: Option<
    String,
>)
    ensures
        match spec_translation_for_locale(catalog_view(catalog.locales@), locale_id@, key@) {
            Some(text) => r matches Some(s) && s@ == text,
            None => r is None,
        },
{
    match get_locale_translation(catalog, locale_id, key) {
        Some(text) => Some(text),
        None => {
            if str_equal(locale_id, "en_US") {
                None
            } else {
                get_locale_translation(catalog, "en_US", key)
            }
        },
    }
}

} // verus!
