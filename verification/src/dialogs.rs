//! The text of the launcher's native dialogs.
use vstd::prelude::*;

verus! {

/// A translation, else the English text.
pub open spec fn translated_or(translation: Option<Seq<char>>, fallback: Seq<char>) -> Seq<char> {
    match translation {
        Some(t) => t,
        None => fallback,
    }
}

/// A translation, else the given English text.
pub fn translation_or(translation: Option<String>, fallback: &str) -> (r: String)
    ensures
        r@ == translated_or(
            match translation {
                Some(t) => Some(t@),
                None => None,
            },
            fallback@,
        ),
{
    match translation {
        Some(text) => text,
        None => String::from_str(fallback),
    }
}

/// An error message followed by a blank line and the request to report the
/// bug (its two parts translated where a translation is given).
pub fn append_error_report_message(
    message: &str,
    report_bug: Option<String>,
    report_bug_pinned: Option<String>,
) -> (r: String)
    ensures
        r@ == message@ + "\n\n"@ + translated_or(
            match report_bug {
                Some(t) => Some(t@),
                None => None,
            },
            "If you think this is a bug, you should report it in the Latite Client Discord in #report-bugs "@,
        ) + translated_or(
            match report_bug_pinned {
                Some(t) => Some(t@),
                None => None,
            },
            "(make sure to read the pinned post!)"@,
        ),
{
    let prefix = translation_or(
        report_bug,
        "If you think this is a bug, you should report it in the Latite Client Discord in #report-bugs ",
    );
    let note = translation_or(report_bug_pinned, "(make sure to read the pinned post!)");
    let mut text = String::from_str(message);
    text.append("\n\n");
    text.append(prefix.as_str());
    text.append(note.as_str());
    text
}

} // verus!
