//! Messages for the launcher's window: status lines, dialogs, and the
//! filling of `{}` placeholders in their translations.
use vstd::prelude::*;

use crate::text::{
    append_chars, chars_of, copy_range, find_from, occurs_at, string_from_chars, string_views,
};

verus! {

/// A status line: a translation key and the arguments for its placeholders.
pub struct UiMessage {
    pub key: String,
    pub args: Vec<String>,
}

impl UiMessage {
    pub fn new(key: &str) -> (r: Self)
        ensures
            r.key@ == key@,
            r.args@.len() == 0,
    {
        UiMessage { key: String::from_str(key), args: Vec::new() }
    }

    /// The message with one more argument.
    pub fn with_arg(self, value: &str) -> (r: Self)
        ensures
            r.key@ == self.key@,
            string_views(r.args@) == string_views(self.args@).push(value@),
    {
        let mut message = self;
        let ghost before = message.args@;
        message.args.push(String::from_str(value));
        assert(string_views(message.args@) =~= string_views(before).push(value@));
        message
    }
}

/// How a dialog is shown.
#[derive(Clone, Copy, Debug, PartialEq, Eq, Structural)]
pub enum UiDialogLevel {
    Info,
    Error,
}

/// A dialog: its level, a translation key and the arguments for its
/// placeholders.
pub struct UiDialog {
    pub level: UiDialogLevel,
    pub key: String,
    pub args: Vec<String>,
}

impl UiDialog {
    pub fn info(key: &str) -> (r: Self)
        ensures
            r.level == UiDialogLevel::Info,
            r.key@ == key@,
            r.args@.len() == 0,
    {
        UiDialog { level: UiDialogLevel::Info, key: String::from_str(key), args: Vec::new() }
    }

    pub fn error(key: &str) -> (r: Self)
        ensures
            r.level == UiDialogLevel::Error,
            r.key@ == key@,
            r.args@.len() == 0,
    {
        UiDialog { level: UiDialogLevel::Error, key: String::from_str(key), args: Vec::new() }
    }

    /// The dialog with one more argument.
    pub fn with_arg(self, value: &str) -> (r: Self)
        ensures
            r.level == self.level,
            r.key@ == self.key@,
            string_views(r.args@) == string_views(self.args@).push(value@),
    {
        let mut dialog = self;
        let ghost before = dialog.args@;
        dialog.args.push(String::from_str(value));
        assert(string_views(dialog.args@) =~= string_views(before).push(value@));
        dialog
    }
}

/// The placeholder `{}`.
pub open spec fn placeholder() -> Seq<char> {
    seq!['{', '}']
}

/// `template` with each `{}`, from the left, replaced by the next unused
/// argument; a `{}` left without an argument stays as it is.
pub open spec fn spec_interpolate(template: Seq<char>, args: Seq<Seq<char>>) -> Seq<char>
    decreases template.len(),
{
    if template.len() == 0 {
        Seq::<char>::empty()
    } else if template.len() >= 2 && template[0] == '{' && template[1] == '}' {
        if args.len() > 0 {
            args[0] + spec_interpolate(template.skip(2), args.drop_first())
        } else {
            placeholder() + spec_interpolate(template.skip(2), args)
        }
    } else {
        seq![template[0]] + spec_interpolate(template.drop_first(), args)
    }
}

/// Up to the next placeholder, the template is copied as it is.
proof fn lemma_interpolate_plain(t: Seq<char>, args: Seq<Seq<char>>, pos: int, i: int)
    requires
        0 <= pos <= i <= t.len(),
        forall|j: int| pos <= j < i ==> !occurs_at(t, placeholder(), j),
    ensures
        spec_interpolate(t.skip(pos), args) == t.subrange(pos, i) + spec_interpolate(
            t.skip(i),
            args,
        ),
    decreases i - pos,
{
    if pos < i {
        let s = t.skip(pos);
        if s.len() >= 2 && s[0] == '{' && s[1] == '}' {
            assert(t.subrange(pos, pos + 2) =~= placeholder());
            assert(occurs_at(t, placeholder(), pos));
        }
        assert(s.drop_first() =~= t.skip(pos + 1));
        lemma_interpolate_plain(t, args, pos + 1, i);
        assert(t.subrange(pos, i) =~= seq![t[pos]] + t.subrange(pos + 1, i));
    } else {
        assert(t.subrange(pos, pos) =~= Seq::<char>::empty());
    }
}

/// A template without placeholders is shown as it is, whatever the
/// arguments.
pub proof fn lemma_interpolate_without_placeholders(template: Seq<char>, args: Seq<Seq<char>>)
    requires
        forall|j: int| !occurs_at(template, placeholder(), j),
    ensures
        spec_interpolate(template, args) == template,
{
    lemma_interpolate_plain(template, args, 0, template.len() as int);
    assert(template.skip(0) =~= template);
    assert(template.subrange(0, template.len() as int) =~= template);
    assert(template.skip(template.len() as int) =~= Seq::<char>::empty());
}

/// Fills the `{}` placeholders of `template` with `args`, in order; a
/// placeholder left without an argument stays as it is.
pub fn interpolate_translation(template: &str, args: &[String]) -> (r: String)
    ensures
        r@ == spec_interpolate(template@, string_views(args@)),
{
    let t = chars_of(template);
    let mut needle: Vec<char> = Vec::new();
    needle.push('{');
    needle.push('}');
    assert(needle@ =~= placeholder());
    let ghost a = string_views(args@);
    let mut out: Vec<char> = Vec::new();
    let mut pos: usize = 0;
    let mut arg_index: usize = 0;
    assert(t@.skip(0) =~= t@);
    assert(a.skip(0) =~= a);
    while pos <= t.len()
        invariant
            t@ == template@,
            needle@ == placeholder(),
            a == string_views(args@),
            pos <= t@.len(),
            arg_index <= a.len(),
            out@ + spec_interpolate(t@.skip(pos as int), a.skip(arg_index as int)) == spec_interpolate(
                t@,
                a,
            ),
        decreases t@.len() - pos,
    {
        match find_from(&t, &needle, pos) {
            None => {
                proof {
                    lemma_interpolate_plain(t@, a.skip(arg_index as int), pos as int, t@.len() as int);
                    assert(t@.skip(t@.len() as int) =~= Seq::<char>::empty());
                    assert(t@.subrange(pos as int, t@.len() as int) =~= t@.skip(pos as int));
                }
                let rest = copy_range(&t, pos, t.len());
                append_chars(&mut out, &rest);
                assert(out@ =~= spec_interpolate(t@, a));
                return string_from_chars(&out);
            },
            Some(i) => {
                let ghost before = out@;
                let ghost rest_args = a.skip(arg_index as int);
                proof {
                    lemma_interpolate_plain(t@, rest_args, pos as int, i as int);
                    assert(t@.subrange(i as int, i + 2)[0] == t@[i as int]);
                    assert(t@.subrange(i as int, i + 2)[1] == t@[i + 1]);
                    assert(t@.skip(i as int).skip(2) =~= t@.skip(i + 2));
                }
                let plain = copy_range(&t, pos, i);
                append_chars(&mut out, &plain);
                if arg_index < args.len() {
                    let arg_chars = chars_of(args[arg_index].as_str());
                    append_chars(&mut out, &arg_chars);
                    proof {
                        assert(rest_args[0] == a[arg_index as int]);
                        assert(rest_args.drop_first() =~= a.skip(arg_index + 1));
                    }
                    arg_index += 1;
                } else {
                    append_chars(&mut out, &needle);
                }
                pos = i + 2;
                assert(out@ + spec_interpolate(t@.skip(pos as int), a.skip(arg_index as int))
                    =~= spec_interpolate(t@, a));
            },
        }
    }
    string_from_chars(&out)
}

/// The text of a dialog: its translation (the key itself when there is
/// none) with the dialog's arguments filled in.
pub fn translate_dialog_message(dialog: &UiDialog, translation: Option<String>) -> (r: String)
    ensures
        r@ == spec_interpolate(
            match translation {
                Some(t) => t@,
                None => dialog.key@,
            },
            string_views(dialog.args@),
        ),
{
    let template = match translation {
        Some(text) => text,
        None => dialog.key.clone(),
    };
    interpolate_translation(template.as_str(), dialog.args.as_slice())
}

} // verus!
