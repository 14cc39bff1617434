//! The launcher's settings and their lookup by option id.
use vstd::prelude::*;

use crate::launch_request::BuildKind;
use crate::text::str_equal;

verus! {

/// The launcher's settings, as stored in `options.json`.
pub struct Options {
    pub rpc_enabled: bool,
    pub rpc_show_server: bool,
    pub rpc_show_mc_version: bool,
    pub rpc_show_time_played: bool,
    pub misc_hide_on_close: bool,
    pub misc_close_after_injected: bool,
    pub use_custom_dll: bool,
    pub custom_dll_path: String,
    pub launcher_language: String,
    pub latite_build: BuildKind,
    pub last_used_version: Option<String>,
}

/// The settings as mathematical values.
pub struct OptionsView {
    pub rpc_enabled: bool,
    pub rpc_show_server: bool,
    pub rpc_show_mc_version: bool,
    pub rpc_show_time_played: bool,
    pub misc_hide_on_close: bool,
    pub misc_close_after_injected: bool,
    pub use_custom_dll: bool,
    pub custom_dll_path: Seq<char>,
    pub launcher_language: Seq<char>,
    pub latite_build: BuildKind,
    pub last_used_version: Option<Seq<char>>,
}

impl View for Options {
    type V = OptionsView;

    open spec fn view(&self) -> OptionsView {
        OptionsView {
            rpc_enabled: self.rpc_enabled,
            rpc_show_server: self.rpc_show_server,
            rpc_show_mc_version: self.rpc_show_mc_version,
            rpc_show_time_played: self.rpc_show_time_played,
            misc_hide_on_close: self.misc_hide_on_close,
            misc_close_after_injected: self.misc_close_after_injected,
            use_custom_dll: self.use_custom_dll,
            custom_dll_path: self.custom_dll_path@,
            launcher_language: self.launcher_language@,
            latite_build: self.latite_build,
            last_used_version: match self.last_used_version {
                Some(v) => Some(v@),
                None => None,
            },
        }
    }
}

/// The value of the boolean option `id`, if there is one by that id.
pub open spec fn bool_option_of(o: OptionsView, id: Seq<char>) -> Option<bool> {
    if id == "rpc_enabled"@ {
        Some(o.rpc_enabled)
    } else if id == "rpc_show_server"@ {
        Some(o.rpc_show_server)
    } else if id == "rpc_show_mc_version"@ {
        Some(o.rpc_show_mc_version)
    } else if id == "rpc_show_time_played"@ {
        Some(o.rpc_show_time_played)
    } else if id == "misc_hide_on_close"@ {
        Some(o.misc_hide_on_close)
    } else if id == "misc_close_after_injected"@ {
        Some(o.misc_close_after_injected)
    } else if id == "use_custom_dll"@ {
        Some(o.use_custom_dll)
    } else {
        None
    }
}

/// The settings with the boolean option `id` set to `value` (unchanged when
/// there is no such option).
pub open spec fn with_bool_option(o: OptionsView, id: Seq<char>, value: bool) -> OptionsView {
    if id == "rpc_enabled"@ {
        OptionsView { rpc_enabled: value, ..o }
    } else if id == "rpc_show_server"@ {
        OptionsView { rpc_show_server: value, ..o }
    } else if id == "rpc_show_mc_version"@ {
        OptionsView { rpc_show_mc_version: value, ..o }
    } else if id == "rpc_show_time_played"@ {
        OptionsView { rpc_show_time_played: value, ..o }
    } else if id == "misc_hide_on_close"@ {
        OptionsView { misc_hide_on_close: value, ..o }
    } else if id == "misc_close_after_injected"@ {
        OptionsView { misc_close_after_injected: value, ..o }
    } else if id == "use_custom_dll"@ {
        OptionsView { use_custom_dll: value, ..o }
    } else {
        o
    }
}

/// The value of the text option `id`, if there is one by that id.
pub open spec fn string_option_of(o: OptionsView, id: Seq<char>) -> Option<Seq<char>> {
    if id == "custom_dll_path"@ {
        Some(o.custom_dll_path)
    } else if id == "launcher_language"@ {
        Some(o.launcher_language)
    } else {
        None
    }
}

/// The settings with the text option `id` set to `value` (unchanged when
/// there is no such option).
pub open spec fn with_string_option(o: OptionsView, id: Seq<char>, value: Seq<char>) -> OptionsView {
    if id == "custom_dll_path"@ {
        OptionsView { custom_dll_path: value, ..o }
    } else if id == "launcher_language"@ {
        OptionsView { launcher_language: value, ..o }
    } else {
        o
    }
}

/// The error for an option id that does not exist.
pub open spec fn unknown_option_message(id: Seq<char>) -> Seq<char> {
    "Unknown option: "@ + id
}

/// The settings that a fresh launcher starts with.
pub open spec fn default_options() -> OptionsView {
    OptionsView {
        rpc_enabled: true,
        rpc_show_server: true,
        rpc_show_mc_version: true,
        rpc_show_time_played: true,
        misc_hide_on_close: false,
        misc_close_after_injected: false,
        use_custom_dll: false,
        custom_dll_path: Seq::<char>::empty(),
        launcher_language: "auto"@,
        latite_build: BuildKind::Release,
        last_used_version: None,
    }
}

fn unknown_option(id: &str) -> (r: String)
    ensures
        r@ == unknown_option_message(id@),
{
    let mut message = String::from_str("Unknown option: ");
    message.append(id);
    message
}

impl Default for Options {
    fn default() -> (r: Self)
        ensures
            r@ == default_options(),
    {
        Options {
            rpc_enabled: true,
            rpc_show_server: true,
            rpc_show_mc_version: true,
            rpc_show_time_played: true,
            misc_hide_on_close: false,
            misc_close_after_injected: false,
            use_custom_dll: false,
            custom_dll_path: String::new(),
            launcher_language: String::from_str("auto"),
            latite_build: BuildKind::Release,
            last_used_version: None,
        }
    }
}

impl Options {
    /// The boolean option `id`.
    pub fn bool_option(&self, id: &str) -> (r: Result<&bool, String>)
        ensures
            match bool_option_of(self@, id@) {
                Some(v) => r matches Ok(b) && *b == v,
                None => r matches Err(e) && e@ == unknown_option_message(id@),
            },
    {
        if str_equal(id, "rpc_enabled") {
            Ok(&self.rpc_enabled)
        } else if str_equal(id, "rpc_show_server") {
            Ok(&self.rpc_show_server)
        } else if str_equal(id, "rpc_show_mc_version") {
            Ok(&self.rpc_show_mc_version)
        } else if str_equal(id, "rpc_show_time_played") {
            Ok(&self.rpc_show_time_played)
        } else if str_equal(id, "misc_hide_on_close") {
            Ok(&self.misc_hide_on_close)
        } else if str_equal(id, "misc_close_after_injected") {
            Ok(&self.misc_close_after_injected)
        } else if str_equal(id, "use_custom_dll") {
            Ok(&self.use_custom_dll)
        } else {
            Err(unknown_option(id))
        }
    }

    /// The boolean option `id`, to be written through.
    pub fn bool_option_mut(&mut self, id: &str) -> (r: Result<&mut bool, String>)
        ensures
            match bool_option_of(old(self)@, id@) {
                Some(v) => r matches Ok(b) && *b == v && final(self)@ == with_bool_option(
                    old(self)@,
                    id@,
                    *final(b),
                ),
                None => r matches Err(e) && e@ == unknown_option_message(id@) && final(self)@
                    == old(self)@,
            },
    {
        if str_equal(id, "rpc_enabled") {
            Ok(&mut self.rpc_enabled)
        } else if str_equal(id, "rpc_show_server") {
            Ok(&mut self.rpc_show_server)
        } else if str_equal(id, "rpc_show_mc_version") {
            Ok(&mut self.rpc_show_mc_version)
        } else if str_equal(id, "rpc_show_time_played") {
            Ok(&mut self.rpc_show_time_played)
        } else if str_equal(id, "misc_hide_on_close") {
            Ok(&mut self.misc_hide_on_close)
        } else if str_equal(id, "misc_close_after_injected") {
            Ok(&mut self.misc_close_after_injected)
        } else if str_equal(id, "use_custom_dll") {
            Ok(&mut self.use_custom_dll)
        } else {
            Err(unknown_option(id))
        }
    }

    /// The text option `id`.
    pub fn string_option(&self, id: &str) -> (r: Result<&String, String>)
        ensures
            match string_option_of(self@, id@) {
                Some(v) => r matches Ok(s) && s@ == v,
                None => r matches Err(e) && e@ == unknown_option_message(id@),
            },
    {
        if str_equal(id, "custom_dll_path") {
            Ok(&self.custom_dll_path)
        } else if str_equal(id, "launcher_language") {
            Ok(&self.launcher_language)
        } else {
            Err(unknown_option(id))
        }
    }

    /// The text option `id`, to be written through.
    pub fn string_option_mut(&mut self, id: &str) -> (r: Result<&mut String, String>)
        ensures
            match string_option_of(old(self)@, id@) {
                Some(v) => r matches Ok(s) && s@ == v && final(self)@ == with_string_option(
                    old(self)@,
                    id@,
                    final(s)@,
                ),
                None => r matches Err(e) && e@ == unknown_option_message(id@) && final(self)@
                    == old(self)@,
            },
    {
        if str_equal(id, "custom_dll_path") {
            Ok(&mut self.custom_dll_path)
        } else if str_equal(id, "launcher_language") {
            Ok(&mut self.launcher_language)
        } else {
            Err(unknown_option(id))
        }
    }
}

/// The settings that the launcher reads and changes at run time.
pub struct OptionsStore {
    options: Options,
}

impl View for OptionsStore {
    type V = OptionsView;

    closed spec fn view(&self) -> OptionsView {
        self.options@
    }
}

impl Default for OptionsStore {
    fn default() -> (r: Self)
        ensures
            r@ == default_options(),
    {
        OptionsStore { options: Options::default() }
    }
}

impl OptionsStore {
    /// A store holding the given settings.
    pub fn new(options: Options) -> (r: Self)
        ensures
            r@ == options@,
    {
        OptionsStore { options }
    }

    /// The settings, to be saved.
    pub fn options(&self) -> (r: &Options)
        ensures
            r@ == self@,
    {
        &self.options
    }

    pub fn get_bool(&self, id: &str) -> (r: Result<bool, String>)
        ensures
            match bool_option_of(self@, id@) {
                Some(v) => r == Ok::<bool, String>(v),
                None => r matches Err(e) && e@ == unknown_option_message(id@),
            },
    {
        match self.options.bool_option(id) {
            Ok(value) => Ok(*value),
            Err(error) => Err(error),
        }
    }

    pub fn set_bool(&mut self, id: &str, value: bool) -> (r: Result<(), String>)
        ensures
            match bool_option_of(old(self)@, id@) {
                Some(_) => r is Ok && final(self)@ == with_bool_option(old(self)@, id@, value),
                None => r matches Err(e) && e@ == unknown_option_message(id@) && final(self)@
                    == old(self)@,
            },
    {
        match self.options.bool_option_mut(id) {
            Ok(slot) => {
                *slot = value;
                Ok(())
            },
            Err(error) => Err(error),
        }
    }

    pub fn get_string(&self, id: &str) -> (r: Result<String, String>)
        ensures
            match string_option_of(self@, id@) {
                Some(v) => r matches Ok(s) && s@ == v,
                None => r matches Err(e) && e@ == unknown_option_message(id@),
            },
    {
        match self.options.string_option(id) {
            Ok(value) => Ok(value.clone()),
            Err(error) => Err(error),
        }
    }

    pub fn set_string(&mut self, id: &str, value: String) -> (r: Result<(), String>)
        ensures
            match string_option_of(old(self)@, id@) {
                Some(_) => r is Ok && final(self)@ == with_string_option(old(self)@, id@, value@),
                None => r matches Err(e) && e@ == unknown_option_message(id@) && final(self)@
                    == old(self)@,
            },
    {
        match self.options.string_option_mut(id) {
            Ok(slot) => {
                *slot = value;
                Ok(())
            },
            Err(error) => Err(error),
        }
    }

    pub fn latite_build(&self) -> (r: BuildKind)
        ensures
            r == self@.latite_build,
    {
        self.options.latite_build
    }

    pub fn set_latite_build(&mut self, build: BuildKind)
        ensures
            final(self)@ == (OptionsView { latite_build: build, ..old(self)@ }),
    {
        self.options.latite_build = build;
    }

    pub fn last_used_version(&self) -> (r: Option<&str>)
        ensures
            match self@.last_used_version {
                Some(v) => r matches Some(s) && s@ == v,
                None => r is None,
            },
    {
        match &self.options.last_used_version {
            Some(version) => Some(version.as_str()),
            None => None,
        }
    }

    pub fn set_last_used_version(&mut self, version: Option<String>)
        ensures
            final(self)@ == (OptionsView {
                last_used_version: match version {
                    Some(v) => Some(v@),
                    None => None,
                },
                ..old(self)@
            }),
    {
        self.options.last_used_version = version;
    }
}

/// Each option id reads and writes the setting of the same name, and only
/// these ids name options.
pub proof fn lemma_option_ids_name_their_settings(o: OptionsView, flag: bool, text: Seq<char>)
    ensures
        bool_option_of(o, "rpc_enabled"@) == Some(o.rpc_enabled),
        bool_option_of(o, "rpc_show_server"@) == Some(o.rpc_show_server),
        bool_option_of(o, "rpc_show_mc_version"@) == Some(o.rpc_show_mc_version),
        bool_option_of(o, "rpc_show_time_played"@) == Some(o.rpc_show_time_played),
        bool_option_of(o, "misc_hide_on_close"@) == Some(o.misc_hide_on_close),
        bool_option_of(o, "misc_close_after_injected"@) == Some(o.misc_close_after_injected),
        bool_option_of(o, "use_custom_dll"@) == Some(o.use_custom_dll),
        with_bool_option(o, "rpc_enabled"@, flag) == (OptionsView { rpc_enabled: flag, ..o }),
        with_bool_option(o, "rpc_show_server"@, flag) == (OptionsView { rpc_show_server: flag, ..o }),
        with_bool_option(o, "rpc_show_mc_version"@, flag) == (OptionsView {
            rpc_show_mc_version: flag,
            ..o
        }),
        with_bool_option(o, "rpc_show_time_played"@, flag) == (OptionsView {
            rpc_show_time_played: flag,
            ..o
        }),
        with_bool_option(o, "misc_hide_on_close"@, flag) == (OptionsView {
            misc_hide_on_close: flag,
            ..o
        }),
        with_bool_option(o, "misc_close_after_injected"@, flag) == (OptionsView {
            misc_close_after_injected: flag,
            ..o
        }),
        with_bool_option(o, "use_custom_dll"@, flag) == (OptionsView { use_custom_dll: flag, ..o }),
        string_option_of(o, "custom_dll_path"@) == Some(o.custom_dll_path),
        string_option_of(o, "launcher_language"@) == Some(o.launcher_language),
        with_string_option(o, "custom_dll_path"@, text) == (OptionsView {
            custom_dll_path: text,
            ..o
        }),
        with_string_option(o, "launcher_language"@, text) == (OptionsView {
            launcher_language: text,
            ..o
        }),
        bool_option_of(o, "custom_dll_path"@) is None,
        bool_option_of(o, "launcher_language"@) is None,
        string_option_of(o, "misc_hide_on_close"@) is None,
{
    reveal_strlit("rpc_enabled");
    reveal_strlit("rpc_show_server");
    reveal_strlit("rpc_show_mc_version");
    reveal_strlit("rpc_show_time_played");
    reveal_strlit("misc_hide_on_close");
    reveal_strlit("misc_close_after_injected");
    reveal_strlit("use_custom_dll");
    reveal_strlit("custom_dll_path");
    reveal_strlit("launcher_language");
    assert("rpc_enabled"@.len() == 11);
    assert("rpc_show_server"@.len() == 15);
    assert("rpc_show_mc_version"@.len() == 19);
    assert("rpc_show_time_played"@.len() == 20);
    assert("misc_hide_on_close"@.len() == 18);
    assert("misc_close_after_injected"@.len() == 25);
    assert("use_custom_dll"@.len() == 14);
    assert("custom_dll_path"@.len() == 15);
    assert("launcher_language"@.len() == 17);
    assert("rpc_show_server"@[0] != "custom_dll_path"@[0]);
}

/// Reading a boolean option after writing it gives back the written value.
pub proof fn lemma_bool_option_read_after_write(o: OptionsView, id: Seq<char>, value: bool)
    requires
        bool_option_of(o, id) is Some,
    ensures
        bool_option_of(with_bool_option(o, id, value), id) == Some(value),
{
}

/// Writing a boolean option leaves every other boolean option, and every
/// text option, as it was.
pub proof fn lemma_bool_option_write_frame(
    o: OptionsView,
    id: Seq<char>,
    other: Seq<char>,
    value: bool,
)
    requires
        id != other,
    ensures
        bool_option_of(with_bool_option(o, id, value), other) == bool_option_of(o, other),
        string_option_of(with_bool_option(o, id, value), other) == string_option_of(o, other),
        with_bool_option(o, id, value).latite_build == o.latite_build,
        with_bool_option(o, id, value).last_used_version == o.last_used_version,
{
}

/// Reading a text option after writing it gives back the written value.
pub proof fn lemma_string_option_read_after_write(o: OptionsView, id: Seq<char>, value: Seq<char>)
    requires
        string_option_of(o, id) is Some,
    ensures
        string_option_of(with_string_option(o, id, value), id) == Some(value),
{
}

/// Writing a text option leaves every other text option, and every boolean
/// option, as it was.
pub proof fn lemma_string_option_write_frame(
    o: OptionsView,
    id: Seq<char>,
    other: Seq<char>,
    value: Seq<char>,
)
    requires
        id != other,
    ensures
        string_option_of(with_string_option(o, id, value), other) == string_option_of(o, other),
        bool_option_of(with_string_option(o, id, value), other) == bool_option_of(o, other),
        with_string_option(o, id, value).latite_build == o.latite_build,
        with_string_option(o, id, value).last_used_version == o.last_used_version,
{
}

} // verus!
