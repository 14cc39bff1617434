//! The launcher's state while it runs: its settings and whether an
//! injection is under way.
use vstd::prelude::*;

use crate::launch_request::BuildKind;
use crate::options::{
    bool_option_of, string_option_of, unknown_option_message, with_bool_option, with_string_option,
    OptionsStore, OptionsView,
};

verus! {

/// The launcher's state.
pub struct AppState {
    options: OptionsStore,
    is_injecting: bool,
    ui_ready: bool,
    tray_icon_visible: bool,
    injections_begun: Ghost<nat>,
}

/// Proof that this caller began the injection that is under way; handing it
/// back ends that injection.
pub struct InjectionGuard {
    number: Ghost<nat>,
}

impl InjectionGuard {
    /// Which injection the guard stands for, counting from zero.
    pub closed spec fn number(self) -> nat {
        self.number@
    }

    /// The guard stands for the injection under way in the state `s`.
    pub open spec fn issued_by(self, s: AppStateView) -> bool {
        s.is_injecting && self.number() + 1 == s.injections_begun
    }
}

/// The state as mathematical values.
pub struct AppStateView {
    pub options: OptionsView,
    pub is_injecting: bool,
    pub ui_ready: bool,
    pub tray_icon_visible: bool,
    /// How many injections have begun so far.
    pub injections_begun: nat,
}

impl View for AppState {
    type V = AppStateView;

    closed spec fn view(&self) -> AppStateView {
        AppStateView {
            options: self.options@,
            is_injecting: self.is_injecting,
            ui_ready: self.ui_ready,
            tray_icon_visible: self.tray_icon_visible,
            injections_begun: self.injections_begun@,
        }
    }
}

/// The state after an attempt to begin an injection, and whether it began.
pub open spec fn spec_try_begin_injection(s: AppStateView) -> (AppStateView, bool) {
    if s.is_injecting {
        (s, false)
    } else {
        (AppStateView { is_injecting: true, injections_begun: s.injections_begun + 1, ..s }, true)
    }
}

/// The state after the injection under way ended.
pub open spec fn spec_end_injection(s: AppStateView) -> AppStateView {
    AppStateView { is_injecting: false, ..s }
}

/// The message with which a second injection is refused.
pub open spec fn injection_in_progress_message() -> Seq<char> {
    "Injection is already in progress. Please wait until Status: Idle"@
}

impl AppState {
    /// A state with the given settings, no injection under way, the user
    /// interface not ready yet and no tray icon.
    pub fn new(options: OptionsStore) -> (r: Self)
        ensures
            r@ == (AppStateView {
                options: options@,
                is_injecting: false,
                ui_ready: false,
                tray_icon_visible: false,
                injections_begun: 0,
            }),
    {
        AppState {
            options,
            is_injecting: false,
            ui_ready: false,
            tray_icon_visible: false,
            injections_begun: Ghost(0),
        }
    }

    /// Begins an injection unless one is under way already.
    pub fn try_begin_injection(&mut self) -> (r: Result<InjectionGuard, String>)
        ensures
            final(self)@ == spec_try_begin_injection(old(self)@).0,
            r is Ok == spec_try_begin_injection(old(self)@).1,
            r matches Ok(g) ==> g.issued_by(final(self)@),
            r matches Err(e) ==> e@ == injection_in_progress_message(),
    {
        if self.is_injecting {
            Err(String::from_str("Injection is already in progress. Please wait until Status: Idle"))
        } else {
            let ghost number = self.injections_begun@;
            self.is_injecting = true;
            self.injections_begun = Ghost(number + 1);
            Ok(InjectionGuard { number: Ghost(number) })
        }
    }

    /// Ends the injection that `guard` began, which must be the one under
    /// way in this state.
    pub fn end_injection(&mut self, guard: InjectionGuard)
        requires
            guard.issued_by(old(self)@),
        ensures
            final(self)@ == spec_end_injection(old(self)@),
    {
        let InjectionGuard { number: _ } = guard;
        self.is_injecting = false;
    }

    pub fn is_injecting(&self) -> (r: bool)
        ensures
            r == self@.is_injecting,
    {
        self.is_injecting
    }

    /// The settings, to be saved.
    pub fn options(&self) -> (r: &OptionsStore)
        ensures
            r@ == self@.options,
    {
        &self.options
    }

    pub fn get_bool_option(&self, id: &str) -> (r: Result<bool, String>)
        ensures
            match bool_option_of(self@.options, id@) {
                Some(v) => r == Ok::<bool, String>(v),
                None => r matches Err(e) && e@ == unknown_option_message(id@),
            },
    {
        self.options.get_bool(id)
    }

    /// Sets a boolean option; saving the settings is left to the caller.
    pub fn update_bool_option(&mut self, id: &str, value: bool) -> (r: Result<(), String>)
        ensures
            match bool_option_of(old(self)@.options, id@) {
                Some(_) => r is Ok && final(self)@ == (AppStateView {
                    options: with_bool_option(old(self)@.options, id@, value),
                    ..old(self)@
                }),
                None => r matches Err(e) && e@ == unknown_option_message(id@) && final(self)@
                    == old(self)@,
            },
    {
        self.options.set_bool(id, value)
    }

    pub fn get_string_option(&self, id: &str) -> (r: Result<String, String>)
        ensures
            match string_option_of(self@.options, id@) {
                Some(v) => r matches Ok(s) && s@ == v,
                None => r matches Err(e) && e@ == unknown_option_message(id@),
            },
    {
        self.options.get_string(id)
    }

    /// Sets a text option; saving the settings is left to the caller.
    pub fn update_string_option(&mut self, id: &str, value: String) -> (r: Result<(), String>)
        ensures
            match string_option_of(old(self)@.options, id@) {
                Some(_) => r is Ok && final(self)@ == (AppStateView {
                    options: with_string_option(old(self)@.options, id@, value@),
                    ..old(self)@
                }),
                None => r matches Err(e) && e@ == unknown_option_message(id@) && final(self)@
                    == old(self)@,
            },
    {
        self.options.set_string(id, value)
    }

    pub fn get_latite_build(&self) -> (r: BuildKind)
        ensures
            r == self@.options.latite_build,
    {
        self.options.latite_build()
    }

    /// Sets the build channel; saving the settings is left to the caller.
    pub fn update_latite_build(&mut self, build: BuildKind)
        ensures
            final(self)@ == (AppStateView {
                options: OptionsView { latite_build: build, ..old(self)@.options },
                ..old(self)@
            }),
    {
        self.options.set_latite_build(build);
    }

    pub fn get_last_used_version(&self) -> (r: Option<String>)
        ensures
            match self@.options.last_used_version {
                Some(v) => r matches Some(s) && s@ == v,
                None => r is None,
            },
    {
        match self.options.last_used_version() {
            Some(version) => Some(String::from_str(version)),
            None => None,
        }
    }

    /// Records the release version last used; saving the settings is left
    /// to the caller.
    pub fn set_last_used_version(&mut self, version: Option<String>)
        ensures
            final(self)@ == (AppStateView {
                options: OptionsView {
                    last_used_version: match version {
                        Some(v) => Some(v@),
                        None => None,
                    },
                    ..old(self)@.options
                },
                ..old(self)@
            }),
    {
        self.options.set_last_used_version(version);
    }

    pub fn is_ui_ready(&self) -> (r: bool)
        ensures
            r == self@.ui_ready,
    {
        self.ui_ready
    }

    pub fn set_ui_ready(&mut self)
        ensures
            final(self)@ == (AppStateView { ui_ready: true, ..old(self)@ }),
    {
        self.ui_ready = true;
    }

    pub fn is_tray_icon_visible(&self) -> (r: bool)
        ensures
            r == self@.tray_icon_visible,
    {
        self.tray_icon_visible
    }

    pub fn set_tray_icon_visible(&mut self, visible: bool)
        ensures
            final(self)@ == (AppStateView { tray_icon_visible: visible, ..old(self)@ }),
    {
        self.tray_icon_visible = visible;
    }
}

/// At most one injection runs at a time: while one is under way another
/// cannot begin, and once it has ended the next one can; neither attempt
/// touches the settings.
pub proof fn lemma_injection_exclusive(s: AppStateView)
    ensures
        !spec_try_begin_injection(spec_try_begin_injection(s).0).1,
        spec_try_begin_injection(spec_end_injection(s)).1,
        spec_try_begin_injection(s).0.options == s.options,
        spec_end_injection(s).options == s.options,
{
}

} // verus!
