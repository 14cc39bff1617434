use latite_launcher::app_state::AppState;
use latite_launcher::launch_request::{BuildKind, InjectRequest};
use latite_launcher::options::{Options, OptionsStore};

#[test]
fn default_options() {
    let options = Options::default();
    assert!(options.rpc_enabled && options.rpc_show_server);
    assert!(options.rpc_show_mc_version && options.rpc_show_time_played);
    assert!(!options.misc_hide_on_close && !options.misc_close_after_injected);
    assert!(!options.use_custom_dll);
    assert_eq!(options.custom_dll_path, "");
    assert_eq!(options.launcher_language, "auto");
    assert_eq!(options.latite_build, BuildKind::Release);
    assert_eq!(options.last_used_version, None);
    assert_eq!(BuildKind::default(), BuildKind::Release);
    let request = InjectRequest::default();
    assert!(request.dll_path.is_none() && request.build.is_none());
}

#[test]
fn bool_option_read_after_write_and_frame() {
    let mut store = OptionsStore::default();
    assert_eq!(store.get_bool("misc_hide_on_close"), Ok(false));
    assert_eq!(store.set_bool("misc_hide_on_close", true), Ok(()));
    assert_eq!(store.get_bool("misc_hide_on_close"), Ok(true));
    assert_eq!(store.get_bool("rpc_enabled"), Ok(true));
    assert_eq!(store.get_bool("misc_close_after_injected"), Ok(false));
    assert_eq!(store.get_string("launcher_language"), Ok("auto".to_string()));
}

#[test]
fn unknown_options_are_refused() {
    let mut store = OptionsStore::default();
    assert_eq!(store.get_bool("nope"), Err("Unknown option: nope".to_string()));
    assert_eq!(store.set_bool("custom_dll_path", true), Err("Unknown option: custom_dll_path".to_string()));
    assert_eq!(store.get_string("rpc_enabled"), Err("Unknown option: rpc_enabled".to_string()));
    assert_eq!(
        store.set_string("latite_build", "x".to_string()),
        Err("Unknown option: latite_build".to_string())
    );
    assert_eq!(store.get_bool("rpc_enabled"), Ok(true));
}

#[test]
fn string_options_and_build() {
    let mut store = OptionsStore::default();
    assert_eq!(store.set_string("custom_dll_path", "C:\\a.dll".to_string()), Ok(()));
    assert_eq!(store.get_string("custom_dll_path"), Ok("C:\\a.dll".to_string()));
    assert_eq!(store.get_string("launcher_language"), Ok("auto".to_string()));
    store.set_latite_build(BuildKind::Nightly);
    assert_eq!(store.latite_build(), BuildKind::Nightly);
    assert_eq!(store.last_used_version(), None);
    store.set_last_used_version(Some("2.0".to_string()));
    assert_eq!(store.last_used_version(), Some("2.0"));
    assert_eq!(store.options().custom_dll_path, "C:\\a.dll");
}

#[test]
fn options_lookup_by_reference() {
    let mut options = Options::default();
    assert_eq!(options.bool_option("use_custom_dll"), Ok(&false));
    *options.bool_option_mut("use_custom_dll").unwrap() = true;
    assert!(options.use_custom_dll);
    options.string_option_mut("launcher_language").unwrap().push_str("-x");
    assert_eq!(options.string_option("launcher_language"), Ok(&"auto-x".to_string()));
    assert!(options.bool_option_mut("x").is_err());
}

#[test]
fn only_one_injection_at_a_time() {
    let mut state = AppState::new(OptionsStore::default());
    let guard = state.try_begin_injection().expect("first injection begins");
    assert!(state.is_injecting());
    assert_eq!(
        state.try_begin_injection().err(),
        Some("Injection is already in progress. Please wait until Status: Idle".to_string())
    );
    state.end_injection(guard);
    assert!(!state.is_injecting());
    let again = state.try_begin_injection();
    assert!(again.is_ok());
}

#[test]
fn app_state_options_and_flags() {
    let mut state = AppState::new(OptionsStore::default());
    assert_eq!(state.update_bool_option("rpc_enabled", false), Ok(()));
    assert_eq!(state.get_bool_option("rpc_enabled"), Ok(false));
    assert!(state.update_bool_option("bogus", true).is_err());
    assert_eq!(state.update_string_option("launcher_language", "fr_FR".to_string()), Ok(()));
    assert_eq!(state.get_string_option("launcher_language"), Ok("fr_FR".to_string()));
    state.update_latite_build(BuildKind::Debug);
    assert_eq!(state.get_latite_build(), BuildKind::Debug);
    assert_eq!(state.get_last_used_version(), None);
    state.set_last_used_version(Some("3.1".to_string()));
    assert_eq!(state.get_last_used_version(), Some("3.1".to_string()));
    assert!(!state.is_ui_ready());
    state.set_ui_ready();
    assert!(state.is_ui_ready());
    assert!(!state.is_tray_icon_visible());
    state.set_tray_icon_visible(true);
    assert!(state.is_tray_icon_visible());
    assert_eq!(state.options().get_bool("rpc_enabled"), Ok(false));
}
