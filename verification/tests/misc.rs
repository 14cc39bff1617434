use latite_launcher::crash_dumps::{
    crash_dumps_to_delete, is_crash_dump_file, is_expired_crash_dump, CrashDumpCandidate,
};
use latite_launcher::process_monitor::MonitoredProcesses;
use latite_launcher::dialogs::{append_error_report_message, translation_or};
use latite_launcher::minecraft::{minecraft_bootstrap_command, minecraft_executable_path};
use latite_launcher::single_instance::{
    another_instance_running_message, duplicate_signal_payload, instance_guard_change,
    is_new_duplicate_signal, GuardChange, InstanceManager,
};

#[test]
fn error_report_message() {
    assert_eq!(
        append_error_report_message("Boom", None, None),
        "Boom\n\nIf you think this is a bug, you should report it in the Latite Client Discord in #report-bugs (make sure to read the pinned post!)"
    );
    assert_eq!(
        append_error_report_message("Boom", Some("A ".to_string()), Some("B".to_string())),
        "Boom\n\nA B"
    );
    assert_eq!(translation_or(None, "Exit"), "Exit");
    assert_eq!(translation_or(Some("Quitter".to_string()), "Exit"), "Quitter");
}

#[test]
fn crash_dump_selection() {
    assert!(is_crash_dump_file(Some("dmp")));
    assert!(is_crash_dump_file(Some("DMP")));
    assert!(!is_crash_dump_file(Some("log")));
    assert!(!is_crash_dump_file(None));
    assert!(!is_expired_crash_dump(604800, 0));
    assert!(is_expired_crash_dump(604800, 1));
    assert!(is_expired_crash_dump(604801, 0));
    assert!(!is_expired_crash_dump(10, 999));
}

#[test]
fn minecraft_bootstrap() {
    assert_eq!(minecraft_executable_path("C:\\MC"), "C:\\MC\\Minecraft.Windows.exe");
    assert_eq!(
        minecraft_bootstrap_command("C:\\MC\\Minecraft.Windows.exe"),
        "Invoke-CommandInDesktopPackage -PackageFamilyName 'Microsoft.MinecraftUWP_8wekyb3d8bbwe' -AppId 'Game' -Command 'C:\\MC\\Minecraft.Windows.exe'"
    );
}

#[test]
fn duplicate_instance_signal() {
    assert_eq!(duplicate_signal_payload(42, 1000), "pid=42;timestamp=1000");
    assert!(is_new_duplicate_signal(None, "a"));
    assert!(is_new_duplicate_signal(Some("a"), "b"));
    assert!(!is_new_duplicate_signal(Some("a"), "a"));
}

use latite_launcher::launcher::{process_exit_failure, process_not_found_message};
use latite_launcher::window::{plan_option_update, tray_action, TrayAction, TrayEvent};

#[test]
fn injected_process_exit() {
    assert!(process_exit_failure(7, 0).is_none());
    let failure = process_exit_failure(1234, 0xC0000005).expect("a crash is reported");
    assert_eq!(failure.status_key, "launcher.status.injectFailed.name");
    assert_eq!(failure.dialog.key, "launcher.error.injectedProcessExited.name");
    assert_eq!(failure.dialog.args, vec!["1234".to_string(), "0xc0000005".to_string()]);
    assert_eq!(
        failure.message,
        "Minecraft process 1234 closed after DLL injection with exit code 0xc0000005. The DLL may be incompatible with your Minecraft version."
    );
    assert_eq!(process_exit_failure(1, 1).unwrap().dialog.args[1], "0x1");
    assert_eq!(
        process_not_found_message("Minecraft.Windows.exe"),
        "Minecraft.Windows.exe was not found after launching. Please try launching again, or please make sure Minecraft is installed."
    );
}

#[test]
fn tray_events_and_option_plans() {
    assert_eq!(tray_action(&TrayEvent::MenuItemClick("tray-show".to_string())), TrayAction::RestoreWindow);
    assert_eq!(tray_action(&TrayEvent::MenuItemClick("tray-exit".to_string())), TrayAction::Exit);
    assert_eq!(tray_action(&TrayEvent::MenuItemClick("x".to_string())), TrayAction::Nothing);
    assert_eq!(tray_action(&TrayEvent::DoubleClick), TrayAction::RestoreWindow);
    assert_eq!(tray_action(&TrayEvent::Other), TrayAction::Nothing);
    let plan = plan_option_update("prevent_multiple_instances", true);
    assert!(plan.remember_guard_state && plan.enable_guard_first && !plan.disable_guard_after);
    let plan = plan_option_update("prevent_multiple_instances", false);
    assert!(plan.remember_guard_state && !plan.enable_guard_first && plan.disable_guard_after);
    let plan = plan_option_update("rpc_enabled", true);
    assert!(!plan.remember_guard_state && !plan.enable_guard_first && !plan.disable_guard_after);
}

#[test]
fn instance_guard_changes() {
    assert_eq!(instance_guard_change(true, false), GuardChange::Acquire);
    assert_eq!(instance_guard_change(true, true), GuardChange::Keep);
    assert_eq!(instance_guard_change(false, true), GuardChange::Release);
    assert_eq!(instance_guard_change(false, false), GuardChange::Release);
    assert_eq!(another_instance_running_message(), "Another launcher instance is already running.");
}

#[test]
fn crash_dumps_chosen_for_deletion() {
    let candidates = vec![
        CrashDumpCandidate { is_file: true, age: Some((604800, 1)) },
        CrashDumpCandidate { is_file: true, age: Some((604800, 0)) },
        CrashDumpCandidate { is_file: false, age: Some((900000, 0)) },
        CrashDumpCandidate { is_file: true, age: None },
        CrashDumpCandidate { is_file: true, age: Some((604801, 0)) },
    ];
    assert_eq!(crash_dumps_to_delete(&candidates), vec![0, 4]);
    assert_eq!(crash_dumps_to_delete(&Vec::new()), Vec::<usize>::new());
}

#[test]
fn one_watcher_per_process() {
    let mut watched = MonitoredProcesses::new();
    assert!(!watched.is_monitored(42));
    assert!(watched.try_register(42));
    assert!(watched.is_monitored(42));
    assert!(!watched.try_register(42));
    assert!(watched.try_register(7));
    watched.unregister(42);
    assert!(!watched.is_monitored(42));
    assert!(watched.is_monitored(7));
    assert!(watched.try_register(42));
}

#[test]
fn instance_manager_switching() {
    let mut manager: InstanceManager<u8> = InstanceManager::new(None);
    assert!(!manager.is_enabled());
    assert_eq!(manager.change_for(true), GuardChange::Acquire);
    assert_eq!(
        manager.set_enabled(true, Some(Ok(None))),
        Err("Another launcher instance is already running.".to_string())
    );
    assert!(!manager.is_enabled());
    assert_eq!(manager.set_enabled(true, Some(Err("no mutex".to_string()))), Err("no mutex".to_string()));
    assert!(!manager.is_enabled());
    assert_eq!(manager.set_enabled(true, Some(Ok(Some(1)))), Ok(()));
    assert!(manager.is_enabled());
    assert_eq!(manager.change_for(true), GuardChange::Keep);
    assert_eq!(manager.set_enabled(true, None), Ok(()));
    assert!(manager.is_enabled());
    assert_eq!(manager.change_for(false), GuardChange::Release);
    assert_eq!(manager.set_enabled(false, None), Ok(()));
    assert!(!manager.is_enabled());
}
