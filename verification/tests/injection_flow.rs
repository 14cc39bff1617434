use latite_launcher::injection_flow::{
    minecraft_process_name, stage_failure, FailureStage, InjectionEvent, InjectionFlow,
    InjectionStep, PROCESS_LOOKUP_ATTEMPTS, PROCESS_LOOKUP_DELAY_MS,
};

#[test]
fn running_game_is_checked_then_injected() {
    let mut flow = InjectionFlow::new(true);
    assert_eq!(flow.step(), InjectionStep::FindProcess);
    flow.record(InjectionEvent::Found(Some(42)));
    assert_eq!(flow.step(), InjectionStep::VerifySupport(42));
    flow.record(InjectionEvent::Injected(Ok(())));
    assert_eq!(flow.step(), InjectionStep::VerifySupport(42));
    flow.record(InjectionEvent::Verified(true));
    assert_eq!(flow.step(), InjectionStep::OpenAndInject(42));
    flow.record(InjectionEvent::Injected(Ok(())));
    assert_eq!(flow.step(), InjectionStep::Succeed(42));
    assert!(flow.failure().is_none());
}

#[test]
fn failed_version_check_stops_before_injecting() {
    let mut flow = InjectionFlow::new(true);
    flow.record(InjectionEvent::Found(Some(7)));
    flow.record(InjectionEvent::Verified(false));
    assert_eq!(flow.step(), InjectionStep::Stop);
}

#[test]
fn custom_dll_is_never_checked() {
    let mut flow = InjectionFlow::new(false);
    flow.record(InjectionEvent::Found(None));
    assert_eq!(flow.step(), InjectionStep::Launch);
    flow.record(InjectionEvent::Launched(Ok(())));
    assert_eq!(flow.step(), InjectionStep::Poll(0));
    flow.record(InjectionEvent::Found(None));
    assert_eq!(flow.step(), InjectionStep::Poll(1));
    flow.record(InjectionEvent::Found(Some(9)));
    assert_eq!(flow.step(), InjectionStep::WaitForLoading(9));
    flow.record(InjectionEvent::Loaded);
    assert_eq!(flow.step(), InjectionStep::OpenAndInject(9));
    flow.record(InjectionEvent::Injected(Err("WriteProcessMemory failed".to_string())));
    assert_eq!(flow.step(), InjectionStep::Fail);
    let failure = flow.failure().expect("the injection failed");
    assert_eq!(failure.status_key, "launcher.status.injectFailed.name");
    assert_eq!(failure.dialog.key, "launcher.error.injectFailed.name");
    assert_eq!(failure.dialog.args, vec!["WriteProcessMemory failed".to_string()]);
    assert_eq!(failure.message, "WriteProcessMemory failed");
}

#[test]
fn opened_game_is_looked_for_a_bounded_number_of_times() {
    assert_eq!(PROCESS_LOOKUP_ATTEMPTS, 100);
    assert_eq!(PROCESS_LOOKUP_DELAY_MS, 50);
    let mut flow = InjectionFlow::new(true);
    flow.record(InjectionEvent::Found(None));
    flow.record(InjectionEvent::Launched(Ok(())));
    for attempt in 0..PROCESS_LOOKUP_ATTEMPTS {
        assert_eq!(flow.step(), InjectionStep::Poll(attempt));
        flow.record(InjectionEvent::Found(None));
    }
    assert_eq!(flow.step(), InjectionStep::Fail);
    let failure = flow.failure().expect("the game never showed up");
    assert_eq!(failure.status_key, "launcher.status.minecraftNotFound.name");
    assert_eq!(
        failure.message,
        format!(
            "{} was not found after launching. Please try launching again, or please make sure Minecraft is installed.",
            minecraft_process_name()
        )
    );
}

#[test]
fn lookup_and_launch_failures() {
    let mut flow = InjectionFlow::new(true);
    flow.record(InjectionEvent::LookupFailed("snapshot failed".to_string()));
    assert_eq!(flow.failure().unwrap().status_key, "launcher.status.injectFailed.name");

    let mut flow = InjectionFlow::new(true);
    flow.record(InjectionEvent::Found(None));
    flow.record(InjectionEvent::Launched(Err("Minecraft does not seem to be installed.".to_string())));
    let failure = flow.failure().unwrap();
    assert_eq!(failure.status_key, "launcher.status.launchFailed.name");
    assert_eq!(failure.dialog.key, "launcher.error.openMinecraft.name");

    let mut flow = InjectionFlow::new(false);
    flow.record(InjectionEvent::Found(None));
    flow.record(InjectionEvent::Launched(Ok(())));
    flow.record(InjectionEvent::LookupFailed("snapshot failed".to_string()));
    let failure = flow.failure().unwrap();
    assert_eq!(failure.status_key, "launcher.status.minecraftNotFound.name");
    assert_eq!(failure.message, "snapshot failed");

    let report = stage_failure(FailureStage::LaunchFailed, "x");
    assert_eq!(report.dialog.args, vec!["x".to_string()]);
}
