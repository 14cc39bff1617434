//! The order of an injection once its DLL is ready: find the running game or
//! open it and wait for it to appear, let a freshly opened game load, check
//! that an official build supports the game's version, then open the game's
//! process and inject.
use vstd::prelude::*;

use crate::launcher::{process_not_found_message, FailureReport};
use crate::text::string_views;
use crate::ui::{UiDialog, UiDialogLevel};

verus! {

/// How many times the launcher looks for the game after opening it.
pub const PROCESS_LOOKUP_ATTEMPTS: u32 = 100;

/// How long the launcher waits before each of those looks, in
/// milliseconds.
pub const PROCESS_LOOKUP_DELAY_MS: u64 = 50;

/// The name of the game's process.
pub open spec fn spec_minecraft_process_name() -> Seq<char> {
    "Minecraft.Windows.exe"@
}

pub fn minecraft_process_name() -> (r: &'static str)
    ensures
        r@ == spec_minecraft_process_name(),
{
    "Minecraft.Windows.exe"
}

/// Which part of an injection failed.
#[derive(Clone, Copy, Debug, PartialEq, Eq, Structural)]
pub enum FailureStage {
    /// Looking for the running game, or opening its process and injecting.
    InjectFailed,
    /// Opening the game.
    LaunchFailed,
    /// The opened game did not show up.
    MinecraftNotFound,
}

/// Where an injection stands, as mathematical values.
pub enum FlowState {
    Finding,
    Launching,
    /// Looks made so far for the opened game.
    Polling(nat),
    Loading(u32),
    Verifying(u32),
    Injecting(u32),
    Succeeded(u32),
    /// Failed at this stage with this message.
    Failed(FailureStage, Seq<char>),
    /// The version check failed; it has reported its failure itself.
    Stopped,
}

/// An injection: whether the game's version is checked (an official build,
/// whose DLL reports the versions it supports) and where it stands.
pub struct InjectionFlowView {
    pub verify: bool,
    pub state: FlowState,
}

/// What the caller is to do next.
#[derive(Clone, Copy, Debug, PartialEq, Eq, Structural)]
pub enum InjectionStep {
    /// Look for the running game; report with `Found` or `LookupFailed`.
    FindProcess,
    /// Open the game; report with `Launched`.
    Launch,
    /// Wait `PROCESS_LOOKUP_DELAY_MS`, then make this look (counting from
    /// zero) for the game; report with `Found` or `LookupFailed`.
    Poll(u32),
    /// The game with this process id was just opened: let it load, then
    /// report with `Loaded`.
    WaitForLoading(u32),
    /// Check that the DLL supports the game with this process id; report
    /// with `Verified`.
    VerifySupport(u32),
    /// Open the game's process and inject the DLL; report with `Injected`.
    OpenAndInject(u32),
    /// Done: the DLL was injected into this process.
    Succeed(u32),
    /// Show `failure()` and end the injection with it.
    Fail,
    /// End the injection; the version check has shown its failure.
    Stop,
}

/// What the caller reports after a step.
pub enum InjectionEvent {
    /// A look for the game found this process, or none.
    Found(Option<u32>),
    /// A look for the game failed with this error.
    LookupFailed(String),
    /// Opening the game went so.
    Launched(Result<(), String>),
    /// The freshly opened game had time to load.
    Loaded,
    /// The version check passed, or failed and reported its failure.
    Verified(bool),
    /// Opening the game's process and injecting went so.
    Injected(Result<(), String>),
}

/// Where the process of a found game leads: to the version check for an
/// official build, else straight to the injection.
pub open spec fn spec_after_found(verify: bool, pid: u32) -> FlowState {
    if verify {
        FlowState::Verifying(pid)
    } else {
        FlowState::Injecting(pid)
    }
}

/// The error when the opened game never showed up.
pub open spec fn spec_not_found_message() -> Seq<char> {
    spec_minecraft_process_name()
        + " was not found after launching. Please try launching again, or please make sure Minecraft is installed."@
}

/// The injection after the caller reported `e`; an event that does not
/// belong to the current step changes nothing.
pub open spec fn spec_after_injection_event(s: InjectionFlowView, e: InjectionEvent) -> InjectionFlowView {
    let state = match (s.state, e) {
        (FlowState::Finding, InjectionEvent::Found(Some(pid))) => spec_after_found(s.verify, pid),
        (FlowState::Finding, InjectionEvent::Found(None)) => FlowState::Launching,
        (FlowState::Finding, InjectionEvent::LookupFailed(m)) => FlowState::Failed(
            FailureStage::InjectFailed,
            m@,
        ),
        (FlowState::Launching, InjectionEvent::Launched(Ok(()))) => FlowState::Polling(0),
        (FlowState::Launching, InjectionEvent::Launched(Err(m))) => FlowState::Failed(
            FailureStage::LaunchFailed,
            m@,
        ),
        (FlowState::Polling(_), InjectionEvent::Found(Some(pid))) => FlowState::Loading(pid),
        (FlowState::Polling(a), InjectionEvent::Found(None)) => if a + 1 < PROCESS_LOOKUP_ATTEMPTS {
            FlowState::Polling(a + 1)
        } else {
            FlowState::Failed(FailureStage::MinecraftNotFound, spec_not_found_message())
        },
        (FlowState::Polling(_), InjectionEvent::LookupFailed(m)) => FlowState::Failed(
            FailureStage::MinecraftNotFound,
            m@,
        ),
        (FlowState::Loading(pid), InjectionEvent::Loaded) => spec_after_found(s.verify, pid),
        (FlowState::Verifying(pid), InjectionEvent::Verified(true)) => FlowState::Injecting(pid),
        (FlowState::Verifying(_), InjectionEvent::Verified(false)) => FlowState::Stopped,
        (FlowState::Injecting(pid), InjectionEvent::Injected(Ok(()))) => FlowState::Succeeded(pid),
        (FlowState::Injecting(_), InjectionEvent::Injected(Err(m))) => FlowState::Failed(
            FailureStage::InjectFailed,
            m@,
        ),
        _ => s.state,
    };
    InjectionFlowView { verify: s.verify, state }
}

/// What to do next in an injection.
pub open spec fn spec_injection_step(s: InjectionFlowView) -> InjectionStep {
    match s.state {
        FlowState::Finding => InjectionStep::FindProcess,
        FlowState::Launching => InjectionStep::Launch,
        FlowState::Polling(a) => InjectionStep::Poll(a as u32),
        FlowState::Loading(pid) => InjectionStep::WaitForLoading(pid),
        FlowState::Verifying(pid) => InjectionStep::VerifySupport(pid),
        FlowState::Injecting(pid) => InjectionStep::OpenAndInject(pid),
        FlowState::Succeeded(pid) => InjectionStep::Succeed(pid),
        FlowState::Failed(_, _) => InjectionStep::Fail,
        FlowState::Stopped => InjectionStep::Stop,
    }
}

/// The states an injection can be in: the looks stay within their bound,
/// and an injection without a version check never stands at it.
pub open spec fn flow_well_formed(s: InjectionFlowView) -> bool {
    &&& (s.state matches FlowState::Polling(a) ==> a < PROCESS_LOOKUP_ATTEMPTS)
    &&& (!s.verify ==> !(s.state is Verifying))
}

/// The failure that ends an injection at `stage` with `message`.
pub open spec fn is_stage_failure(f: FailureReport, stage: FailureStage, message: Seq<char>) -> bool {
    &&& f.status_key@ == match stage {
        FailureStage::InjectFailed => "launcher.status.injectFailed.name"@,
        FailureStage::LaunchFailed => "launcher.status.launchFailed.name"@,
        FailureStage::MinecraftNotFound => "launcher.status.minecraftNotFound.name"@,
    }
    &&& f.dialog.level == UiDialogLevel::Error
    &&& f.dialog.key@ == match stage {
        FailureStage::InjectFailed => "launcher.error.injectFailed.name"@,
        FailureStage::LaunchFailed => "launcher.error.openMinecraft.name"@,
        FailureStage::MinecraftNotFound => "launcher.error.minecraftNotFound.name"@,
    }
    &&& string_views(f.dialog.args@) == seq![message]
    &&& f.message@ == message
}

/// The failure shown when an injection fails at `stage` with `message`.
pub fn stage_failure(stage: FailureStage, message: &str) -> (r: FailureReport)
    ensures
        is_stage_failure(r, stage, message@),
{
    let (status_key, dialog_key) = match stage {
        FailureStage::InjectFailed => (
            "launcher.status.injectFailed.name",
            "launcher.error.injectFailed.name",
        ),
        FailureStage::LaunchFailed => (
            "launcher.status.launchFailed.name",
            "launcher.error.openMinecraft.name",
        ),
        FailureStage::MinecraftNotFound => (
            "launcher.status.minecraftNotFound.name",
            "launcher.error.minecraftNotFound.name",
        ),
    };
    let dialog = UiDialog::error(dialog_key).with_arg(message);
    assert(string_views(dialog.args@) =~= seq![message@]);
    FailureReport {
        status_key: String::from_str(status_key),
        dialog,
        message: String::from_str(message),
    }
}

enum Phase {
    Finding,
    Launching,
    Polling(u32),
    Loading(u32),
    Verifying(u32),
    Injecting(u32),
    Succeeded(u32),
    Failed(FailureStage, String),
    Stopped,
}

/// An injection under way.
pub struct InjectionFlow {
    verify: bool,
    phase: Phase,
}

impl View for InjectionFlow {
    type V = InjectionFlowView;

    closed spec fn view(&self) -> InjectionFlowView {
        InjectionFlowView {
            verify: self.verify,
            state: match self.phase {
                Phase::Finding => FlowState::Finding,
                Phase::Launching => FlowState::Launching,
                Phase::Polling(a) => FlowState::Polling(a as nat),
                Phase::Loading(pid) => FlowState::Loading(pid),
                Phase::Verifying(pid) => FlowState::Verifying(pid),
                Phase::Injecting(pid) => FlowState::Injecting(pid),
                Phase::Succeeded(pid) => FlowState::Succeeded(pid),
                Phase::Failed(stage, m) => FlowState::Failed(stage, m@),
                Phase::Stopped => FlowState::Stopped,
            },
        }
    }
}

impl InjectionFlow {
    #[verifier::type_invariant]
    spec fn well_formed(self) -> bool {
        flow_well_formed(self@)
    }

    /// An injection that starts by looking for the running game; `verify`
    /// says whether the game's version is to be checked.
    pub fn new(verify: bool) -> (r: Self)
        ensures
            r@ == (InjectionFlowView { verify, state: FlowState::Finding }),
    {
        InjectionFlow { verify, phase: Phase::Finding }
    }

    /// What to do next. Looks for the opened game stay below
    /// `PROCESS_LOOKUP_ATTEMPTS`, and an injection without a version check
    /// never asks for one.
    pub fn step(&self) -> (r: InjectionStep)
        ensures
            r == spec_injection_step(self@),
            r matches InjectionStep::Poll(a) ==> a < PROCESS_LOOKUP_ATTEMPTS,
            !self@.verify ==> !(r is VerifySupport),
    {
        proof {
            use_type_invariant(self);
        }
        match &self.phase {
            Phase::Finding => InjectionStep::FindProcess,
            Phase::Launching => InjectionStep::Launch,
            Phase::Polling(a) => InjectionStep::Poll(*a),
            Phase::Loading(pid) => InjectionStep::WaitForLoading(*pid),
            Phase::Verifying(pid) => InjectionStep::VerifySupport(*pid),
            Phase::Injecting(pid) => InjectionStep::OpenAndInject(*pid),
            Phase::Succeeded(pid) => InjectionStep::Succeed(*pid),
            Phase::Failed(_, _) => InjectionStep::Fail,
            Phase::Stopped => InjectionStep::Stop,
        }
    }

    /// The failure to show once the injection failed; none otherwise.
    pub fn failure(&self) -> (r: Option<FailureReport>)
        ensures
            match self@.state {
                FlowState::Failed(stage, m) => r matches Some(f) && is_stage_failure(f, stage, m),
                _ => r is None,
            },
    {
        match &self.phase {
            Phase::Failed(stage, message) => Some(stage_failure(*stage, message.as_str())),
            _ => None,
        }
    }

    /// Takes in what the last step gave.
    pub fn record(&mut self, e: InjectionEvent)
        ensures
            final(self)@ == spec_after_injection_event(old(self)@, e),
    {
        proof {
            use_type_invariant(&*self);
        }
        let verify = self.verify;
        let found = |pid: u32| -> (r: Phase)
            ensures
                r == (if verify {
                    Phase::Verifying(pid)
                } else {
                    Phase::Injecting(pid)
                }),
            {
                if verify {
                    Phase::Verifying(pid)
                } else {
                    Phase::Injecting(pid)
                }
            };
        let next: Option<Phase> = match (&self.phase, e) {
            (Phase::Finding, InjectionEvent::Found(Some(pid))) => Some(found(pid)),
            (Phase::Finding, InjectionEvent::Found(None)) => Some(Phase::Launching),
            (Phase::Finding, InjectionEvent::LookupFailed(m)) => Some(
                Phase::Failed(FailureStage::InjectFailed, m),
            ),
            (Phase::Launching, InjectionEvent::Launched(Ok(()))) => Some(Phase::Polling(0)),
            (Phase::Launching, InjectionEvent::Launched(Err(m))) => Some(
                Phase::Failed(FailureStage::LaunchFailed, m),
            ),
            (Phase::Polling(_), InjectionEvent::Found(Some(pid))) => Some(Phase::Loading(pid)),
            (Phase::Polling(a), InjectionEvent::Found(None)) => {
                if *a + 1 < PROCESS_LOOKUP_ATTEMPTS {
                    Some(Phase::Polling(*a + 1))
                } else {
                    Some(
                        Phase::Failed(
                            FailureStage::MinecraftNotFound,
                            process_not_found_message(minecraft_process_name()),
                        ),
                    )
                }
            },
            (Phase::Polling(_), InjectionEvent::LookupFailed(m)) => Some(
                Phase::Failed(FailureStage::MinecraftNotFound, m),
            ),
            (Phase::Loading(pid), InjectionEvent::Loaded) => Some(found(*pid)),
            (Phase::Verifying(pid), InjectionEvent::Verified(true)) => Some(
                Phase::Injecting(*pid),
            ),
            (Phase::Verifying(_), InjectionEvent::Verified(false)) => Some(Phase::Stopped),
            (Phase::Injecting(pid), InjectionEvent::Injected(Ok(()))) => Some(
                Phase::Succeeded(*pid),
            ),
            (Phase::Injecting(_), InjectionEvent::Injected(Err(m))) => Some(
                Phase::Failed(FailureStage::InjectFailed, m),
            ),
            _ => None,
        };
        if let Some(phase) = next {
            *self = InjectionFlow { verify, phase };
        }
    }
}

/// The order of an injection, for every state it can be in and every
/// report:
/// - the state stays one it can be in, and whether the version is checked
///   never changes;
/// - an official build reaches `OpenAndInject(pid)` only from a passed
///   `VerifySupport(pid)`, and an injection without a version check never
///   gets `VerifySupport`;
/// - a game found on the first look is never opened, and the game is
///   opened at most once, right after that first look;
/// - a failed open or injection ends in the `injectFailed` failure with
///   its error.
pub proof fn lemma_injection_order(s: InjectionFlowView, e: InjectionEvent)
    requires
        flow_well_formed(s),
    ensures
        flow_well_formed(spec_after_injection_event(s, e)),
        spec_after_injection_event(s, e).verify == s.verify,
        !s.verify ==> !(spec_injection_step(s) is VerifySupport),
        s.verify ==> (spec_injection_step(spec_after_injection_event(s, e)) matches InjectionStep::OpenAndInject(
            pid,
        ) ==> spec_injection_step(s) == InjectionStep::OpenAndInject(pid) || (s.state
            == FlowState::Verifying(pid) && (e matches InjectionEvent::Verified(passed) && passed))),
        s.state is Finding ==> (e matches InjectionEvent::Found(Some(_)) ==> !(spec_injection_step(
            spec_after_injection_event(s, e),
        ) is Launch)),
        spec_injection_step(spec_after_injection_event(s, e)) is Launch ==> s.state is Finding
            || s.state is Launching,
        s.state is Injecting ==> (e matches InjectionEvent::Injected(Err(m))
            ==> spec_after_injection_event(s, e).state == FlowState::Failed(
            FailureStage::InjectFailed,
            m@,
        )),
{
}

/// Success is reported only for a process that the DLL was injected into:
/// `Succeed(pid)` follows only from `OpenAndInject(pid)` and a reported
/// successful injection, and an already running game found on the first
/// look still goes through the version check or the injection.
pub proof fn lemma_success_only_after_injection(s: InjectionFlowView, e: InjectionEvent)
    ensures
        spec_injection_step(spec_after_injection_event(s, e)) matches InjectionStep::Succeed(pid)
            ==> spec_injection_step(s) == InjectionStep::Succeed(pid) || (s.state
            == FlowState::Injecting(pid) && (e matches InjectionEvent::Injected(r) && r is Ok)),
        s.state is Finding ==> (e matches InjectionEvent::Found(Some(pid)) ==> spec_injection_step(
            spec_after_injection_event(s, e),
        ) == if s.verify {
            InjectionStep::VerifySupport(pid)
        } else {
            InjectionStep::OpenAndInject(pid)
        }),
{
}

} // verus!
