//! The signal by which a second launcher asks the first to show itself.
use vstd::prelude::*;

use crate::text::{decimal, decimal_string, str_equal};

verus! {

/// What switching the single-instance guard on or off does.
#[derive(Clone, Copy, Debug, PartialEq, Eq, Structural)]
pub enum GuardChange {
    /// Take the system-wide guard (the launcher holds none yet).
    Acquire,
    /// The guard is held already.
    Keep,
    /// Let go of any guard held.
    Release,
}

/// Switching the guard on takes it unless it is held already; switching
/// it off lets it go.
pub open spec fn spec_instance_guard_change(enabled: bool, guard_held: bool) -> GuardChange {
    if !enabled {
        GuardChange::Release
    } else if guard_held {
        GuardChange::Keep
    } else {
        GuardChange::Acquire
    }
}

pub fn instance_guard_change(enabled: bool, guard_held: bool) -> (r: GuardChange)
    ensures
        r == spec_instance_guard_change(enabled, guard_held),
{
    if !enabled {
        GuardChange::Release
    } else if guard_held {
        GuardChange::Keep
    } else {
        GuardChange::Acquire
    }
}

/// The single-instance setting of a running launcher: the system-wide
/// guard `G` it holds, if any. The setting is on exactly while a guard is
/// held.
pub struct InstanceManager<G> {
    guard: Option<G>,
}

impl<G> View for InstanceManager<G> {
    type V = bool;

    closed spec fn view(&self) -> bool {
        self.guard is Some
    }
}

impl<G> InstanceManager<G> {
    /// A manager holding the guard taken at start-up, if any.
    pub fn new(guard: Option<G>) -> (r: Self)
        ensures
            r@ == guard is Some,
    {
        InstanceManager { guard }
    }

    /// Whether the launcher holds the guard.
    pub fn is_enabled(&self) -> (r: bool)
        ensures
            r == self@,
    {
        self.guard.is_some()
    }

    /// What switching the setting to `enabled` asks of the caller: to try
    /// taking the guard (`Acquire`), or nothing.
    pub fn change_for(&self, enabled: bool) -> (r: GuardChange)
        ensures
            r == spec_instance_guard_change(enabled, self@),
    {
        instance_guard_change(enabled, self.guard.is_some())
    }

    /// Switches the setting to `enabled`. When the change is `Acquire`,
    /// `acquired` is what trying to take the guard gave, and otherwise
    /// none. Switching off lets go of the guard; switching on keeps a guard
    /// held already; a new guard is kept when it was taken, and when
    /// another launcher holds it, or taking it failed, the setting stays off
    /// with the error.
    pub fn set_enabled(&mut self, enabled: bool, acquired: Option<Result<Option<G>, String>>) -> (r:
        Result<(), String>)
        requires
            acquired is Some <==> spec_instance_guard_change(enabled, old(self)@)
                == GuardChange::Acquire,
        ensures
            !enabled ==> r is Ok && final(self)@ == false,
            enabled && old(self)@ ==> r is Ok && final(self)@ == true,
            enabled && !old(self)@ ==> match acquired {
                Some(Ok(Some(_))) => r is Ok && final(self)@ == true,
                Some(Ok(None)) => r matches Err(e) && e@
                    == "Another launcher instance is already running."@ && final(self)@ == false,
                Some(Err(x)) => r matches Err(e) && e@ == x@ && final(self)@ == false,
                None => false,
            },
    {
        if !enabled {
            self.guard = None;
            return Ok(());
        }
        if self.guard.is_some() {
            return Ok(());
        }
        match acquired {
            Some(Ok(Some(guard))) => {
                self.guard = Some(guard);
                Ok(())
            },
            Some(Ok(None)) => Err(another_instance_running_message()),
            Some(Err(error)) => Err(error),
            None => Ok(()),
        }
    }
}

/// The error when the guard cannot be taken because another launcher holds
/// it.
pub fn another_instance_running_message() -> (r: String)
    ensures
        r@ == "Another launcher instance is already running."@,
{
    String::from_str("Another launcher instance is already running.")
}

/// The signal file's content: the process id and the time in nanoseconds.
pub fn duplicate_signal_payload(pid: u32, timestamp_nanos: u128) -> (r: String)
    ensures
        r@ == "pid="@ + decimal(pid as nat) + ";timestamp="@ + decimal(timestamp_nanos as nat),
{
    let mut payload = String::from_str("pid=");
    let pid_text = decimal_string(pid as u128);
    payload.append(pid_text.as_str());
    payload.append(";timestamp=");
    let time_text = decimal_string(timestamp_nanos);
    payload.append(time_text.as_str());
    payload
}

/// A signal is new when its content differs from the last one seen.
pub fn is_new_duplicate_signal(last_payload: Option<&str>, payload: &str) -> (r: bool)
    ensures
        r == match last_payload {
            Some(last) => last@ != payload@,
            None => true,
        },
{
    match last_payload {
        Some(last) => !str_equal(last, payload),
        None => true,
    }
}

} // verus!
