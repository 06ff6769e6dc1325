//! The decision engine: given one classified lid signal, and on a close the
//! outcome of the external-display presence probe, plan the exact sequence of
//! actuator calls. The plan is fixed up front: a failed actuator call is
//! logged by the caller and never changes what follows, so a display-disable
//! failure does not block the subsequent suspend attempt.

use vstd::prelude::*;
use crate::signal::LidSignal;

verus! {

/// Outcome of the external-display presence probe.
#[derive(Clone, Copy, Debug, PartialEq, Eq, Structural)]
pub enum ProbeResult {
    /// Some external display output reports itself connected.
    Present,
    /// No external display output reports itself connected.
    Absent,
    /// The probe itself failed; presence is unknown.
    Failed,
}

/// One actuator invocation the engine asks for.
#[derive(Clone, Copy, Debug, PartialEq, Eq, Structural)]
pub enum Action {
    /// Turn the internal display on.
    EnableDisplay,
    /// Turn the internal display off.
    DisableDisplay,
    /// Suspend the machine. The caller waits the fixed settle delay after the
    /// preceding display action before issuing this one.
    Suspend,
}

/// Milliseconds to wait between disabling the display and issuing suspend, so
/// the display state change settles before the power-management action fires.
pub const SUSPEND_SETTLE_DELAY_MS: u64 = 500;

/// The action sequence one signal warrants. A probe outcome accompanies a
/// signal exactly when the signal is a close; an open never probes.
pub open spec fn planned_actions(signal: LidSignal, probe: Option<ProbeResult>) -> Seq<Action> {
    match signal {
        LidSignal::Opened => seq![Action::EnableDisplay],
        LidSignal::Closed => match probe {
            Some(ProbeResult::Absent) => seq![Action::DisableDisplay, Action::Suspend],
            Some(ProbeResult::Present) => seq![Action::DisableDisplay],
            Some(ProbeResult::Failed) => seq![Action::DisableDisplay],
            None => Seq::empty(),
        },
    }
}

/// The bytes `on` followed by a newline: the payload that turns the display on.
pub open spec fn payload_on() -> Seq<u8> {
    seq![111u8, 110u8, 10u8]
}

/// The bytes `off` followed by a newline: the payload that turns the display off.
pub open spec fn payload_off() -> Seq<u8> {
    seq![111u8, 102u8, 102u8, 10u8]
}

/// The exact text payload the display control surface accepts for the wanted
/// state: `on` to enable, `off` to disable, each followed by one newline.
pub fn display_payload(enable: bool) -> (r: Vec<u8>)
    ensures
        enable ==> r@ == payload_on(),
        !enable ==> r@ == payload_off(),
{
    let mut r: Vec<u8> = Vec::new();
    if enable {
        r.push(111);
        r.push(110);
        r.push(10);
        proof {
            assert(r@ =~= payload_on());
        }
    } else {
        r.push(111);
        r.push(102);
        r.push(102);
        r.push(10);
        proof {
            assert(r@ =~= payload_off());
        }
    }
    r
}

/// Whether a presence probe must run before the signal can be acted on:
/// only a close consults the external displays.
pub fn probe_required(signal: LidSignal) -> (r: bool)
    ensures
        r <==> signal is Closed,
{
    match signal {
        LidSignal::Closed => true,
        LidSignal::Opened => false,
    }
}

/// Plan the actuator calls for one classified signal, in invocation order:
/// an open enables the display and nothing else; a close disables the display
/// and, only when the probe positively reported no external display, follows
/// with a suspend. A failed probe degrades to disabling the display alone.
pub fn decide(signal: LidSignal, probe: Option<ProbeResult>) -> (actions: Vec<Action>)
    requires
        probe is Some <==> signal is Closed,
    ensures
        actions@ == planned_actions(signal, probe),
        signal is Opened ==> actions@ == seq![Action::EnableDisplay],
        signal is Closed && probe == Some(ProbeResult::Present)
            ==> actions@ == seq![Action::DisableDisplay],
        signal is Closed && probe == Some(ProbeResult::Absent)
            ==> actions@ == seq![Action::DisableDisplay, Action::Suspend],
        signal is Closed && probe == Some(ProbeResult::Failed)
            ==> actions@ == seq![Action::DisableDisplay],
{
    let mut actions: Vec<Action> = Vec::new();
    match signal {
        LidSignal::Opened => {
            actions.push(Action::EnableDisplay);
        },
        LidSignal::Closed => {
            actions.push(Action::DisableDisplay);
            if let Some(ProbeResult::Absent) = probe {
                actions.push(Action::Suspend);
            }
        },
    }
    proof {
        assert(actions@ =~= planned_actions(signal, probe));
    }
    actions
}

} // verus!
