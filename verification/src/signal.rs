//! The lid event classifier: maps one raw kernel input event to a lid signal,
//! or to nothing when the event is not about the lid switch.

use vstd::prelude::*;

verus! {

/// The semantic state of the laptop lid, derived from one switch event.
#[derive(Clone, Copy, Debug, PartialEq, Eq, Structural)]
pub enum LidSignal {
    Opened,
    Closed,
}

/// The kind of a raw input event, reduced to what the classifier reads:
/// whether the event reports a binary switch, and if so which switch code.
#[derive(Clone, Copy, Debug, PartialEq, Eq, Structural)]
pub enum RawEventKind {
    /// A binary switch changed state; the field is the switch code.
    Switch(u16),
    /// Any other kind of event (key, axis, synchronization, ...).
    Other,
}

/// One raw input event as the kernel reports it: its kind and its value.
#[derive(Clone, Copy, Debug, PartialEq, Eq, Structural)]
pub struct RawEvent {
    pub kind: RawEventKind,
    pub value: i32,
}

/// The reserved switch code of the lid switch.
pub const LID_SWITCH_CODE: u16 = 0;

/// What one raw event classifies to: a lid signal for a switch event on the
/// lid-switch code (value 1 means closed, anything else means opened), and
/// nothing for every other event.
pub open spec fn classified(e: RawEvent) -> Option<LidSignal> {
    match e.kind {
        RawEventKind::Switch(code) => if code == LID_SWITCH_CODE {
            if e.value == 1 {
                Some(LidSignal::Closed)
            } else {
                Some(LidSignal::Opened)
            }
        } else {
            None
        },
        RawEventKind::Other => None,
    }
}

/// Classify one raw event. Events that are not switch events, and switch
/// events on any code other than the lid switch, produce no signal.
pub fn classify(e: &RawEvent) -> (r: Option<LidSignal>)
    ensures
        r == classified(*e),
        e.kind is Other ==> r is None,
        (e.kind matches RawEventKind::Switch(code) && code != LID_SWITCH_CODE) ==> r is None,
        (e.kind matches RawEventKind::Switch(code) && code == LID_SWITCH_CODE && e.value == 1)
            ==> r == Some(LidSignal::Closed),
        (e.kind matches RawEventKind::Switch(code) && code == LID_SWITCH_CODE && e.value != 1)
            ==> r == Some(LidSignal::Opened),
{
    match e.kind {
        RawEventKind::Switch(code) => {
            if code == LID_SWITCH_CODE {
                if e.value == 1 {
                    Some(LidSignal::Closed)
                } else {
                    Some(LidSignal::Opened)
                }
            } else {
                None
            }
        },
        RawEventKind::Other => None,
    }
}

} // verus!
