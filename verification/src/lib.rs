//! Decision logic of a laptop lid daemon: classify kernel switch events into
//! lid signals, plan the actuator calls a signal warrants, parse the external
//! display status files, choose a fallback input device, and drive the
//! monitoring loop's state machine over device-read outcomes.

pub mod signal;
pub mod decision;
pub mod presence;
pub mod resolver;
pub mod monitor;
