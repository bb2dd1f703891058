//! Sidetone control for a USB headset.
//!
//! The library holds the rules; it touches no device. `codec` encodes the
//! audio-class request that sets the sidetone level. `operation` is the
//! whole run as a machine: it names one USB action at a time (list, read a
//! descriptor, open, detach the kernel driver, claim, transfer, release,
//! attach again, reset) and takes the reply, and whoever drives it performs
//! the actions. `locator`, `session` and `outcome` say which device is
//! taken, how its interface is acquired and handed back, and what the run
//! ends with. `rehearsal` runs the machine against a script of replies, and
//! `laws` proves what holds of every run. `picker` is the rule by which an
//! operator's answer picks one of the listed control devices.

pub mod codec;
pub mod laws;
pub mod locator;
pub mod operation;
pub mod outcome;
pub mod picker;
pub mod rehearsal;
pub mod session;
