//! What is handed to the desktop's notification service.

use vstd::prelude::*;
use crate::config::Urgency;

verus! {

/// One notification to show.
#[derive(Clone, Debug, PartialEq, Eq)]
pub struct NotifyInfo {
    pub message: String,
    pub urgency: Urgency,
    /// How long the notification stays, in milliseconds.
    pub timeout: u32,
}

/// What a `NotifyInfo` holds.
pub struct Notification {
    pub message: Seq<char>,
    pub urgency: Urgency,
    pub timeout: u32,
}

impl View for NotifyInfo {
    type V = Notification;

    open spec fn view(&self) -> Notification {
        Notification { message: self.message@, urgency: self.urgency, timeout: self.timeout }
    }
}

/// The timeout as a signed 32-bit number: itself where it fits, else the
/// largest such number.
pub open spec fn clamped_timeout(timeout: u32) -> i32 {
    if timeout <= i32::MAX {
        timeout as i32
    } else {
        i32::MAX
    }
}

impl NotifyInfo {
    /// The timeout in the form that notification services take it.
    pub fn expire_timeout(&self) -> (ms: i32)
        ensures
            ms == clamped_timeout(self.timeout),
            0 <= ms,
    {
        if self.timeout <= 0x7fff_ffff {
            self.timeout as i32
        } else {
            i32::MAX
        }
    }
}

} // verus!
