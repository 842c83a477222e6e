//! Why an alertable wait returned: the status an alertable sleep call
//! reports is either "the time ran out" or "queued callbacks ran". The call
//! itself is the platform's; interpreting its status is here.

use vstd::prelude::*;

verus! {

/// The status an alertable wait reports when queued callbacks ran before the
/// time was up.
pub const WAIT_CALLBACKS_FIRED: u32 = 0xC0;

/// Why an alertable wait returned.
#[derive(Debug, Eq, PartialEq, Structural)]
pub enum WakeReason {
    TimedOut,
    CallbacksFired,
}

/// Interprets the status an alertable wait reports: 0 is a timeout,
/// [`WAIT_CALLBACKS_FIRED`] means queued callbacks ran, and anything else is
/// no documented outcome of the call.
pub fn wake_reason_from_status(status: u32) -> (r: Option<WakeReason>)
    ensures
        r == (if status == 0 {
            Some(WakeReason::TimedOut)
        } else if status == WAIT_CALLBACKS_FIRED {
            Some(WakeReason::CallbacksFired)
        } else {
            None::<WakeReason>
        }),
{
    if status == 0 {
        Some(WakeReason::TimedOut)
    } else if status == WAIT_CALLBACKS_FIRED {
        Some(WakeReason::CallbacksFired)
    } else {
        None
    }
}

} // verus!
