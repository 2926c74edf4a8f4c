//! Short notices that leave the screen on their own after a few seconds.

use vstd::prelude::*;
use std::time::{Duration, Instant};

verus! {

/// A point in time as `std::time::Instant` measures it. Nothing is known of
/// a value of this type.
#[verifier::external_type_specification]
#[verifier::external_body]
pub struct ExInstant(Instant);

/// `Instant` is `Copy`: its `clone` returns the value it was given.
pub assume_specification[ <Instant as Clone>::clone ](t: &Instant) -> (r: Instant)
    ensures
        r == *t,
;

/// `std::time::Instant::now`: the present moment. Nothing is claimed of it.
#[verifier::external_body]
fn current_instant() -> Instant {
    Instant::now()
}

/// `std::time::Instant::elapsed`: the time gone by since `start`. Nothing is
/// claimed of it.
#[verifier::external_body]
fn time_since(start: &Instant) -> Duration {
    start.elapsed()
}

/// `std::time::Duration::as_secs`: the whole seconds of a duration. Nothing
/// is claimed of them.
#[verifier::external_body]
fn whole_seconds(d: &Duration) -> u64 {
    d.as_secs()
}

/// How long a notice stays, in seconds.
pub const TOAST_SECONDS: u64 = 4;

/// The kind of a notice.
#[derive(Debug, Clone, Copy, PartialEq, Eq, Structural)]
pub enum ToastType {
    Info,
    Success,
    Error,
}

/// A notice, with the moment it was made.
#[derive(Clone)]
pub struct Toast {
    pub message: String,
    pub toast_type: ToastType,
    pub created_at: Instant,
    pub duration_secs: u64,
}

impl Toast {
    /// A notice made now, to stay for `TOAST_SECONDS`.
    pub fn new(message: String, toast_type: ToastType) -> (r: Toast)
        ensures
            r.message == message,
            r.toast_type == toast_type,
            r.duration_secs == TOAST_SECONDS,
    {
        Toast { message, toast_type, created_at: current_instant(), duration_secs: TOAST_SECONDS }
    }

    /// Whether the notice is over once `elapsed_secs` whole seconds have
    /// gone by since it was made.
    pub fn expired_after(&self, elapsed_secs: u64) -> (r: bool)
        ensures
            r == (elapsed_secs >= self.duration_secs),
    {
        elapsed_secs >= self.duration_secs
    }

    /// Whether the notice is over by now. A notice that stays for no time
    /// is over at once; of any other, the clock decides.
    pub fn is_expired(&self) -> (r: bool)
        ensures
            self.duration_secs == 0 ==> r,
    {
        let gone = time_since(&self.created_at);
        self.expired_after(whole_seconds(&gone))
    }
}

} // verus!
