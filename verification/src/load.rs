//! What loading the relay into a process starts.

use crate::paths::{join, joined_path, NOTIFICATION_LOG};
use crate::relay::{BackoffPolicy, NotificationRelay, RelayView, Variant};
use vstd::prelude::*;

verus! {

/// The variable that, set to any value, keeps the general-purpose relay from
/// starting.
pub const DISABLE_VARIABLE: &'static str = "KR_NO_STDERR";

/// What the caller of [`Init`] is to start: where `detect_stdout` is set, the
/// interception of standard output, first; then a thread that drives `relay`
/// on the log at `log_path`.
#[derive(Debug)]
pub struct LoadPlan {
    pub log_path: String,
    pub detect_stdout: bool,
    pub relay: NotificationRelay,
}

/// Whether loading starts a relay at all: the home directory must be known,
/// and in the general-purpose variant the disable variable must not be set.
pub open spec fn starts_relay(variant: Variant, disabled: bool, home: Option<&str>) -> bool {
    home is Some && !(variant == Variant::GeneralPurpose && disabled)
}

/// Decides what loading the relay starts.
///
/// `disabled` says whether the disable variable is set, to any value; the
/// restricted variant does not heed it. `home` is the home directory, `None`
/// where it cannot be told. Where a relay is started, it is a fresh one with
/// the default pauses, for the notification log below the home directory, and
/// the general-purpose variant watches standard output besides. Otherwise
/// nothing is started.
pub fn Init(variant: Variant, disabled: bool, home: Option<&str>) -> (plan: Option<LoadPlan>)
    ensures
        plan.is_some() == starts_relay(variant, disabled, home),
        plan matches Some(p) ==> {
            &&& p.log_path@ == joined_path(home.unwrap()@, NOTIFICATION_LOG@)
            &&& p.detect_stdout == (variant == Variant::GeneralPurpose)
            &&& p.relay@ == RelayView::initial(
                variant,
                BackoffPolicy { idle_millis: 10, error_millis: 250 },
            )
        },
{
    if variant == Variant::GeneralPurpose && disabled {
        return None;
    }
    match home {
        None => None,
        Some(home) => Some(
            LoadPlan {
                log_path: join(home, NOTIFICATION_LOG),
                detect_stdout: variant == Variant::GeneralPurpose,
                relay: NotificationRelay::new(variant, BackoffPolicy::default()),
            },
        ),
    }
}

} // verus!
