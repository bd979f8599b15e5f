//! Connection status: which relay threads run, and the one banner that is
//! shown once the services are up.

use vstd::prelude::*;
use crate::state::SharedState;

verus! {

/// The banner shown after startup.
#[derive(Debug, Clone, Copy, PartialEq, Eq, Structural)]
pub enum Banner {
    /// Every connection is up.
    Active,
    /// A connection is missing.
    Broken,
}

/// What is known of the running services.
pub struct ConnectionStatus {
    pub osc_listener_running: bool,
    pub osc_sender_count: i32,
    pub banner_printed: bool,
}

impl ConnectionStatus {
    /// Nothing runs yet and no banner was shown.
    pub fn new() -> (status: ConnectionStatus)
        ensures
            !status.osc_listener_running,
            status.osc_sender_count == 0,
            !status.banner_printed,
    {
        ConnectionStatus { osc_listener_running: false, osc_sender_count: 0, banner_printed: false }
    }

    /// Claims the banner. Only the first claim succeeds, so that one
    /// banner is shown overall.
    pub fn claim_banner(&mut self) -> (first: bool)
        ensures
            first == !old(self).banner_printed,
            final(self).banner_printed,
            final(self).osc_listener_running == old(self).osc_listener_running,
            final(self).osc_sender_count == old(self).osc_sender_count,
    {
        let first: bool = !self.banner_printed;
        self.banner_printed = true;
        first
    }
}

/// The counter after one more relay thread: it wraps at the limits of `i32`.
pub open spec fn count_after_start(count: i32) -> i32 {
    if count == i32::MAX {
        i32::MIN
    } else {
        (count + 1) as i32
    }
}

/// The counter after one relay thread less: it wraps at the limits of `i32`.
pub open spec fn count_after_stop(count: i32) -> i32 {
    if count == i32::MIN {
        i32::MAX
    } else {
        (count - 1) as i32
    }
}

/// Records that a relay thread has started.
pub fn mark_osc_sender_started(status: &mut ConnectionStatus)
    ensures
        final(status).osc_sender_count == count_after_start(old(status).osc_sender_count),
        final(status).osc_listener_running == old(status).osc_listener_running,
        final(status).banner_printed == old(status).banner_printed,
{
    status.osc_sender_count = if status.osc_sender_count == i32::MAX {
        i32::MIN
    } else {
        status.osc_sender_count + 1
    };
}

/// Records that a relay thread has stopped.
pub fn mark_osc_sender_stopped(status: &mut ConnectionStatus)
    ensures
        final(status).osc_sender_count == count_after_stop(old(status).osc_sender_count),
        final(status).osc_listener_running == old(status).osc_listener_running,
        final(status).banner_printed == old(status).banner_printed,
{
    status.osc_sender_count = if status.osc_sender_count == i32::MIN {
        i32::MAX
    } else {
        status.osc_sender_count - 1
    };
}

/// Whether at least one relay thread runs.
pub fn is_osc_sender_running(status: &ConnectionStatus) -> (running: bool)
    ensures
        running == (status.osc_sender_count > 0),
{
    status.osc_sender_count > 0
}

/// The banner that the startup sequence owes once the services are up.
/// With the broker bridge enabled it owes none: the bridge shows the
/// banner itself once its session is set up.
pub open spec fn startup_banner(mqtt_enabled: bool, status: ConnectionStatus) -> Option<Banner> {
    if mqtt_enabled {
        None
    } else if status.osc_listener_running && status.osc_sender_count > 0 {
        Some(Banner::Active)
    } else {
        Some(Banner::Broken)
    }
}

/// Decides the banner to show after startup, and claims it. A banner is
/// handed out only where none was shown before.
pub fn final_status_after_startup(state: &SharedState, status: &mut ConnectionStatus) -> (banner:
    Option<Banner>)
    ensures
        banner == if old(status).banner_printed {
            None
        } else {
            startup_banner(state@.mqtt_enabled, *old(status))
        },
        final(status).banner_printed == (old(status).banner_printed || !state@.mqtt_enabled),
        final(status).osc_listener_running == old(status).osc_listener_running,
        final(status).osc_sender_count == old(status).osc_sender_count,
{
    if state.is_mqtt_enabled() {
        return None;
    }
    let running: bool = status.osc_listener_running && is_osc_sender_running(status);
    if !status.claim_banner() {
        return None;
    }
    if running {
        Some(Banner::Active)
    } else {
        Some(Banner::Broken)
    }
}

/// A start followed by a stop leaves the count of relay threads as it was.
pub proof fn lemma_start_then_stop(count: i32)
    ensures
        count_after_stop(count_after_start(count)) == count,
        count_after_start(count_after_stop(count)) == count,
{
}

} // verus!
