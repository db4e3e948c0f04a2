//! Refreshing the subscription usage read from the CLI's telemetry log: when a
//! freshly published snapshot has arrived, and what is shown when none does.
//!
//! The snapshot itself carries floating-point percentages and is read by the
//! caller; the decisions here look only at whether one is available and when
//! it was published.

use vstd::prelude::*;
use crate::session::opt_str_view;

verus! {

/// What a refresh does after looking at the telemetry once more.
pub enum UsageRefreshStep {
    /// A new snapshot was published: use it.
    Fresh,
    /// Nothing new yet: wait a little and look again.
    Wait,
    /// The CLI exited or the time is up without a new snapshot: report it stale.
    Stale,
}

/// Decides a step of a usage refresh. A snapshot is fresh when it is available
/// and its publication time differs from the one seen before the refresh
/// began; otherwise the refresh ends stale once the CLI has exited or the
/// deadline has passed, and waits while neither has happened.
pub fn usage_refresh_step(
    previous_update: Option<&str>,
    available: bool,
    updated_at: Option<&str>,
    exited: bool,
    past_deadline: bool,
) -> (r: UsageRefreshStep)
    ensures
        (r is Fresh) <==> (available && opt_str_view(updated_at) != opt_str_view(previous_update)),
        (!(r is Fresh) && (exited || past_deadline)) <==> (r is Stale),
{
    let changed = match (updated_at, previous_update) {
        (Some(a), Some(b)) => !crate::text::str_is(a, b),
        (None, None) => false,
        _ => true,
    };
    if available && changed {
        UsageRefreshStep::Fresh
    } else if exited || past_deadline {
        UsageRefreshStep::Stale
    } else {
        UsageRefreshStep::Wait
    }
}

/// Where usage figures come from.
pub fn usage_source() -> (r: &'static str)
    ensures
        r@ == "Grok CLI telemetry"@,
{
    "Grok CLI telemetry"
}

/// The explanation given when no usage snapshot has been read.
pub fn no_usage_detail() -> (r: &'static str)
    ensures
        r@ == "No Grok billing telemetry is available yet."@,
{
    "No Grok billing telemetry is available yet."
}

/// The explanation given when a refresh saw no fresh snapshot; the result is
/// otherwise the unavailable snapshot.
pub fn stale_usage_detail() -> (r: &'static str)
    ensures
        r@ == "Grok did not publish a fresh billing snapshot during startup."@,
{
    "Grok did not publish a fresh billing snapshot during startup."
}

/// The explanation given with a snapshot read from the telemetry.
pub fn read_usage_detail() -> (r: &'static str)
    ensures
        r@ == "Read from Grok's local billing telemetry; refreshes when the CLI publishes a new snapshot."@,
{
    "Read from Grok's local billing telemetry; refreshes when the CLI publishes a new snapshot."
}

} // verus!
