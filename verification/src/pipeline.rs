//! The path of a request through the gateway: the allowlist, then the rate limiter
//! for routing searches, then the upstream.
//!
//! A request is received, gated by [`check_admission`], forwarded by the caller where
//! it was let through, and answered with what [`crate::forward::conclude`] makes of the
//! attempt. A rejected request is answered with its failure and goes no further. No
//! step is taken twice.

use crate::config::{permitted, Config};
use crate::endpoint::{ContentKind, Endpoint};
use crate::gateway_error::GatewayError;
use crate::identity::ClientIdentity;
use crate::lru_table::IdentityKey;
use crate::rate_limit::IpRateLimit;
use crate::rate_laws::{all_from, within_window, Arrival};
use crate::rate_window::RateWindow;
use vstd::prelude::*;

verus! {

/// What is done with a request once it has passed or failed the gates.
#[derive(Clone, Copy, Debug, PartialEq, Eq, Structural)]
pub enum Admission {
    /// The request is handed to the upstream.
    Forward,
    /// The request ends here and is answered with this failure.
    Reject(GatewayError),
}

/// The decision on a request and the limiter it leaves behind.
///
/// A capability that the allowlist does not permit is denied, whatever the request
/// carries, and the limiter is not touched. A routing search is recorded with the
/// limiter at the time `now` and rejected where its identity has reached the quota.
/// Every other request is forwarded and not counted.
pub open spec fn admission(
    allowlist: Option<Seq<Endpoint>>,
    target: Endpoint,
    kind: ContentKind,
    window: RateWindow,
    key: IdentityKey,
    now: nat,
) -> (Admission, RateWindow) {
    if !permitted(allowlist, target) {
        (Admission::Reject(GatewayError::AdmissionDenied), window)
    } else if kind.is_routing_search() {
        let recorded = window.record(key, now);
        if recorded.over_limit(key) {
            (Admission::Reject(GatewayError::RateLimited), recorded)
        } else {
            (Admission::Forward, recorded)
        }
    } else {
        (Admission::Forward, window)
    }
}

/// Decides on a request that arrives at the time `now` on the limiter's clock.
pub fn check_admission_at(
    config: &Config,
    limiter: &mut IpRateLimit,
    target: Endpoint,
    kind: ContentKind,
    identity: &ClientIdentity,
    now: u128,
) -> (decision: Admission)
    ensures
        (decision, final(limiter)@) == admission(
            config.allowlist(),
            target,
            kind,
            old(limiter)@,
            identity@,
            now as nat,
        ),
{
    if !config.is_allowed(target) {
        Admission::Reject(GatewayError::AdmissionDenied)
    } else if kind.is_routing_search() && limiter.record_and_check(identity, now) {
        Admission::Reject(GatewayError::RateLimited)
    } else {
        Admission::Forward
    }
}

/// Decides on a request that arrives now.
///
/// The time of a routing search is read from the limiter's clock; whatever it says,
/// the decision is that of [`check_admission_at`] at that time. No other request
/// depends on the time.
pub fn check_admission(
    config: &Config,
    limiter: &mut IpRateLimit,
    target: Endpoint,
    kind: ContentKind,
    identity: &ClientIdentity,
) -> (decision: Admission)
    ensures
        exists|now: nat|
            (decision, final(limiter)@) == #[trigger] admission(
                config.allowlist(),
                target,
                kind,
                old(limiter)@,
                identity@,
                now,
            ),
{
    if !config.is_allowed(target) {
        assert((Admission::Reject(GatewayError::AdmissionDenied), limiter@) == admission(
            config.allowlist(),
            target,
            kind,
            old(limiter)@,
            identity@,
            0,
        ));
        Admission::Reject(GatewayError::AdmissionDenied)
    } else if kind.is_routing_search() {
        let limited = limiter.should_limit(identity);
        let decision = if limited {
            Admission::Reject(GatewayError::RateLimited)
        } else {
            Admission::Forward
        };
        proof {
            let now = choose|now: nat| limiter@ == #[trigger] old(limiter)@.record(identity@, now);
            assert((decision, limiter@) == admission(
                config.allowlist(),
                target,
                kind,
                old(limiter)@,
                identity@,
                now,
            ));
        }
        decision
    } else {
        assert((Admission::Forward, limiter@) == admission(
            config.allowlist(),
            target,
            kind,
            old(limiter)@,
            identity@,
            0,
        ));
        Admission::Forward
    }
}

/// A capability that a configured allowlist does not name is denied, whatever the
/// request carries and whoever sends it, and the limiter is left as it was.
pub proof fn lemma_unlisted_denied(
    allowlist: Seq<Endpoint>,
    target: Endpoint,
    kind: ContentKind,
    window: RateWindow,
    key: IdentityKey,
    now: nat,
)
    requires
        !allowlist.contains(target),
    ensures
        admission(Some(allowlist), target, kind, window, key, now) == (
            Admission::Reject(GatewayError::AdmissionDenied),
            window,
        ),
{
}

/// Without an allowlist no capability is denied.
pub proof fn lemma_unset_allowlist_permits(
    target: Endpoint,
    kind: ContentKind,
    window: RateWindow,
    key: IdentityKey,
    now: nat,
)
    ensures
        admission(None, target, kind, window, key, now).0 != Admission::Reject(
            GatewayError::AdmissionDenied,
        ),
{
}

/// Only routing searches are held against the quota: a request of any other kind
/// is never rejected as rate limited, and it is not counted.
pub proof fn lemma_only_searches_counted(
    allowlist: Option<Seq<Endpoint>>,
    target: Endpoint,
    kind: ContentKind,
    window: RateWindow,
    key: IdentityKey,
    now: nat,
)
    requires
        !kind.is_routing_search(),
    ensures
        admission(allowlist, target, kind, window, key, now).0 != Admission::Reject(
            GatewayError::RateLimited,
        ),
        admission(allowlist, target, kind, window, key, now).1 == window,
{
}

/// Of the routing searches that an identity without a row sends to a permitted
/// capability within one window, the one that reaches the quota is the first to be
/// rejected as rate limited: after the `earlier` ones, the search at `now` is
/// rejected if and only if it is at least the quota-th, and forwarded otherwise.
pub proof fn lemma_search_limited_from_quota_on(
    allowlist: Option<Seq<Endpoint>>,
    target: Endpoint,
    kind: ContentKind,
    window: RateWindow,
    key: IdentityKey,
    earlier: Seq<Arrival>,
    now: nat,
)
    requires
        permitted(allowlist, target),
        kind.is_routing_search(),
        window.wf(),
        !window.holds(key),
        all_from(earlier, key),
        within_window(earlier, window.window_start),
        !window.expired_at(now),
    ensures
        admission(allowlist, target, kind, window.record_each(earlier), key, now).0 == if 1
            + earlier.len() >= window.quota {
            Admission::Reject(GatewayError::RateLimited)
        } else {
            Admission::Forward
        },
{
    let all = earlier.push((key, now));
    assert(all.drop_last() == earlier);
    window.lemma_limited_from_quota_on(key, all);
    window.lemma_window_kept(earlier);
}

} // verus!
