use motis_proxy::config::{
    default_allowed_endpoints, default_connections_per_host, default_lru_rate_limit_entries,
    default_motis_address, default_proxy_assets, default_routes_per_minute_limit, default_timeout,
    Config,
};
use motis_proxy::endpoint::{ContentKind, Endpoint};
use motis_proxy::forward::{conclude, ForwardOutcome, TransportError, UpstreamEvent};
use motis_proxy::gateway_error::GatewayError;
use motis_proxy::identity::ClientIdentity;
use motis_proxy::pipeline::{check_admission, check_admission_at, Admission};
use motis_proxy::rate_limit::IpRateLimit;

const ENDPOINTS: [Endpoint; 10] = [
    Endpoint::Intermodal,
    Endpoint::Guesser,
    Endpoint::Address,
    Endpoint::RailVizGetTrains,
    Endpoint::RailVizGetTrips,
    Endpoint::LookupScheduleInfo,
    Endpoint::GbfsInfo,
    Endpoint::RailVizGetStation,
    Endpoint::PprRoute,
    Endpoint::TripId,
];

const KINDS: [ContentKind; 10] = [
    ContentKind::IntermodalConnectionRequest,
    ContentKind::IntermodalRoutingRequest,
    ContentKind::StationGuesserRequest,
    ContentKind::AddressRequest,
    ContentKind::RailVizTrainsRequest,
    ContentKind::RailVizTripsRequest,
    ContentKind::MotisNoMessage,
    ContentKind::RailVizStationRequest,
    ContentKind::FootRoutingRequest,
    ContentKind::TripId,
];

fn config(quota: u16, capacity: usize, allowed: Option<Vec<Endpoint>>) -> Config {
    Config {
        routes_per_minute_limit: quota,
        lru_rate_limit_entries: capacity,
        allowed_endpoints: allowed,
        ..Config::default()
    }
}

fn limiter_of(config: &Config) -> IpRateLimit {
    IpRateLimit::new(config.lru_rate_limit_entries, config.routes_per_minute_limit)
}

#[test]
fn defaults_are_as_documented() {
    assert_eq!(default_connections_per_host(), 100);
    assert_eq!(default_timeout(), 10);
    assert_eq!(default_motis_address(), "http://localhost:8080");
    assert!(!default_proxy_assets());
    assert_eq!(default_allowed_endpoints(), None);
    assert_eq!(default_routes_per_minute_limit(), 20);
    assert_eq!(default_lru_rate_limit_entries(), 10_000);
}

#[test]
fn default_config_holds_the_defaults() {
    let config = Config::default();
    assert_eq!(config.connections_per_host, 100);
    assert_eq!(config.timeout, 10);
    assert_eq!(config.motis_address, "http://localhost:8080");
    assert!(!config.proxy_assets);
    assert_eq!(config.allowed_endpoints, None);
    assert_eq!(config.routes_per_minute_limit, 20);
    assert_eq!(config.lru_rate_limit_entries, 10_000);
}

#[test]
fn without_allowlist_every_capability_is_allowed() {
    let config = Config::default();
    for endpoint in ENDPOINTS {
        assert!(config.is_allowed(endpoint));
    }
}

#[test]
fn allowlist_allows_its_members_only() {
    let config = config(20, 10, Some(vec![Endpoint::Guesser, Endpoint::Intermodal]));
    for endpoint in ENDPOINTS {
        let listed = endpoint == Endpoint::Guesser || endpoint == Endpoint::Intermodal;
        assert_eq!(config.is_allowed(endpoint), listed);
    }
}

#[test]
fn empty_allowlist_allows_nothing() {
    let config = config(20, 10, Some(vec![]));
    for endpoint in ENDPOINTS {
        assert!(!config.is_allowed(endpoint));
    }
}

#[test]
fn routing_searches_are_the_two_intermodal_kinds() {
    for kind in KINDS {
        let search = kind == ContentKind::IntermodalConnectionRequest
            || kind == ContentKind::IntermodalRoutingRequest;
        assert_eq!(kind.is_routing_search(), search);
    }
}

#[test]
fn unlisted_capability_is_denied_whatever_the_payload() {
    let config = config(2, 10, Some(vec![Endpoint::Guesser]));
    let mut limiter = limiter_of(&config);
    let x = ClientIdentity::V4(1);
    for kind in KINDS {
        let decision = check_admission_at(&config, &mut limiter, Endpoint::Intermodal, kind, &x, 0);
        assert_eq!(decision, Admission::Reject(GatewayError::AdmissionDenied));
    }
}

#[test]
fn denied_requests_are_not_counted() {
    let config = config(2, 10, Some(vec![Endpoint::Intermodal]));
    let mut limiter = limiter_of(&config);
    let x = ClientIdentity::V4(1);
    let search = ContentKind::IntermodalRoutingRequest;
    for _ in 0..5 {
        let decision = check_admission_at(&config, &mut limiter, Endpoint::PprRoute, search, &x, 0);
        assert_eq!(decision, Admission::Reject(GatewayError::AdmissionDenied));
    }
    let decision = check_admission_at(&config, &mut limiter, Endpoint::Intermodal, search, &x, 0);
    assert_eq!(decision, Admission::Forward);
}

#[test]
fn searches_are_limited_from_the_quota_on() {
    let config = config(3, 10, None);
    let mut limiter = limiter_of(&config);
    let x = ClientIdentity::V6(0xfe80);
    let search = ContentKind::IntermodalConnectionRequest;
    let decisions: Vec<Admission> = (0..4)
        .map(|_| check_admission_at(&config, &mut limiter, Endpoint::Intermodal, search, &x, 0))
        .collect();
    assert_eq!(
        decisions,
        vec![
            Admission::Forward,
            Admission::Forward,
            Admission::Reject(GatewayError::RateLimited),
            Admission::Reject(GatewayError::RateLimited),
        ]
    );
}

#[test]
fn other_requests_are_never_limited() {
    let config = config(1, 10, None);
    let mut limiter = limiter_of(&config);
    let x = ClientIdentity::V4(1);
    for kind in KINDS {
        if !kind.is_routing_search() {
            for _ in 0..3 {
                let decision =
                    check_admission_at(&config, &mut limiter, Endpoint::Guesser, kind, &x, 0);
                assert_eq!(decision, Admission::Forward);
            }
        }
    }
}

#[test]
fn other_requests_are_not_counted() {
    let config = config(2, 10, None);
    let mut limiter = limiter_of(&config);
    let x = ClientIdentity::V4(1);
    for _ in 0..5 {
        let decision = check_admission_at(
            &config,
            &mut limiter,
            Endpoint::Guesser,
            ContentKind::StationGuesserRequest,
            &x,
            0,
        );
        assert_eq!(decision, Admission::Forward);
    }
    let decision = check_admission_at(
        &config,
        &mut limiter,
        Endpoint::Intermodal,
        ContentKind::IntermodalRoutingRequest,
        &x,
        0,
    );
    assert_eq!(decision, Admission::Forward);
}

#[test]
fn searches_pass_again_after_the_window() {
    let config = config(2, 10, None);
    let mut limiter = limiter_of(&config);
    let x = ClientIdentity::V4(1);
    let search = ContentKind::IntermodalRoutingRequest;
    let second: u128 = 1_000_000_000;
    let at = |limiter: &mut IpRateLimit, now: u128| {
        check_admission_at(&config, limiter, Endpoint::Intermodal, search, &x, now)
    };
    assert_eq!(at(&mut limiter, 0), Admission::Forward);
    assert_eq!(at(&mut limiter, second), Admission::Reject(GatewayError::RateLimited));
    assert_eq!(at(&mut limiter, 60 * second), Admission::Forward);
    assert_eq!(at(&mut limiter, 61 * second), Admission::Reject(GatewayError::RateLimited));
}

fn answer(decision: Admission) -> ForwardOutcome {
    match decision {
        Admission::Reject(error) => ForwardOutcome::Failed(error),
        Admission::Forward => {
            conclude(UpstreamEvent::Answered { status: 200, body: Some(b"{}".to_vec()) })
        }
    }
}

#[test]
fn three_searches_against_a_quota_of_two() {
    let config = config(2, 10, None);
    let mut limiter = limiter_of(&config);
    let x = ClientIdentity::V4(0x0a00_0001);
    let search = ContentKind::IntermodalRoutingRequest;
    let statuses: Vec<u16> = (0..3)
        .map(|_| answer(check_admission(&config, &mut limiter, Endpoint::Intermodal, search, &x)))
        .map(|outcome| outcome.status())
        .collect();
    // The second search is the one that reaches the quota of two.
    assert_eq!(statuses, vec![200, 429, 429]);
}

#[test]
fn three_searches_against_a_quota_of_three() {
    let config = config(3, 10, None);
    let mut limiter = limiter_of(&config);
    let x = ClientIdentity::V4(0x0a00_0001);
    let search = ContentKind::IntermodalRoutingRequest;
    let statuses: Vec<u16> = (0..3)
        .map(|_| answer(check_admission(&config, &mut limiter, Endpoint::Intermodal, search, &x)))
        .map(|outcome| outcome.status())
        .collect();
    assert_eq!(statuses, vec![200, 200, 429]);
}

#[test]
fn denied_request_is_answered_with_unprocessable_entity() {
    let config = config(2, 10, Some(vec![Endpoint::Address]));
    let mut limiter = limiter_of(&config);
    let x = ClientIdentity::V4(1);
    let decision = check_admission(
        &config,
        &mut limiter,
        Endpoint::Guesser,
        ContentKind::StationGuesserRequest,
        &x,
    );
    assert_eq!(answer(decision).status(), 422);
}

#[test]
fn forwarded_request_is_answered_by_the_attempt() {
    let config = Config::default();
    let mut limiter = limiter_of(&config);
    let x = ClientIdentity::V4(1);
    let decision = check_admission(
        &config,
        &mut limiter,
        Endpoint::Address,
        ContentKind::AddressRequest,
        &x,
    );
    assert_eq!(decision, Admission::Forward);
    let failed = UpstreamEvent::Failed(TransportError { timeout: true, connect: false, status: None });
    assert_eq!(conclude(failed).status(), 504);
}
