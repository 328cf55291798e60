//! The decisions of a gateway that stands in front of a transit-routing backend.
//!
//! A request names a capability of the backend and carries a payload. The gateway
//! lets it through if the capability is on the configured allowlist and, for routing
//! searches, if the caller has not used up its quota for the current window. What was
//! let through is sent to the backend once, and the result of that attempt decides
//! the response.
//!
//! This library holds the decisions and proves what they are:
//!
//! - [`config`]: the settings, their defaults, and the allowlist;
//! - [`rate_limit`]: the rate limiter, over the model in [`rate_window`], with what
//!   follows from the model in [`rate_laws`];
//! - [`pipeline`]: the decision on a request;
//! - [`forward`]: the response to an upstream attempt.
//!
//! It sends nothing itself. The caller makes the upstream call and hands in what
//! happened. Three modules hold what is taken on trust from elsewhere: [`lru_table`]
//! for the table of counters, [`clock`] for the time, [`json`] for reading a body.

pub mod clock;
pub mod config;
pub mod endpoint;
pub mod forward;
pub mod gateway_error;
pub mod identity;
pub mod json;
pub mod lru_table;
pub mod pipeline;
pub mod rate_laws;
pub mod rate_limit;
pub mod rate_window;
