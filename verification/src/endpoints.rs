//! Status decisions of the HTTP surface.
//!
//! The handlers themselves live with the web server; what they decide is
//! here, as plain functions of the probe outcomes: readiness answers 503
//! exactly when the database probe failed, liveness always answers 200 (it
//! asks whether the process runs, not whether it is healthy), the plain
//! database health endpoint answers 200 or 500 on the ping outcome alone,
//! and the system health endpoint answers 503 exactly when the aggregated
//! status is Unhealthy.

use vstd::prelude::*;
use crate::health::HealthStatus;

verus! {

/// The status code of the readiness endpoint: 200 exactly when the
/// database probe succeeded, 503 otherwise.
pub fn readiness_status_code(db_ok: bool) -> (r: u16)
    ensures
        r == (if db_ok {
            200u16
        } else {
            503u16
        }),
        (r == 200) <==> db_ok,
{
    if db_ok {
        200
    } else {
        503
    }
}

/// The status field of the readiness body.
pub fn readiness_label(db_ok: bool) -> (r: &'static str)
    ensures
        db_ok ==> r@ == "ready"@,
        !db_ok ==> r@ == "not_ready"@,
{
    if db_ok {
        "ready"
    } else {
        "not_ready"
    }
}

/// The error field of a failed readiness body.
pub fn readiness_error_label() -> (r: &'static str)
    ensures
        r@ == "Database connection failed"@,
{
    "Database connection failed"
}

/// The status code of the liveness endpoint: always 200, whatever the
/// state of the database or of any probe.
pub fn liveness_status_code() -> (r: u16)
    ensures
        r == 200,
{
    200
}

/// The status field of the liveness body.
pub fn liveness_label() -> (r: &'static str)
    ensures
        r@ == "alive"@,
{
    "alive"
}

/// The status code of the plain database health endpoint: 200 on a
/// successful ping, 500 otherwise, with an empty body either way.
pub fn db_health_status_code(db_ok: bool) -> (r: u16)
    ensures
        r == (if db_ok {
            200u16
        } else {
            500u16
        }),
        (r == 200) <==> db_ok,
{
    if db_ok {
        200
    } else {
        500
    }
}

/// The status code of the system health endpoint: 503 exactly when the
/// aggregated status is Unhealthy; Healthy and Degraded both answer 200.
pub fn health_status_code(overall: HealthStatus) -> (r: u16)
    ensures
        r == (if overall == HealthStatus::Unhealthy {
            503u16
        } else {
            200u16
        }),
        (r == 200) <==> overall != HealthStatus::Unhealthy,
{
    match overall {
        HealthStatus::Unhealthy => 503,
        HealthStatus::Healthy => 200,
        HealthStatus::Degraded => 200,
    }
}

/// The content type of the metrics endpoint's successful response.
pub fn metrics_content_type() -> (r: &'static str)
    ensures
        r@ == "text/plain; version=0.0.4; charset=utf-8"@,
{
    "text/plain; version=0.0.4; charset=utf-8"
}

} // verus!
