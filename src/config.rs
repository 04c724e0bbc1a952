//! Validation of a run's configuration and the quantities derived from it.
use vstd::prelude::*;

verus! {

/// Milliseconds in one second: the tick period is this divided by the rate.
pub const MILLIS_PER_SECOND: u64 = 1000;

/// The largest flush admission limit a semaphore can be made with.
pub const GATE_LIMIT: usize = usize::MAX >> 3;

#[derive(Clone, Copy, Debug, PartialEq, Eq, Structural)]
pub enum ConfigError {
    /// The rate per entity is zero.
    ZeroRate,
    /// The rate per entity leaves a tick period of less than a millisecond.
    RateTooHigh,
    /// No entity to simulate.
    ZeroEntities,
    /// The batch size is zero.
    ZeroBatchSize,
    /// Entity count times batch size is too large for the flush admission limit.
    GateTooLarge,
}

/// A validated run: every field is within the limits that `validate` checks.
#[derive(Clone, Copy, Debug, PartialEq, Eq, Structural)]
pub struct RunConfig {
    pub total_rows: u64,
    pub rate_per_plane: u64,
    pub plane_count: u32,
    pub batch_size: usize,
    /// Milliseconds between two ticks of one producer.
    pub period_ms: u64,
    /// How many flushes may be admitted at once.
    pub gate_capacity: usize,
}

pub open spec fn config_error(rate: u64, plane_count: u32, batch_size: usize) -> Option<
    ConfigError,
> {
    if rate == 0 {
        Some(ConfigError::ZeroRate)
    } else if rate > MILLIS_PER_SECOND {
        Some(ConfigError::RateTooHigh)
    } else if plane_count == 0 {
        Some(ConfigError::ZeroEntities)
    } else if batch_size == 0 {
        Some(ConfigError::ZeroBatchSize)
    } else if plane_count as int * batch_size as int > GATE_LIMIT as int {
        Some(ConfigError::GateTooLarge)
    } else {
        None
    }
}

/// Checks a run's parameters before any producer starts and derives the tick
/// period (`1000 / rate` milliseconds) and the flush admission limit (entity count
/// times batch size).
pub fn validate(total_rows: u64, rate_per_plane: u64, plane_count: u32, batch_size: usize) -> (r:
    Result<RunConfig, ConfigError>)
    ensures
        r is Err <==> config_error(rate_per_plane, plane_count, batch_size) is Some,
        r is Err ==> Some(r->Err_0) == config_error(rate_per_plane, plane_count, batch_size),
        r is Ok ==> ({
            let c = r->Ok_0;
            &&& c.total_rows == total_rows
            &&& c.rate_per_plane == rate_per_plane
            &&& c.plane_count == plane_count
            &&& c.batch_size == batch_size
            &&& c.period_ms as int == MILLIS_PER_SECOND as int / rate_per_plane as int
            &&& c.period_ms > 0
            &&& c.gate_capacity as int == plane_count as int * batch_size as int
            &&& 0 < c.gate_capacity <= GATE_LIMIT
        }),
{
    if rate_per_plane == 0 {
        return Err(ConfigError::ZeroRate);
    }
    if rate_per_plane > MILLIS_PER_SECOND {
        return Err(ConfigError::RateTooHigh);
    }
    if plane_count == 0 {
        return Err(ConfigError::ZeroEntities);
    }
    if batch_size == 0 {
        return Err(ConfigError::ZeroBatchSize);
    }
    if batch_size > GATE_LIMIT / (plane_count as usize) {
        proof {
            let q = GATE_LIMIT / (plane_count as usize);
            assert(batch_size >= q + 1);
            assert(plane_count as int * batch_size as int >= plane_count as int * (q + 1))
                by (nonlinear_arith)
                requires
                    batch_size >= q + 1,
                    plane_count > 0,
            ;
            assert(plane_count as int * (q + 1) > GATE_LIMIT as int) by (nonlinear_arith)
                requires
                    q == GATE_LIMIT as int / plane_count as int,
                    plane_count > 0,
            ;
        }
        return Err(ConfigError::GateTooLarge);
    }
    proof {
        let q = GATE_LIMIT / (plane_count as usize);
        assert(plane_count as int * batch_size as int <= plane_count as int * q) by (
        nonlinear_arith)
            requires
                batch_size <= q,
                plane_count > 0,
        ;
        assert(plane_count as int * q <= GATE_LIMIT as int) by (nonlinear_arith)
            requires
                q == GATE_LIMIT as int / plane_count as int,
                plane_count > 0,
        ;
        assert(plane_count as int * batch_size as int > 0) by (nonlinear_arith)
            requires
                batch_size > 0,
                plane_count > 0,
        ;
    }
    assert(MILLIS_PER_SECOND / rate_per_plane >= 1) by (nonlinear_arith)
        requires
            0 < rate_per_plane <= MILLIS_PER_SECOND,
    ;
    let gate_capacity = plane_count as usize * batch_size;
    Ok(
        RunConfig {
            total_rows,
            rate_per_plane,
            plane_count,
            batch_size,
            period_ms: MILLIS_PER_SECOND / rate_per_plane,
            gate_capacity,
        },
    )
}

} // verus!
