//! Per-entity kinematic state and its bounded random walk. Attribute values
//! are fixed-point numbers in thousandths of their unit.
use rand::Rng;
use vstd::prelude::*;

verus! {

/// Thousandths per unit of every attribute.
pub const SCALE: i64 = 1000;

pub const AIRSPEED_MIN: i64 = 200_000;
pub const AIRSPEED_MAX: i64 = 300_000;
pub const AIRSPEED_STEP: i64 = 1_000;
pub const ALTITUDE_MIN: i64 = 30_000_000;
pub const ALTITUDE_MAX: i64 = 40_000_000;
pub const ALTITUDE_STEP: i64 = 10_000;
pub const ANGLE_MIN: i64 = -10_000;
pub const ANGLE_MAX: i64 = 10_000;
pub const ANGLE_STEP: i64 = 1_000;
pub const AOA_MIN: i64 = 0;
pub const AOA_MAX: i64 = 15_000;
pub const AOA_STEP: i64 = 500;
pub const OAT_MIN: i64 = -60_000;
pub const OAT_MAX: i64 = 20_000;
pub const OAT_STEP: i64 = 1_000;

/// One observation of an entity: a nanosecond timestamp and its attributes.
#[derive(Clone, Copy, Debug, PartialEq, Eq)]
pub struct Reading {
    pub timestamp: i64,
    pub airspeed: i64,
    pub altitude: i64,
    pub pitch: i64,
    pub roll: i64,
    pub yaw: i64,
    pub aoa: i64,
    pub oat: i64,
}

pub open spec fn within(v: i64, lo: i64, hi: i64) -> bool {
    lo <= v && v <= hi
}

/// Every attribute of `r` lies within its declared range.
pub open spec fn reading_in_range(r: Reading) -> bool {
    &&& within(r.airspeed, AIRSPEED_MIN, AIRSPEED_MAX)
    &&& within(r.altitude, ALTITUDE_MIN, ALTITUDE_MAX)
    &&& within(r.pitch, ANGLE_MIN, ANGLE_MAX)
    &&& within(r.roll, ANGLE_MIN, ANGLE_MAX)
    &&& within(r.yaw, ANGLE_MIN, ANGLE_MAX)
    &&& within(r.aoa, AOA_MIN, AOA_MAX)
    &&& within(r.oat, OAT_MIN, OAT_MAX)
}

pub open spec fn spec_clamp(v: int, lo: int, hi: int) -> int {
    if v < lo {
        lo
    } else if v > hi {
        hi
    } else {
        v
    }
}

/// `v` moved to the nearest point of `[lo, hi]`.
pub fn clamp(v: i64, lo: i64, hi: i64) -> (r: i64)
    requires
        lo <= hi,
    ensures
        r as int == spec_clamp(v as int, lo as int, hi as int),
{
    if v < lo {
        lo
    } else if v > hi {
        hi
    } else {
        v
    }
}

/// The timestamp after a re-stamp: the clock's reading when it lies after
/// `previous`, else `previous` kept, so that stamps never go back.
pub open spec fn spec_next_timestamp(previous: i64, now: Option<i64>) -> i64 {
    match now {
        Some(t) => if t > previous {
            t
        } else {
            previous
        },
        None => previous,
    }
}

/// A step of the random walk: `v` moved by some `d` with `-step <= d < step`,
/// then clamped to `[lo, hi]`.
pub open spec fn drifted(v: i64, r: i64, lo: i64, hi: i64, step: i64) -> bool {
    exists|d: int| -step <= d < step && r as int == #[trigger] spec_clamp(v + d, lo as int, hi as int)
}

pub fn next_timestamp(previous: i64, now: Option<i64>) -> (r: i64)
    ensures
        r == spec_next_timestamp(previous, now),
        r >= previous,
{
    match now {
        Some(t) => if t > previous {
            t
        } else {
            previous
        },
        None => previous,
    }
}

/// Relies on `rand::Rng::gen_range` on `thread_rng()`: a value drawn from the
/// half-open range `[lo, hi)`; it panics on an empty range.
#[verifier::external_body]
fn draw_between(lo: i64, hi: i64) -> (r: i64)
    requires
        lo < hi,
    ensures
        lo <= r < hi,
{
    rand::thread_rng().gen_range(lo..hi)
}

/// Relies on std's `SystemTime::duration_since(UNIX_EPOCH)` on
/// `SystemTime::now()`: the wall clock as time since the epoch, an error when
/// the clock reads before the epoch. The nanoseconds come back as `None` then,
/// and when they do not fit an `i64`.
#[verifier::external_body]
fn clock_nanos() -> (r: Option<i64>)
    ensures
        r is Some ==> r->Some_0 >= 0,
{
    match std::time::SystemTime::now().duration_since(std::time::UNIX_EPOCH) {
        Ok(d) => i64::try_from(d.as_nanos()).ok(),
        Err(_) => None,
    }
}

/// One step of the random walk: `v` perturbed by less than `step` either way,
/// then clamped to `[lo, hi]`.
fn drift(v: i64, lo: i64, hi: i64, step: i64) -> (r: i64)
    requires
        lo <= hi,
        0 < step <= SCALE * 1_000_000,
        -SCALE * 1_000_000_000 <= v <= SCALE * 1_000_000_000,
    ensures
        within(r, lo, hi),
        drifted(v, r, lo, hi, step),
{
    let delta = draw_between(-step, step);
    let r = clamp(v + delta, lo, hi);
    assert(-step <= delta as int && (delta as int) < step && r as int == spec_clamp(
        v + delta as int,
        lo as int,
        hi as int,
    ));
    r
}

/// A simulated aircraft: its identity and its latest reading.
pub struct PlaneData {
    pub plane_id: String,
    pub timestamp: i64,
    pub airspeed: i64,
    pub altitude: i64,
    pub pitch: i64,
    pub roll: i64,
    pub yaw: i64,
    pub aoa: i64,
    pub oat: i64,
}

impl PlaneData {
    /// The current reading, as a plain value.
    pub open spec fn view_reading(&self) -> Reading {
        Reading {
            timestamp: self.timestamp,
            airspeed: self.airspeed,
            altitude: self.altitude,
            pitch: self.pitch,
            roll: self.roll,
            yaw: self.yaw,
            aoa: self.aoa,
            oat: self.oat,
        }
    }

    pub open spec fn wf(&self) -> bool {
        reading_in_range(self.view_reading())
    }

    /// A fresh state: each attribute drawn uniformly from its range, stamped
    /// with the current time.
    pub fn new(plane_id: String) -> (r: PlaneData)
        ensures
            r.wf(),
            r.plane_id@ == plane_id@,
            AIRSPEED_MIN <= r.airspeed < AIRSPEED_MAX,
            ALTITUDE_MIN <= r.altitude < ALTITUDE_MAX,
            ANGLE_MIN <= r.pitch < ANGLE_MAX,
            ANGLE_MIN <= r.roll < ANGLE_MAX,
            ANGLE_MIN <= r.yaw < ANGLE_MAX,
            AOA_MIN <= r.aoa < AOA_MAX,
            OAT_MIN <= r.oat < OAT_MAX,
            exists|now: Option<i64>|
                (now is Some ==> now->Some_0 >= 0) && r.timestamp == #[trigger] spec_next_timestamp(0, now),
    {
        let now = clock_nanos();
        PlaneData {
            plane_id,
            timestamp: next_timestamp(0, now),
            airspeed: draw_between(AIRSPEED_MIN, AIRSPEED_MAX),
            altitude: draw_between(ALTITUDE_MIN, ALTITUDE_MAX),
            pitch: draw_between(ANGLE_MIN, ANGLE_MAX),
            roll: draw_between(ANGLE_MIN, ANGLE_MAX),
            yaw: draw_between(ANGLE_MIN, ANGLE_MAX),
            aoa: draw_between(AOA_MIN, AOA_MAX),
            oat: draw_between(OAT_MIN, OAT_MAX),
        }
    }

    /// Moves every attribute by a small random step, clamped to its range,
    /// and re-stamps the state with a time no earlier than before.
    pub fn update(&mut self)
        requires
            old(self).wf(),
        ensures
            final(self).wf(),
            final(self).plane_id@ == old(self).plane_id@,
            final(self).timestamp >= old(self).timestamp,
            exists|now: Option<i64>|
                (now is Some ==> now->Some_0 >= 0) && final(self).timestamp
                    == #[trigger] spec_next_timestamp(old(self).timestamp, now),
            drifted(old(self).airspeed, final(self).airspeed, AIRSPEED_MIN, AIRSPEED_MAX, AIRSPEED_STEP),
            drifted(old(self).altitude, final(self).altitude, ALTITUDE_MIN, ALTITUDE_MAX, ALTITUDE_STEP),
            drifted(old(self).pitch, final(self).pitch, ANGLE_MIN, ANGLE_MAX, ANGLE_STEP),
            drifted(old(self).roll, final(self).roll, ANGLE_MIN, ANGLE_MAX, ANGLE_STEP),
            drifted(old(self).yaw, final(self).yaw, ANGLE_MIN, ANGLE_MAX, ANGLE_STEP),
            drifted(old(self).aoa, final(self).aoa, AOA_MIN, AOA_MAX, AOA_STEP),
            drifted(old(self).oat, final(self).oat, OAT_MIN, OAT_MAX, OAT_STEP),
    {
        let now = clock_nanos();
        self.timestamp = next_timestamp(self.timestamp, now);
        self.airspeed = drift(self.airspeed, AIRSPEED_MIN, AIRSPEED_MAX, AIRSPEED_STEP);
        self.altitude = drift(self.altitude, ALTITUDE_MIN, ALTITUDE_MAX, ALTITUDE_STEP);
        self.pitch = drift(self.pitch, ANGLE_MIN, ANGLE_MAX, ANGLE_STEP);
        self.roll = drift(self.roll, ANGLE_MIN, ANGLE_MAX, ANGLE_STEP);
        self.yaw = drift(self.yaw, ANGLE_MIN, ANGLE_MAX, ANGLE_STEP);
        self.aoa = drift(self.aoa, AOA_MIN, AOA_MAX, AOA_STEP);
        self.oat = drift(self.oat, OAT_MIN, OAT_MAX, OAT_STEP);
    }

    /// The current reading, as a plain value.
    pub fn reading(&self) -> (r: Reading)
        ensures
            r == self.view_reading(),
    {
        Reading {
            timestamp: self.timestamp,
            airspeed: self.airspeed,
            altitude: self.altitude,
            pitch: self.pitch,
            roll: self.roll,
            yaw: self.yaw,
            aoa: self.aoa,
            oat: self.oat,
        }
    }
}

} // verus!
