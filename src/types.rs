use vstd::prelude::*;
use crate::alerts::{Alert, ALERT_KINDS};
use crate::envelope::{bands_wf, envelope_valid, Band, ENVELOPE_LIMIT};

verus! {

/// Pitch and roll of the aircraft, in millidegrees.
#[derive(Clone, Copy, Debug, PartialEq, Eq, Structural, Default)]
pub struct Attitude {
    pub pitch: i64,
    pub roll: i64,
}

/// One periodic sample of the aircraft's state.
#[derive(Clone, Copy, Debug, PartialEq, Eq, Structural, Default)]
pub struct AircraftState {
    /// Height above sea level, in feet
    pub altitude_sealevel: i64,
    /// Height above the terrain below, in feet
    pub altitude_ground: i64,
    /// Vertical rate in feet per minute, positive when climbing
    pub climb_rate: i64,
    /// Geographic latitude, in microdegrees
    pub position_lat: i64,
    /// Geographic longitude, in microdegrees
    pub position_lon: i64,
    /// Angle clockwise from north to where the nose points, in millidegrees
    pub heading: i64,
    /// Ground speed, in knots
    pub speed: i64,
    /// Pitch and roll
    pub attitude: Attitude,
    /// Landing gear down
    pub gear_down: bool,
    /// Flaps in landing position
    pub flaps_landing: bool,
    /// Steep approach selected
    pub steep_approach: bool,
    /// Monotonic time of the sample, in milliseconds
    pub timestamp: u64,
}

/// Thresholds of one hazard detector.
///
/// The detector is armed while the height above terrain lies in
/// `[arm_min_ft, arm_max_ft]`. It raises a caution inside `caution` and a
/// warning inside `warning`; once alerting, the caution region is entered
/// `margin_fpm` feet per minute early so that the alert does not flicker.
pub struct ModeConfig {
    pub arm_min_ft: i64,
    pub arm_max_ft: i64,
    pub caution: Vec<Band>,
    pub warning: Vec<Band>,
    pub margin_fpm: i64,
}

impl ModeConfig {
    pub open spec fn valid(&self) -> bool {
        &&& bands_wf(self.caution@)
        &&& bands_wf(self.warning@)
        &&& 0 <= self.margin_fpm <= ENVELOPE_LIMIT
    }

    pub fn is_valid(&self) -> (r: bool)
        ensures
            r == self.valid(),
    {
        envelope_valid(&self.caution) && envelope_valid(&self.warning) && 0 <= self.margin_fpm
            && self.margin_fpm <= ENVELOPE_LIMIT
    }

    /// No height arms the detector, and it has no region.
    pub open spec fn is_never_armed(&self) -> bool {
        &&& self.arm_min_ft > self.arm_max_ft
        &&& self.caution@.len() == 0
        &&& self.warning@.len() == 0
        &&& self.margin_fpm == 0
    }

    /// The excessive-descent-rate detector: armed from the ground up to
    /// 2450 ft, with straight caution and warning lines over 10 to 2450 ft
    /// and a 100 ft/min margin.
    pub open spec fn is_excessive_descent(&self) -> bool {
        &&& self.arm_min_ft == 0
        &&& self.arm_max_ft == 2450
        &&& self.caution@ == seq![
            Band { lo_ft: 10, hi_ft: 2450, rate_lo_fpm: 1560, rate_hi_fpm: 5000 },
        ]
        &&& self.warning@ == seq![
            Band { lo_ft: 10, hi_ft: 2450, rate_lo_fpm: 1600, rate_hi_fpm: 7000 },
        ]
        &&& self.margin_fpm == 100
    }

    /// A detector that is never armed.
    pub fn never_armed() -> (r: ModeConfig)
        ensures
            r.valid(),
            r.is_never_armed(),
    {
        ModeConfig {
            arm_min_ft: 1,
            arm_max_ft: 0,
            caution: Vec::new(),
            warning: Vec::new(),
            margin_fpm: 0,
        }
    }

    /// The excessive-descent-rate envelope.
    pub fn excessive_descent() -> (r: ModeConfig)
        ensures
            r.valid(),
            r.is_excessive_descent(),
    {
        let caution = vec![Band { lo_ft: 10, hi_ft: 2450, rate_lo_fpm: 1560, rate_hi_fpm: 5000 }];
        let warning = vec![Band { lo_ft: 10, hi_ft: 2450, rate_lo_fpm: 1600, rate_hi_fpm: 7000 }];
        let r = ModeConfig { arm_min_ft: 0, arm_max_ft: 2450, caution, warning, margin_fpm: 100 };
        assert(r.caution@[0].wf());
        assert(r.warning@[0].wf());
        assert(r.caution@ =~= seq![
            Band { lo_ft: 10, hi_ft: 2450, rate_lo_fpm: 1560, rate_hi_fpm: 5000 },
        ]);
        assert(r.warning@ =~= seq![
            Band { lo_ft: 10, hi_ft: 2450, rate_lo_fpm: 1600, rate_hi_fpm: 7000 },
        ]);
        r
    }
}

/// Configuration of the whole system: one block per hazard kind, at the
/// kind's position `Alert::idx`.
pub struct TAWSConfig {
    /// Largest sustained climb rate, in feet per minute
    pub max_climbrate: i64,
    /// Largest change of climb rate, in feet per second squared
    pub max_climbrate_change: i64,
    pub modes: Vec<ModeConfig>,
}

impl TAWSConfig {
    pub open spec fn valid(&self) -> bool {
        &&& self.max_climbrate > 0
        &&& self.max_climbrate_change > 0
        &&& self.modes@.len() == ALERT_KINDS
        &&& forall|i: int| 0 <= i < self.modes@.len() ==> #[trigger] self.modes@[i].valid()
    }

    pub fn is_valid(&self) -> (r: bool)
        ensures
            r == self.valid(),
    {
        if self.max_climbrate <= 0 || self.max_climbrate_change <= 0 || self.modes.len()
            != ALERT_KINDS {
            return false;
        }
        let mut i: usize = 0;
        while i < self.modes.len()
            invariant
                i <= self.modes@.len(),
                forall|j: int| 0 <= j < i ==> #[trigger] self.modes@[j].valid(),
            decreases self.modes@.len() - i,
        {
            if !self.modes[i].is_valid() {
                return false;
            }
            i = i + 1;
        }
        true
    }
}

impl Default for TAWSConfig {
    fn default() -> (r: TAWSConfig)
        ensures
            r.valid(),
            r.max_climbrate == 700,
            r.max_climbrate_change == 100,
            r.modes@[Alert::Mode1.idx()].is_excessive_descent(),
            forall|i: int|
                0 <= i < ALERT_KINDS && i != Alert::Mode1.idx() ==> (
                #[trigger] r.modes@[i]).is_never_armed(),
    {
        let modes = vec![
            ModeConfig::never_armed(),
            ModeConfig::never_armed(),
            ModeConfig::never_armed(),
            ModeConfig::excessive_descent(),
            ModeConfig::never_armed(),
            ModeConfig::never_armed(),
            ModeConfig::never_armed(),
            ModeConfig::never_armed(),
        ];
        TAWSConfig { max_climbrate: 700, max_climbrate_change: 100, modes }
    }
}

} // verus!
