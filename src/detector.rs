use vstd::prelude::*;
use crate::alerts::{Alert, AlertLevel};
use crate::envelope::{envelope_contains, in_envelope, lemma_envelope_monotone};
use crate::types::{AircraftState, ModeConfig};

verus! {

/// The detector of `cfg` is armed for the sample `s`.
pub open spec fn armed_for(cfg: ModeConfig, s: AircraftState) -> bool {
    cfg.arm_min_ft <= s.altitude_ground <= cfg.arm_max_ft
}

/// Sink rate of `s`, in feet per minute, positive when descending.
pub open spec fn sink(s: AircraftState) -> int {
    -(s.climb_rate as int)
}

/// The caution region of `cfg` holds `s`; while `alerting` it is widened by the margin.
pub open spec fn caution_hit(cfg: ModeConfig, s: AircraftState, alerting: bool) -> bool {
    in_envelope(
        cfg.caution@,
        s.altitude_ground as int,
        sink(s) + if alerting {
            cfg.margin_fpm as int
        } else {
            0
        },
    )
}

/// The warning region of `cfg` holds `s`.
pub open spec fn warning_hit(cfg: ModeConfig, s: AircraftState) -> bool {
    in_envelope(cfg.warning@, s.altitude_ground as int, sink(s))
}

/// What the detector of kind `k` yields on `s`: nothing when disarmed or
/// inhibited, else a caution and then a warning, each when its region holds.
pub open spec fn candidates_for(
    k: Alert,
    cfg: ModeConfig,
    s: AircraftState,
    inhibited: bool,
    alerting: bool,
) -> Seq<(Alert, AlertLevel)> {
    if !armed_for(cfg, s) || inhibited {
        Seq::empty()
    } else {
        (if caution_hit(cfg, s, alerting) {
            seq![(k, AlertLevel::Caution)]
        } else {
            Seq::empty()
        }) + (if warning_hit(cfg, s) {
            seq![(k, AlertLevel::Warning)]
        } else {
            Seq::empty()
        })
    }
}

/// Runtime state of one hazard detector; its thresholds live in a `ModeConfig`.
#[derive(Clone, Copy, Debug)]
pub struct Detector {
    armed: bool,
    inhibited: bool,
    alerting: bool,
}

impl Detector {
    pub closed spec fn armed(&self) -> bool {
        self.armed
    }

    pub closed spec fn inhibited(&self) -> bool {
        self.inhibited
    }

    /// The detector asserted an alert on its last sample.
    pub closed spec fn alerting(&self) -> bool {
        self.alerting
    }

    pub fn new() -> (r: Detector)
        ensures
            !r.armed(),
            !r.inhibited(),
            !r.alerting(),
    {
        Detector { armed: false, inhibited: false, alerting: false }
    }

    /// Whether the last sample met the arming precondition.
    pub fn is_armed(&self) -> (r: bool)
        ensures
            r == self.armed(),
    {
        self.armed
    }

    /// Whether the detector's output is dismissed.
    pub fn is_inhibited(&self) -> (r: bool)
        ensures
            r == self.inhibited(),
    {
        self.inhibited
    }

    /// Dismisses the detector until `uninhibit`; arming is left alone.
    pub fn inhibit(&mut self)
        ensures
            final(self).inhibited(),
            final(self).armed() == old(self).armed(),
            final(self).alerting() == old(self).alerting(),
    {
        self.inhibited = true;
    }

    /// Re-enables the detector; arming is left alone.
    pub fn uninhibit(&mut self)
        ensures
            !final(self).inhibited(),
            final(self).armed() == old(self).armed(),
            final(self).alerting() == old(self).alerting(),
    {
        self.inhibited = false;
    }

    /// Re-arms from `s` and evaluates it; the candidates are all of kind `k`.
    pub fn process(&mut self, k: Alert, cfg: &ModeConfig, s: &AircraftState) -> (r: Vec<
        (Alert, AlertLevel),
    >)
        requires
            cfg.valid(),
        ensures
            r@ == candidates_for(k, *cfg, *s, old(self).inhibited(), old(self).alerting()),
            final(self).armed() == armed_for(*cfg, *s),
            final(self).inhibited() == old(self).inhibited(),
            final(self).alerting() == (r@.len() > 0),
    {
        self.armed = cfg.arm_min_ft <= s.altitude_ground && s.altitude_ground <= cfg.arm_max_ft;
        let mut r: Vec<(Alert, AlertLevel)> = Vec::new();
        if self.armed && !self.inhibited {
            let sink_now: i128 = -(s.climb_rate as i128);
            let widened: i128 = if self.alerting {
                sink_now + cfg.margin_fpm as i128
            } else {
                sink_now
            };
            if envelope_contains(&cfg.caution, s.altitude_ground, widened) {
                r.push((k, AlertLevel::Caution));
            }
            if envelope_contains(&cfg.warning, s.altitude_ground, sink_now) {
                r.push((k, AlertLevel::Warning));
            }
        }
        proof {
            let c = candidates_for(k, *cfg, *s, old(self).inhibited(), old(self).alerting());
            assert(r@ =~= c);
        }
        self.alerting = r.len() > 0;
        r
    }
}

/// A caution-region point raises an alert on the very sample that reaches it,
/// whether or not the detector was already alerting.
pub proof fn lemma_onset_alerts(
    k: Alert,
    cfg: ModeConfig,
    s: AircraftState,
    alerting: bool,
)
    requires
        cfg.valid(),
        armed_for(cfg, s),
        in_envelope(cfg.caution@, s.altitude_ground as int, sink(s)),
    ensures
        candidates_for(k, cfg, s, false, alerting).contains((k, AlertLevel::Caution)),
{
    if alerting {
        lemma_envelope_monotone(
            cfg.caution@,
            s.altitude_ground as int,
            sink(s),
            sink(s) + cfg.margin_fpm,
        );
    }
    assert(candidates_for(k, cfg, s, false, alerting)[0] == (k, AlertLevel::Caution));
}

/// Contract shared by the hazard detectors that evaluate a sample on their own.
pub trait AlertSystem {
    /// The detector met its arming precondition on the last sample.
    spec fn armed(&self) -> bool;

    /// The detector's output is dismissed.
    spec fn inhibited(&self) -> bool;

    /// Whether this detector is armed.
    fn is_armed(&self) -> (r: bool)
        ensures
            r == self.armed(),
    ;

    /// Dismisses this detector until `uninhibit`; arming is left alone.
    fn inhibit(&mut self)
        ensures
            final(self).inhibited(),
            final(self).armed() == old(self).armed(),
    ;

    /// Re-enables this detector; arming is left alone.
    fn uninhibit(&mut self)
        ensures
            !final(self).inhibited(),
            final(self).armed() == old(self).armed(),
    ;

    /// Whether this detector is dismissed.
    fn is_inhibited(&self) -> (r: bool)
        ensures
            r == self.inhibited(),
    ;

    /// Evaluates a sample; nothing comes out unless armed and not inhibited.
    fn process(&mut self, state: &AircraftState) -> (r: Option<(Alert, AlertLevel)>)
        ensures
            final(self).inhibited() == old(self).inhibited(),
            (!final(self).armed() || final(self).inhibited()) ==> r.is_none(),
    ;
}

/// Flight Near Terrain when Not in Landing Configuration.
///
/// No arming precondition is defined for this mode, so it is never armed and
/// never yields an alert; it can still be inhibited and uninhibited.
///
/// This is a stand-alone detector. It is not the Mode4 slot of `TAWS`, which
/// holds a `Detector` of its own: inhibiting one leaves the other untouched.
#[derive(Clone, Copy, Debug)]
pub struct Mode4 {
    inhibited: bool,
}

impl Mode4 {
    pub fn new() -> (r: Mode4)
        ensures
            !r.inhibited(),
            !r.armed(),
    {
        Mode4 { inhibited: false }
    }
}

impl AlertSystem for Mode4 {
    open spec fn armed(&self) -> bool {
        false
    }

    closed spec fn inhibited(&self) -> bool {
        self.inhibited
    }

    fn is_armed(&self) -> (r: bool) {
        false
    }

    fn inhibit(&mut self) {
        self.inhibited = true;
    }

    fn uninhibit(&mut self) {
        self.inhibited = false;
    }

    fn is_inhibited(&self) -> (r: bool) {
        self.inhibited
    }

    fn process(&mut self, _state: &AircraftState) -> (r: Option<(Alert, AlertLevel)>) {
        None
    }
}

} // verus!
