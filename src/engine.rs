use vstd::prelude::*;
use crate::alerts::{
    arbitrate, lemma_arbitration_severity, most_severe_seen, Alert, AlertLevel, AlertState,
    ALERT_KINDS,
};
use crate::detector::{
    armed_for, candidates_for, lemma_onset_alerts, sink, Detector,
};
use crate::envelope::{clear_between, in_envelope, lemma_clear_band_quiet};
use crate::types::{AircraftState, ModeConfig, TAWSConfig};

verus! {

/// The configuration cannot be used to build an engine.
#[derive(Clone, Copy, Debug, PartialEq, Eq, Structural)]
pub enum ConfigError {
    /// A threshold is missing or out of range.
    Invalid,
}

/// Candidates of the first `n` detectors on `s`, in kind order.
pub open spec fn cycle_candidates(
    modes: Seq<ModeConfig>,
    dets: Seq<Detector>,
    s: AircraftState,
    n: int,
) -> Seq<(Alert, AlertLevel)>
    decreases n,
{
    if n <= 0 {
        Seq::empty()
    } else {
        cycle_candidates(modes, dets, s, n - 1) + candidates_for(
            Alert::from_idx(n - 1),
            modes[n - 1],
            s,
            dets[n - 1].inhibited(),
            dets[n - 1].alerting(),
        )
    }
}

/// The terrain awareness engine: one detector per hazard kind, at the kind's
/// position `Alert::idx`, sharing one configuration.
pub struct TAWS {
    config: TAWSConfig,
    detectors: Vec<Detector>,
}

impl TAWS {
    pub closed spec fn config(&self) -> TAWSConfig {
        self.config
    }

    pub closed spec fn detectors(&self) -> Seq<Detector> {
        self.detectors@
    }

    pub open spec fn wf(&self) -> bool {
        &&& self.config().valid()
        &&& self.detectors().len() == ALERT_KINDS
    }

    /// Builds the engine; an invalid configuration is refused.
    pub fn new(config: TAWSConfig) -> (r: Result<TAWS, ConfigError>)
        ensures
            r.is_ok() == config.valid(),
            r.is_ok() ==> {
                let t = r.unwrap();
                &&& t.wf()
                &&& t.config() == config
                &&& forall|i: int|
                    0 <= i < ALERT_KINDS ==> {
                        &&& !(#[trigger] t.detectors()[i]).armed()
                        &&& !t.detectors()[i].inhibited()
                        &&& !t.detectors()[i].alerting()
                    }
            },
            r.is_err() ==> r == Err::<TAWS, ConfigError>(ConfigError::Invalid),
    {
        if !config.is_valid() {
            return Err(ConfigError::Invalid);
        }
        let mut detectors: Vec<Detector> = Vec::new();
        let mut i: usize = 0;
        while i < ALERT_KINDS
            invariant
                i <= ALERT_KINDS,
                detectors@.len() == i,
                forall|j: int|
                    0 <= j < i ==> {
                        &&& !(#[trigger] detectors@[j]).armed()
                        &&& !detectors@[j].inhibited()
                        &&& !detectors@[j].alerting()
                    },
            decreases ALERT_KINDS - i,
        {
            detectors.push(Detector::new());
            i = i + 1;
        }
        Ok(TAWS { config, detectors })
    }

    /// Whether the detector of `alert_system` met its arming precondition on the last sample.
    pub fn is_armed(&self, alert_system: Alert) -> (r: bool)
        requires
            self.wf(),
        ensures
            r == self.detectors()[alert_system.idx()].armed(),
    {
        self.detectors[alert_system.index()].is_armed()
    }

    /// Whether the detector of `alert_system` is dismissed.
    pub fn is_inhibited(&self, alert_system: Alert) -> (r: bool)
        requires
            self.wf(),
        ensures
            r == self.detectors()[alert_system.idx()].inhibited(),
    {
        self.detectors[alert_system.index()].is_inhibited()
    }

    /// Dismisses the detector of `alert_system`; the others are left alone.
    pub fn inhibit(&mut self, alert_system: Alert)
        requires
            old(self).wf(),
        ensures
            final(self).wf(),
            final(self).config() == old(self).config(),
            final(self).detectors()[alert_system.idx()].inhibited(),
            final(self).detectors()[alert_system.idx()].armed() == old(self).detectors()[alert_system.idx()].armed(),
            final(self).detectors()[alert_system.idx()].alerting() == old(self).detectors()[alert_system.idx()].alerting(),
            forall|i: int|
                0 <= i < ALERT_KINDS && i != alert_system.idx() ==> #[trigger] final(self).detectors()[i] == old(self).detectors()[i],
    {
        let i = alert_system.index();
        let mut d = self.detectors[i];
        d.inhibit();
        self.detectors.set(i, d);
    }

    /// Re-enables the detector of `alert_system`; the others are left alone.
    pub fn uninhibit(&mut self, alert_system: Alert)
        requires
            old(self).wf(),
        ensures
            final(self).wf(),
            final(self).config() == old(self).config(),
            !final(self).detectors()[alert_system.idx()].inhibited(),
            final(self).detectors()[alert_system.idx()].armed() == old(self).detectors()[alert_system.idx()].armed(),
            final(self).detectors()[alert_system.idx()].alerting() == old(self).detectors()[alert_system.idx()].alerting(),
            forall|i: int|
                0 <= i < ALERT_KINDS && i != alert_system.idx() ==> #[trigger] final(self).detectors()[i] == old(self).detectors()[i],
    {
        let i = alert_system.index();
        let mut d = self.detectors[i];
        d.uninhibit();
        self.detectors.set(i, d);
    }

    /// Runs every detector on `state` and arbitrates what they yield.
    pub fn process(&mut self, state: &AircraftState) -> (r: AlertState)
        requires
            old(self).wf(),
        ensures
            final(self).wf(),
            final(self).config() == old(self).config(),
            r.wf(),
            (r.active(), r.nuisance()) == arbitrate(
                cycle_candidates(
                    old(self).config().modes@,
                    old(self).detectors(),
                    *state,
                    ALERT_KINDS as int,
                ),
            ),
            forall|i: int|
                0 <= i < ALERT_KINDS ==> {
                    let c = candidates_for(
                        Alert::from_idx(i),
                        old(self).config().modes@[i],
                        *state,
                        old(self).detectors()[i].inhibited(),
                        old(self).detectors()[i].alerting(),
                    );
                    &&& (#[trigger] final(self).detectors()[i]).armed() == armed_for(
                        old(self).config().modes@[i],
                        *state,
                    )
                    &&& final(self).detectors()[i].inhibited() == old(self).detectors()[i].inhibited()
                    &&& final(self).detectors()[i].alerting() == (c.len() > 0)
                },
            forall|i: int|
                0 <= i < ALERT_KINDS && (!armed_for(old(self).config().modes@[i], *state) || old(self).detectors()[i].inhibited()) ==> (#[trigger] r.active()[i]).is_none()
                    && r.nuisance()[i].is_none(),
    {
        let ghost modes = self.config.modes@;
        let ghost dets = self.detectors@;
        let mut candidates: Vec<(Alert, AlertLevel)> = Vec::new();
        let mut i: usize = 0;
        while i < ALERT_KINDS
            invariant
                i <= ALERT_KINDS,
                self.config.modes@ == modes,
                self.config.valid(),
                self.detectors@.len() == ALERT_KINDS,
                dets.len() == ALERT_KINDS,
                self.config == old(self).config,
                dets == old(self).detectors@,
                candidates@ == cycle_candidates(modes, dets, *state, i as int),
                forall|j: int| i <= j < ALERT_KINDS ==> #[trigger] self.detectors@[j] == dets[j],
                forall|j: int|
                    0 <= j < i ==> {
                        let c = candidates_for(
                            Alert::from_idx(j),
                            modes[j],
                            *state,
                            dets[j].inhibited(),
                            dets[j].alerting(),
                        );
                        &&& (#[trigger] self.detectors@[j]).armed() == armed_for(
                            modes[j],
                            *state,
                        )
                        &&& self.detectors@[j].inhibited() == dets[j].inhibited()
                        &&& self.detectors@[j].alerting() == (c.len() > 0)
                    },
            decreases ALERT_KINDS - i,
        {
            let kind = Alert::from_index(i);
            let mut d = self.detectors[i];
            let mut found = d.process(kind, &self.config.modes[i], state);
            self.detectors.set(i, d);
            candidates.append(&mut found);
            i = i + 1;
        }
        let r = AlertState::from_candidates(&candidates);
        proof {
            assert forall|i: int|
                0 <= i < ALERT_KINDS && (!armed_for(modes[i], *state) || dets[i].inhibited())
                    implies (#[trigger] r.active()[i]).is_none() && r.nuisance()[i].is_none() by {
                let k = Alert::from_idx(i);
                assert(k.idx() == i);
                lemma_gated_kind_absent(modes, dets, *state, k);
            }
        }
        r
    }
}

proof fn lemma_cycle_kinds(
    modes: Seq<ModeConfig>,
    dets: Seq<Detector>,
    s: AircraftState,
    n: int,
    k: Alert,
    l: AlertLevel,
)
    requires
        0 <= n <= ALERT_KINDS,
    ensures
        cycle_candidates(modes, dets, s, n).contains((k, l)) ==> (k.idx() < n && candidates_for(
            k,
            modes[k.idx()],
            s,
            dets[k.idx()].inhibited(),
            dets[k.idx()].alerting(),
        ).contains((k, l))),
        (0 <= k.idx() < n && candidates_for(
            k,
            modes[k.idx()],
            s,
            dets[k.idx()].inhibited(),
            dets[k.idx()].alerting(),
        ).contains((k, l))) ==> cycle_candidates(modes, dets, s, n).contains((k, l)),
    decreases n,
{
    if n > 0 {
        lemma_cycle_kinds(modes, dets, s, n - 1, k, l);
        let prev = cycle_candidates(modes, dets, s, n - 1);
        let k2 = Alert::from_idx(n - 1);
        let here = candidates_for(
            k2,
            modes[n - 1],
            s,
            dets[n - 1].inhibited(),
            dets[n - 1].alerting(),
        );
        let all = cycle_candidates(modes, dets, s, n);
        assert(all == prev + here);
        if all.contains((k, l)) {
            let i = choose|i: int| 0 <= i < all.len() && all[i] == (k, l);
            if i < prev.len() {
                assert(prev[i] == (k, l));
            } else {
                assert(here[i - prev.len()] == (k, l));
                assert(here.contains((k, l)));
                assert(k == k2);
            }
        }
        let cur = candidates_for(
            k,
            modes[k.idx()],
            s,
            dets[k.idx()].inhibited(),
            dets[k.idx()].alerting(),
        );
        if 0 <= k.idx() < n && cur.contains((k, l)) {
            if k.idx() < n - 1 {
                let i = choose|i: int| 0 <= i < prev.len() && prev[i] == (k, l);
                assert(all[i] == (k, l));
            } else {
                assert(k == k2);
                let i = choose|i: int| 0 <= i < here.len() && here[i] == (k, l);
                assert(all[prev.len() + i] == (k, l));
            }
        }
    }
}

/// The shown level of kind `k` after a cycle is the most severe level its own
/// detector yielded.
proof fn lemma_cycle_shows(
    modes: Seq<ModeConfig>,
    dets: Seq<Detector>,
    s: AircraftState,
    k: Alert,
)
    ensures
        arbitrate(cycle_candidates(modes, dets, s, ALERT_KINDS as int)).0[k.idx()]
            == most_severe_seen(
            candidates_for(
                k,
                modes[k.idx()],
                s,
                dets[k.idx()].inhibited(),
                dets[k.idx()].alerting(),
            ),
            k,
        ),
{
    let c = cycle_candidates(modes, dets, s, ALERT_KINDS as int);
    lemma_arbitration_severity(c, k);
    lemma_cycle_kinds(modes, dets, s, ALERT_KINDS as int, k, AlertLevel::Warning);
    lemma_cycle_kinds(modes, dets, s, ALERT_KINDS as int, k, AlertLevel::Caution);
}

/// A detector that is disarmed for the sample, or inhibited, puts its kind in
/// neither table of the cycle, whatever else the sample holds.
pub proof fn lemma_gated_kind_absent(
    modes: Seq<ModeConfig>,
    dets: Seq<Detector>,
    s: AircraftState,
    k: Alert,
)
    requires
        !armed_for(modes[k.idx()], s) || dets[k.idx()].inhibited(),
    ensures
        arbitrate(cycle_candidates(modes, dets, s, ALERT_KINDS as int)).0[k.idx()].is_none(),
        arbitrate(cycle_candidates(modes, dets, s, ALERT_KINDS as int)).1[k.idx()].is_none(),
{
    let c = cycle_candidates(modes, dets, s, ALERT_KINDS as int);
    lemma_cycle_shows(modes, dets, s, k);
    lemma_arbitration_severity(c, k);
    let own = candidates_for(
        k,
        modes[k.idx()],
        s,
        dets[k.idx()].inhibited(),
        dets[k.idx()].alerting(),
    );
    assert(own.len() == 0);
    assert(!own.contains((k, AlertLevel::Warning)));
    assert(!own.contains((k, AlertLevel::Caution)));
}

/// A height band that neither region of kind `k` reaches yields no alert of
/// that kind, at any sink rate and whatever the detector's history.
pub proof fn lemma_safe_band_quiet(
    modes: Seq<ModeConfig>,
    dets: Seq<Detector>,
    s: AircraftState,
    k: Alert,
    a: int,
    b: int,
)
    requires
        clear_between(modes[k.idx()].caution@, a, b),
        clear_between(modes[k.idx()].warning@, a, b),
        a <= s.altitude_ground <= b,
    ensures
        arbitrate(cycle_candidates(modes, dets, s, ALERT_KINDS as int)).0[k.idx()].is_none(),
        arbitrate(cycle_candidates(modes, dets, s, ALERT_KINDS as int)).1[k.idx()].is_none(),
{
    let cfg = modes[k.idx()];
    let c = cycle_candidates(modes, dets, s, ALERT_KINDS as int);
    lemma_cycle_shows(modes, dets, s, k);
    lemma_arbitration_severity(c, k);
    lemma_clear_band_quiet(
        cfg.caution@,
        a,
        b,
        s.altitude_ground as int,
        sink(s) + if dets[k.idx()].alerting() {
            cfg.margin_fpm as int
        } else {
            0
        },
    );
    lemma_clear_band_quiet(cfg.warning@, a, b, s.altitude_ground as int, sink(s));
    let own = candidates_for(k, cfg, s, dets[k.idx()].inhibited(), dets[k.idx()].alerting());
    assert(own.len() == 0);
    assert(!own.contains((k, AlertLevel::Warning)));
    assert(!own.contains((k, AlertLevel::Caution)));
}

/// A sample inside the caution region of an armed, uninhibited detector shows
/// an alert of its kind in that same cycle.
pub proof fn lemma_onset_shown(
    modes: Seq<ModeConfig>,
    dets: Seq<Detector>,
    s: AircraftState,
    k: Alert,
)
    requires
        modes[k.idx()].valid(),
        armed_for(modes[k.idx()], s),
        !dets[k.idx()].inhibited(),
        in_envelope(modes[k.idx()].caution@, s.altitude_ground as int, sink(s)),
    ensures
        arbitrate(cycle_candidates(modes, dets, s, ALERT_KINDS as int)).0[k.idx()].is_some(),
{
    lemma_cycle_shows(modes, dets, s, k);
    lemma_onset_alerts(k, modes[k.idx()], s, dets[k.idx()].alerting());
}

/// A sample at the upper edge `hi_ft` of caution band `j` (the height just
/// below a safe band that starts above it), sinking at least at that band's
/// limit there, shows an alert of kind `k` in that same cycle.
pub proof fn lemma_band_edge_alerts(
    modes: Seq<ModeConfig>,
    dets: Seq<Detector>,
    s: AircraftState,
    k: Alert,
    j: int,
)
    requires
        modes[k.idx()].valid(),
        armed_for(modes[k.idx()], s),
        !dets[k.idx()].inhibited(),
        0 <= j < modes[k.idx()].caution@.len(),
        s.altitude_ground == modes[k.idx()].caution@[j].hi_ft,
        sink(s) >= modes[k.idx()].caution@[j].rate_hi_fpm,
    ensures
        arbitrate(cycle_candidates(modes, dets, s, ALERT_KINDS as int)).0[k.idx()].is_some(),
{
    let band = modes[k.idx()].caution@[j];
    assert(band.wf());
    let w = band.hi_ft - band.lo_ft;
    let d = sink(s);
    assert((d - band.rate_lo_fpm) * w >= (band.rate_hi_fpm - band.rate_lo_fpm) * w)
        by (nonlinear_arith)
        requires
            w > 0,
            d >= band.rate_hi_fpm,
    ;
    assert(modes[k.idx()].caution@[j].holds(s.altitude_ground as int, d));
    lemma_onset_shown(modes, dets, s, k);
}

} // verus!
