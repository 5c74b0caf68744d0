use vstd::prelude::*;

verus! {

/// Number of hazard kinds the system tracks.
pub const ALERT_KINDS: usize = 8;

/// Available alerts from the TAWS, one per hazard detector.
#[derive(Clone, Copy, Debug, PartialEq, Eq, Structural, Hash)]
pub enum Alert {
    /// Forward Looking Terrain Avoidance
    FLTA,
    /// Five Hundred foot altitude Callout
    FFAC,
    /// Premature Descent Alerting
    PDA,
    /// Excessive Rate of Descent
    Mode1,
    /// Excessive Closure Rate to Terrain
    Mode2,
    /// Negative Climb Rate or Altitude Loss after Take-off or Go Around
    Mode3,
    /// Flight Near Terrain when Not in Landing Configuration
    Mode4,
    /// Excessive Downward Deviation from an ILS Glideslope or LPV/GLS Glidepath
    Mode5,
}

/// Importance level of an alert; `Warning` is strictly more severe than `Caution`.
#[derive(Clone, Copy, Debug, PartialEq, Eq, Structural, Hash)]
pub enum AlertLevel {
    /// Conditions that require immediate crew awareness and immediate crew response.
    Warning,
    /// Conditions that require immediate crew awareness and a less urgent response.
    Caution,
}

impl Alert {
    /// Position of the kind in a per-kind table.
    pub open spec fn idx(self) -> int {
        match self {
            Alert::FLTA => 0,
            Alert::FFAC => 1,
            Alert::PDA => 2,
            Alert::Mode1 => 3,
            Alert::Mode2 => 4,
            Alert::Mode3 => 5,
            Alert::Mode4 => 6,
            Alert::Mode5 => 7,
        }
    }

    /// The kind stored at position `i` of a per-kind table.
    pub open spec fn from_idx(i: int) -> Alert {
        if i == 0 {
            Alert::FLTA
        } else if i == 1 {
            Alert::FFAC
        } else if i == 2 {
            Alert::PDA
        } else if i == 3 {
            Alert::Mode1
        } else if i == 4 {
            Alert::Mode2
        } else if i == 5 {
            Alert::Mode3
        } else if i == 6 {
            Alert::Mode4
        } else {
            Alert::Mode5
        }
    }

    /// Position of the kind in a per-kind table.
    pub fn index(self) -> (r: usize)
        ensures
            r as int == self.idx(),
            r < ALERT_KINDS,
    {
        match self {
            Alert::FLTA => 0,
            Alert::FFAC => 1,
            Alert::PDA => 2,
            Alert::Mode1 => 3,
            Alert::Mode2 => 4,
            Alert::Mode3 => 5,
            Alert::Mode4 => 6,
            Alert::Mode5 => 7,
        }
    }

    /// The kind stored at position `i` of a per-kind table.
    pub fn from_index(i: usize) -> (r: Alert)
        requires
            i < ALERT_KINDS,
        ensures
            r == Alert::from_idx(i as int),
            r.idx() == i as int,
    {
        if i == 0 {
            Alert::FLTA
        } else if i == 1 {
            Alert::FFAC
        } else if i == 2 {
            Alert::PDA
        } else if i == 3 {
            Alert::Mode1
        } else if i == 4 {
            Alert::Mode2
        } else if i == 5 {
            Alert::Mode3
        } else if i == 6 {
            Alert::Mode4
        } else {
            Alert::Mode5
        }
    }
}

/// `a` is strictly more severe than `b`.
pub open spec fn more_severe(a: AlertLevel, b: AlertLevel) -> bool {
    a == AlertLevel::Warning && b == AlertLevel::Caution
}

/// A per-kind table with no entry.
pub open spec fn empty_table() -> Seq<Option<AlertLevel>> {
    Seq::new(ALERT_KINDS as nat, |i: int| None)
}

/// One arbitration step: the tables after candidate `(k, l)` has arrived.
pub open spec fn insert_spec(
    active: Seq<Option<AlertLevel>>,
    nuisance: Seq<Option<AlertLevel>>,
    k: Alert,
    l: AlertLevel,
) -> (Seq<Option<AlertLevel>>, Seq<Option<AlertLevel>>) {
    match active[k.idx()] {
        Some(o) => if more_severe(l, o) {
            (active.update(k.idx(), Some(l)), nuisance.update(k.idx(), Some(o)))
        } else {
            (active, nuisance)
        },
        None => (active.update(k.idx(), Some(l)), nuisance),
    }
}

/// The tables that the candidates `c`, folded in arrival order, produce.
pub open spec fn arbitrate(c: Seq<(Alert, AlertLevel)>) -> (
    Seq<Option<AlertLevel>>,
    Seq<Option<AlertLevel>>,
)
    decreases c.len(),
{
    if c.len() == 0 {
        (empty_table(), empty_table())
    } else {
        let prev = arbitrate(c.drop_last());
        insert_spec(prev.0, prev.1, c.last().0, c.last().1)
    }
}

/// The most severe level among the candidates of kind `k`, if there is any.
pub open spec fn most_severe_seen(c: Seq<(Alert, AlertLevel)>, k: Alert) -> Option<AlertLevel> {
    if c.contains((k, AlertLevel::Warning)) {
        Some(AlertLevel::Warning)
    } else if c.contains((k, AlertLevel::Caution)) {
        Some(AlertLevel::Caution)
    } else {
        None
    }
}

/// Some caution for `k` arrived strictly before some warning for `k`.
pub open spec fn upgraded(c: Seq<(Alert, AlertLevel)>, k: Alert) -> bool {
    exists|i: int, j: int|
        0 <= i < j < c.len() && c[i] == (k, AlertLevel::Caution) && c[j] == (
            k,
            AlertLevel::Warning,
        )
}

/// Number of entries of `t` that are present.
pub open spec fn count_present(t: Seq<Option<AlertLevel>>) -> nat
    decreases t.len(),
{
    if t.len() == 0 {
        0
    } else {
        count_present(t.drop_last()) + if t.last().is_some() {
            1nat
        } else {
            0nat
        }
    }
}

/// Number of entries of `t` that are present at level `l`.
pub open spec fn count_level(t: Seq<Option<AlertLevel>>, l: AlertLevel) -> nat
    decreases t.len(),
{
    if t.len() == 0 {
        0
    } else {
        count_level(t.drop_last(), l) + if t.last() == Some(l) {
            1nat
        } else {
            0nat
        }
    }
}

/// Collection of all alerts which are currently present in the TAWS.
///
/// Both tables hold one entry per hazard kind, at the position `Alert::idx`.
pub struct AlertState {
    /// Alerts which are to be displayed to the crew
    alerts: Vec<Option<AlertLevel>>,
    /// Alerts which are not to be disclosed to the crew to avoid nuisance
    nuisance_alerts: Vec<Option<AlertLevel>>,
}

impl AlertState {
    /// Crew-visible alerts, by kind position.
    pub closed spec fn active(&self) -> Seq<Option<AlertLevel>> {
        self.alerts@
    }

    /// Superseded alerts kept for audit, by kind position.
    pub closed spec fn nuisance(&self) -> Seq<Option<AlertLevel>> {
        self.nuisance_alerts@
    }

    pub open spec fn wf(&self) -> bool {
        &&& self.active().len() == ALERT_KINDS
        &&& self.nuisance().len() == ALERT_KINDS
    }

    /// An alert state with no alert at all.
    pub fn new() -> (r: AlertState)
        ensures
            r.wf(),
            r.active() == empty_table(),
            r.nuisance() == empty_table(),
    {
        let mut alerts: Vec<Option<AlertLevel>> = Vec::new();
        let mut nuisance_alerts: Vec<Option<AlertLevel>> = Vec::new();
        let mut i: usize = 0;
        while i < ALERT_KINDS
            invariant
                i <= ALERT_KINDS,
                alerts@ == Seq::new(i as nat, |j: int| None::<AlertLevel>),
                nuisance_alerts@ == Seq::new(i as nat, |j: int| None::<AlertLevel>),
            decreases ALERT_KINDS - i,
        {
            alerts.push(None);
            nuisance_alerts.push(None);
            i = i + 1;
            assert(alerts@ =~= Seq::new(i as nat, |j: int| None::<AlertLevel>));
            assert(nuisance_alerts@ =~= Seq::new(i as nat, |j: int| None::<AlertLevel>));
        }
        AlertState { alerts, nuisance_alerts }
    }

    /// Number of entries in both tables together.
    pub fn alerts_total_count(&self) -> (r: usize)
        requires
            self.wf(),
        ensures
            r == count_present(self.active()) + count_present(self.nuisance()),
    {
        let a = count_entries(&self.alerts);
        let n = count_entries(&self.nuisance_alerts);
        a + n
    }

    /// Number of crew-visible alerts at `level`.
    pub fn alerts_count(&self, level: AlertLevel) -> (r: usize)
        requires
            self.wf(),
        ensures
            r == count_level(self.active(), level),
    {
        let mut r: usize = 0;
        let mut i: usize = 0;
        while i < self.alerts.len()
            invariant
                self.wf(),
                i <= self.alerts@.len(),
                r == count_level(self.alerts@.subrange(0, i as int), level),
                r <= i,
            decreases self.alerts@.len() - i,
        {
            let ghost t = self.alerts@.subrange(0, i as int + 1);
            assert(t.drop_last() =~= self.alerts@.subrange(0, i as int));
            if self.alerts[i] == Some(level) {
                r = r + 1;
            }
            i = i + 1;
        }
        assert(self.alerts@.subrange(0, i as int) =~= self.alerts@);
        r
    }

    /// The level at which `alert_system` is shown to the crew, if it is.
    pub fn mode_alert_level(&self, alert_system: Alert) -> (r: Option<AlertLevel>)
        requires
            self.wf(),
        ensures
            r == self.active()[alert_system.idx()],
    {
        self.alerts[alert_system.index()]
    }

    /// The superseded level retained for `alert_system`, if any.
    pub fn nuisance_alert_level(&self, alert_system: Alert) -> (r: Option<AlertLevel>)
        requires
            self.wf(),
        ensures
            r == self.nuisance()[alert_system.idx()],
    {
        self.nuisance_alerts[alert_system.index()]
    }

    /// Adds one candidate: a new kind is shown; a more severe level displaces
    /// the shown one into the nuisance table; an equal or lesser one is dropped.
    pub fn insert(&mut self, alert: Alert, alert_level: AlertLevel)
        requires
            old(self).wf(),
        ensures
            final(self).wf(),
            (final(self).active(), final(self).nuisance()) == insert_spec(
                old(self).active(),
                old(self).nuisance(),
                alert,
                alert_level,
            ),
    {
        let i = alert.index();
        match self.alerts[i] {
            Some(old_level) => {
                if alert_level == AlertLevel::Warning && old_level == AlertLevel::Caution {
                    self.nuisance_alerts.set(i, Some(old_level));
                    self.alerts.set(i, Some(alert_level));
                }
            },
            None => {
                self.alerts.set(i, Some(alert_level));
            },
        }
    }

    /// Arbitrates the candidates of one cycle, in arrival order.
    pub fn from_candidates(candidates: &Vec<(Alert, AlertLevel)>) -> (r: AlertState)
        ensures
            r.wf(),
            (r.active(), r.nuisance()) == arbitrate(candidates@),
    {
        let mut r = AlertState::new();
        let mut i: usize = 0;
        while i < candidates.len()
            invariant
                i <= candidates@.len(),
                r.wf(),
                (r.active(), r.nuisance()) == arbitrate(candidates@.subrange(0, i as int)),
            decreases candidates@.len() - i,
        {
            let (k, l) = candidates[i];
            let ghost c = candidates@.subrange(0, i as int + 1);
            assert(c.drop_last() =~= candidates@.subrange(0, i as int));
            r.insert(k, l);
            i = i + 1;
        }
        assert(candidates@.subrange(0, i as int) =~= candidates@);
        r
    }
}

impl Default for AlertState {
    fn default() -> (r: AlertState)
        ensures
            r.wf(),
            r.active() == empty_table(),
            r.nuisance() == empty_table(),
    {
        AlertState::new()
    }
}

fn count_entries(t: &Vec<Option<AlertLevel>>) -> (r: usize)
    requires
        t@.len() == ALERT_KINDS,
    ensures
        r == count_present(t@),
        r <= ALERT_KINDS,
{
    let mut r: usize = 0;
    let mut i: usize = 0;
    while i < t.len()
        invariant
            i <= t@.len(),
            t@.len() == ALERT_KINDS,
            r == count_present(t@.subrange(0, i as int)),
            r <= i,
        decreases t@.len() - i,
    {
        let ghost s = t@.subrange(0, i as int + 1);
        assert(s.drop_last() =~= t@.subrange(0, i as int));
        if t[i].is_some() {
            r = r + 1;
        }
        i = i + 1;
    }
    assert(t@.subrange(0, i as int) =~= t@);
    r
}

proof fn lemma_contains_push(c: Seq<(Alert, AlertLevel)>, x: (Alert, AlertLevel))
    requires
        c.len() > 0,
    ensures
        c.contains(x) == (c.drop_last().contains(x) || c.last() == x),
{
    if c.contains(x) {
        let i = choose|i: int| 0 <= i < c.len() && c[i] == x;
        if i < c.len() - 1 {
            assert(c.drop_last()[i] == x);
        }
    }
    if c.drop_last().contains(x) {
        let i = choose|i: int| 0 <= i < c.drop_last().len() && c.drop_last()[i] == x;
        assert(c[i] == x);
    }
    if c.last() == x {
        assert(c[c.len() - 1] == x);
    }
}

/// Every cycle's tables hold one entry per kind; the shown entry of a kind is
/// the most severe candidate of that kind, and a retained nuisance entry is a
/// caution displaced by a warning of the same kind that arrived after it.
pub proof fn lemma_arbitration_severity(c: Seq<(Alert, AlertLevel)>, k: Alert)
    ensures
        arbitrate(c).0.len() == ALERT_KINDS,
        arbitrate(c).1.len() == ALERT_KINDS,
        arbitrate(c).0[k.idx()] == most_severe_seen(c, k),
        arbitrate(c).1[k.idx()].is_some() ==> {
            &&& arbitrate(c).1[k.idx()] == Some(AlertLevel::Caution)
            &&& arbitrate(c).0[k.idx()] == Some(AlertLevel::Warning)
            &&& upgraded(c, k)
        },
    decreases c.len(),
{
    if c.len() == 0 {
        assert(!c.contains((k, AlertLevel::Warning)));
        assert(!c.contains((k, AlertLevel::Caution)));
    } else {
        let p = c.drop_last();
        lemma_arbitration_severity(p, k);
        lemma_arbitration_severity(p, c.last().0);
        lemma_contains_push(c, (k, AlertLevel::Warning));
        lemma_contains_push(c, (k, AlertLevel::Caution));
        if upgraded(p, k) {
            let (i, j) = choose|i: int, j: int|
                0 <= i < j < p.len() && p[i] == (k, AlertLevel::Caution) && p[j] == (
                    k,
                    AlertLevel::Warning,
                );
            assert(c[i] == p[i] && c[j] == p[j]);
        }
        if arbitrate(c).1[k.idx()].is_some() && !arbitrate(p).1[k.idx()].is_some() {
            assert(p.contains((k, AlertLevel::Caution)));
            let i = choose|i: int| 0 <= i < p.len() && p[i] == (k, AlertLevel::Caution);
            assert(c[i] == p[i]);
            assert(c[c.len() - 1] == (k, AlertLevel::Warning));
        }
    }
}

/// A kind never stands in both tables unless a caution for it was upgraded
/// by a later warning in the same cycle.
pub proof fn lemma_arbitration_exclusive(c: Seq<(Alert, AlertLevel)>, k: Alert)
    requires
        !upgraded(c, k),
    ensures
        !(arbitrate(c).0[k.idx()].is_some() && arbitrate(c).1[k.idx()].is_some()),
{
    lemma_arbitration_severity(c, k);
}

/// No nuisance entry ever carries the same level as the shown entry of its kind.
pub proof fn lemma_nuisance_never_equal(c: Seq<(Alert, AlertLevel)>, k: Alert)
    ensures
        arbitrate(c).1[k.idx()].is_some() ==> arbitrate(c).1[k.idx()] != arbitrate(c).0[k.idx()],
{
    lemma_arbitration_severity(c, k);
}

/// The shown alerts depend only on which candidates arrived, not on their order.
pub proof fn lemma_active_order_independent(
    c1: Seq<(Alert, AlertLevel)>,
    c2: Seq<(Alert, AlertLevel)>,
)
    requires
        forall|x: (Alert, AlertLevel)| c1.contains(x) <==> c2.contains(x),
    ensures
        arbitrate(c1).0 == arbitrate(c2).0,
{
    assert forall|i: int| 0 <= i < ALERT_KINDS implies arbitrate(c1).0[i] == arbitrate(c2).0[i] by {
        let k = Alert::from_idx(i);
        assert(k.idx() == i);
        lemma_arbitration_severity(c1, k);
        lemma_arbitration_severity(c2, k);
        assert(c1.contains((k, AlertLevel::Warning)) == c2.contains((k, AlertLevel::Warning)));
        assert(c1.contains((k, AlertLevel::Caution)) == c2.contains((k, AlertLevel::Caution)));
    }
    lemma_arbitration_severity(c1, Alert::FLTA);
    lemma_arbitration_severity(c2, Alert::FLTA);
    assert(arbitrate(c1).0 =~= arbitrate(c2).0);
}

/// A caution then a warning of one kind show the warning and retain the
/// caution; the reverse order shows the same warning.
pub proof fn lemma_upgrade(k: Alert)
    ensures
        arbitrate(seq![(k, AlertLevel::Caution), (k, AlertLevel::Warning)]).0[k.idx()] == Some(
            AlertLevel::Warning,
        ),
        arbitrate(seq![(k, AlertLevel::Caution), (k, AlertLevel::Warning)]).1[k.idx()] == Some(
            AlertLevel::Caution,
        ),
        arbitrate(seq![(k, AlertLevel::Warning), (k, AlertLevel::Caution)]).0[k.idx()] == Some(
            AlertLevel::Warning,
        ),
        arbitrate(seq![(k, AlertLevel::Caution), (k, AlertLevel::Warning)]).0 == arbitrate(
            seq![(k, AlertLevel::Warning), (k, AlertLevel::Caution)],
        ).0,
{
    let cw = seq![(k, AlertLevel::Caution), (k, AlertLevel::Warning)];
    let wc = seq![(k, AlertLevel::Warning), (k, AlertLevel::Caution)];
    assert(cw.drop_last().drop_last().len() == 0);
    assert(wc.drop_last().drop_last().len() == 0);
    assert(cw.drop_last().last() == (k, AlertLevel::Caution));
    assert(cw.last() == (k, AlertLevel::Warning));
    let e = arbitrate(cw.drop_last().drop_last());
    assert(e == (empty_table(), empty_table()));
    assert(e.0[k.idx()].is_none());
    let one = arbitrate(cw.drop_last());
    assert(one == insert_spec(e.0, e.1, k, AlertLevel::Caution));
    assert(one.0[k.idx()] == Some(AlertLevel::Caution));
    assert(arbitrate(cw) == insert_spec(one.0, one.1, k, AlertLevel::Warning));
    assert(cw[0] == (k, AlertLevel::Caution) && cw[1] == (k, AlertLevel::Warning));
    assert(wc[0] == (k, AlertLevel::Warning) && wc[1] == (k, AlertLevel::Caution));
    assert forall|x: (Alert, AlertLevel)| cw.contains(x) <==> wc.contains(x) by {
        if cw.contains(x) {
            let i = choose|i: int| 0 <= i < cw.len() && cw[i] == x;
            assert(wc[1 - i] == x);
        }
        if wc.contains(x) {
            let i = choose|i: int| 0 <= i < wc.len() && wc[i] == x;
            assert(cw[1 - i] == x);
        }
    }
    lemma_active_order_independent(cw, wc);
}

} // verus!
