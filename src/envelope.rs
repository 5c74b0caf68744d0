use vstd::prelude::*;

verus! {

/// Largest magnitude of any configured envelope value (feet or feet per minute).
pub const ENVELOPE_LIMIT: i64 = 1_000_000_000;

/// Largest magnitude of a sink rate handed to an envelope test.
pub open spec fn sink_limit() -> int {
    0x4000_0000_0000_0000_0000
}

/// One piece of an envelope: over the closed height interval `[lo_ft, hi_ft]`
/// the boundary is the straight line from `rate_lo_fpm` (at `lo_ft`) to
/// `rate_hi_fpm` (at `hi_ft`); a sample sinking at least that fast is inside.
#[derive(Clone, Copy, Debug, PartialEq, Eq, Structural)]
pub struct Band {
    pub lo_ft: i64,
    pub hi_ft: i64,
    pub rate_lo_fpm: i64,
    pub rate_hi_fpm: i64,
}

impl Band {
    pub open spec fn wf(self) -> bool {
        &&& -ENVELOPE_LIMIT <= self.lo_ft < self.hi_ft <= ENVELOPE_LIMIT
        &&& -ENVELOPE_LIMIT <= self.rate_lo_fpm <= ENVELOPE_LIMIT
        &&& -ENVELOPE_LIMIT <= self.rate_hi_fpm <= ENVELOPE_LIMIT
    }

    /// The point (height `h`, sink rate `d`) lies on or above the band's line.
    pub open spec fn holds(self, h: int, d: int) -> bool {
        &&& self.lo_ft <= h <= self.hi_ft
        &&& (d - self.rate_lo_fpm) * (self.hi_ft - self.lo_ft) >= (self.rate_hi_fpm
            - self.rate_lo_fpm) * (h - self.lo_ft)
    }

    pub fn is_valid(&self) -> (r: bool)
        ensures
            r == self.wf(),
    {
        -ENVELOPE_LIMIT <= self.lo_ft && self.lo_ft < self.hi_ft && self.hi_ft <= ENVELOPE_LIMIT
            && -ENVELOPE_LIMIT <= self.rate_lo_fpm && self.rate_lo_fpm <= ENVELOPE_LIMIT
            && -ENVELOPE_LIMIT <= self.rate_hi_fpm && self.rate_hi_fpm <= ENVELOPE_LIMIT
    }

    /// Tests the point (height `h`, sink rate `d`) against the band, boundary included.
    pub fn contains(&self, h: i64, d: i128) -> (r: bool)
        requires
            self.wf(),
            -sink_limit() <= d <= sink_limit(),
        ensures
            r == self.holds(h as int, d as int),
    {
        if h < self.lo_ft || h > self.hi_ft {
            return false;
        }
        let w = (self.hi_ft as i128) - (self.lo_ft as i128);
        let dh = (h as i128) - (self.lo_ft as i128);
        let dd = d - (self.rate_lo_fpm as i128);
        let dr = (self.rate_hi_fpm as i128) - (self.rate_lo_fpm as i128);
        assert(0 < w <= 2 * ENVELOPE_LIMIT);
        assert(-sink_limit() - ENVELOPE_LIMIT <= dd <= sink_limit() + ENVELOPE_LIMIT);
        assert(-0x8000_0000_0000_0000_0000 * 0x1_0000_0000 <= dd * w
            <= 0x8000_0000_0000_0000_0000 * 0x1_0000_0000) by (nonlinear_arith)
            requires
                0 < w <= 2 * ENVELOPE_LIMIT,
                -0x8000_0000_0000_0000_0000 <= dd <= 0x8000_0000_0000_0000_0000,
        ;
        assert(-0x1_0000_0000 * 0x1_0000_0000 <= dr * dh <= 0x1_0000_0000 * 0x1_0000_0000)
            by (nonlinear_arith)
            requires
                0 <= dh <= 2 * ENVELOPE_LIMIT,
                -2 * ENVELOPE_LIMIT <= dr <= 2 * ENVELOPE_LIMIT,
        ;
        dd * w >= dr * dh
    }
}

/// Some band of `bands` holds the point (height `h`, sink rate `d`).
pub open spec fn in_envelope(bands: Seq<Band>, h: int, d: int) -> bool {
    exists|i: int| 0 <= i < bands.len() && #[trigger] bands[i].holds(h, d)
}

pub open spec fn bands_wf(bands: Seq<Band>) -> bool {
    forall|i: int| 0 <= i < bands.len() ==> #[trigger] bands[i].wf()
}

/// No band of `bands` reaches into the closed height interval `[a, b]`.
pub open spec fn clear_between(bands: Seq<Band>, a: int, b: int) -> bool {
    forall|i: int| 0 <= i < bands.len() ==> #[trigger] bands[i].hi_ft < a || bands[i].lo_ft > b
}

pub fn envelope_valid(bands: &Vec<Band>) -> (r: bool)
    ensures
        r == bands_wf(bands@),
{
    let mut i: usize = 0;
    while i < bands.len()
        invariant
            i <= bands@.len(),
            forall|j: int| 0 <= j < i ==> #[trigger] bands@[j].wf(),
        decreases bands@.len() - i,
    {
        if !bands[i].is_valid() {
            return false;
        }
        i = i + 1;
    }
    true
}

/// Tests the point (height `h`, sink rate `d`) against every band of `bands`.
pub fn envelope_contains(bands: &Vec<Band>, h: i64, d: i128) -> (r: bool)
    requires
        bands_wf(bands@),
        -sink_limit() <= d <= sink_limit(),
    ensures
        r == in_envelope(bands@, h as int, d as int),
{
    let mut i: usize = 0;
    while i < bands.len()
        invariant
            i <= bands@.len(),
            bands_wf(bands@),
            -sink_limit() <= d <= sink_limit(),
            forall|j: int| 0 <= j < i ==> !(#[trigger] bands@[j].holds(h as int, d as int)),
        decreases bands@.len() - i,
    {
        if bands[i].contains(h, d) {
            return true;
        }
        i = i + 1;
    }
    false
}

/// A height interval that no band reaches is quiet at every sink rate.
pub proof fn lemma_clear_band_quiet(bands: Seq<Band>, a: int, b: int, h: int, d: int)
    requires
        clear_between(bands, a, b),
        a <= h <= b,
    ensures
        !in_envelope(bands, h, d),
{
    assert forall|i: int| 0 <= i < bands.len() implies !(#[trigger] bands[i].holds(h, d)) by {
        assert(bands[i].hi_ft < a || bands[i].lo_ft > b);
    }
}

/// Sinking faster never leaves an envelope.
pub proof fn lemma_envelope_monotone(bands: Seq<Band>, h: int, d: int, e: int)
    requires
        bands_wf(bands),
        in_envelope(bands, h, d),
        d <= e,
    ensures
        in_envelope(bands, h, e),
{
    let i = choose|i: int| 0 <= i < bands.len() && #[trigger] bands[i].holds(h, d);
    let b = bands[i];
    assert(b.wf());
    let w = b.hi_ft - b.lo_ft;
    assert((e - b.rate_lo_fpm) * w >= (d - b.rate_lo_fpm) * w) by (nonlinear_arith)
        requires
            w > 0,
            d <= e,
    ;
    assert(bands[i].holds(h, e));
}

} // verus!
