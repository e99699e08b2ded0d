//! Per-channel 8-bit histograms of an image.

use vstd::prelude::*;

verus! {

/// Number of bins of each channel: one per 8-bit value.
pub const HISTOGRAM_BINS: usize = 256;

/// Counts of the 8-bit values of the red, green, blue and luminance channels.
pub struct Histogram {
    pub red: Vec<u32>,
    pub green: Vec<u32>,
    pub blue: Vec<u32>,
    pub luminance: Vec<u32>,
}

/// How many of the first `n` entries of `s` equal `v`.
pub open spec fn occurrences(s: Seq<u8>, n: nat, v: int) -> nat
    decreases n,
{
    if n == 0 {
        0
    } else {
        occurrences(s, (n - 1) as nat, v) + (if s[n - 1] as int == v { 1nat } else { 0nat })
    }
}

/// Channel `c` (0 red, 1 green, 2 blue) of interleaved RGB bytes, one entry per pixel.
pub open spec fn channel(rgb: Seq<u8>, c: int) -> Seq<u8> {
    Seq::new(rgb.len() / 3, |i: int| rgb[3 * i + c])
}

/// The sum of the first `n` bins.
pub open spec fn bins_sum(bins: Seq<u32>, n: nat) -> nat
    decreases n,
{
    if n == 0 {
        0
    } else {
        bins_sum(bins, (n - 1) as nat) + bins[n - 1] as nat
    }
}

/// Every bin of `bins` counts the occurrences of its value among the first `n` entries of `s`.
pub open spec fn counts_of(bins: Seq<u32>, s: Seq<u8>, n: nat) -> bool {
    &&& bins.len() == HISTOGRAM_BINS
    &&& forall|v: int| 0 <= v < HISTOGRAM_BINS ==> #[trigger] bins[v] as nat == occurrences(s, n, v)
}

/// `after` is `before` with its first `k` bins set to zero.
pub open spec fn partly_cleared(before: Seq<u32>, after: Seq<u32>, k: int) -> bool {
    &&& after.len() == before.len()
    &&& forall|v: int| 0 <= v < k ==> #[trigger] after[v] == 0
    &&& forall|v: int| k <= v < after.len() ==> #[trigger] after[v] == before[v]
}

/// `after` is `before` with its first 256 bins set to zero.
pub open spec fn cleared_bins(before: Seq<u32>, after: Seq<u32>) -> bool {
    partly_cleared(before, after, HISTOGRAM_BINS as int)
}

/// Every bin of `bins` is zero.
pub open spec fn all_zero(bins: Seq<u32>) -> bool {
    forall|v: int| 0 <= v < bins.len() ==> #[trigger] bins[v] == 0
}

/// The sum over the values `v < m` of the occurrences of `v` among the first `n` entries of `s`.
pub open spec fn occurrences_sum(s: Seq<u8>, n: nat, m: nat) -> nat
    decreases m,
{
    if m == 0 {
        0
    } else {
        occurrences_sum(s, n, (m - 1) as nat) + occurrences(s, n, m - 1)
    }
}

proof fn lemma_occurrences_sum_step(s: Seq<u8>, n: nat, m: nat)
    requires
        n < s.len(),
    ensures
        occurrences_sum(s, n + 1, m) == occurrences_sum(s, n, m) + (if (s[n as int] as int) < m {
            1nat
        } else {
            0nat
        }),
    decreases m,
{
    if m > 0 {
        lemma_occurrences_sum_step(s, n, (m - 1) as nat);
    }
}

proof fn lemma_occurrences_sum_total(s: Seq<u8>, n: nat)
    requires
        n <= s.len(),
    ensures
        occurrences_sum(s, n, HISTOGRAM_BINS as nat) == n,
    decreases n,
{
    if n == 0 {
        lemma_occurrences_sum_zero(s, HISTOGRAM_BINS as nat);
    } else {
        lemma_occurrences_sum_total(s, (n - 1) as nat);
        lemma_occurrences_sum_step(s, (n - 1) as nat, HISTOGRAM_BINS as nat);
    }
}

proof fn lemma_occurrences_sum_zero(s: Seq<u8>, m: nat)
    ensures
        occurrences_sum(s, 0, m) == 0,
    decreases m,
{
    if m > 0 {
        lemma_occurrences_sum_zero(s, (m - 1) as nat);
    }
}

proof fn lemma_bins_sum_is_occurrences_sum(bins: Seq<u32>, s: Seq<u8>, n: nat, m: nat)
    requires
        counts_of(bins, s, n),
        m <= HISTOGRAM_BINS,
    ensures
        bins_sum(bins, m) == occurrences_sum(s, n, m),
    decreases m,
{
    if m > 0 {
        lemma_bins_sum_is_occurrences_sum(bins, s, n, (m - 1) as nat);
        assert(bins[m - 1] as nat == occurrences(s, n, m - 1));
    }
}

/// A channel that counts the first `n` pixels has bins summing to `n`,
/// since every 8-bit value falls in exactly one of the 256 bins.
proof fn lemma_bins_total(bins: Seq<u32>, s: Seq<u8>, n: nat)
    requires
        counts_of(bins, s, n),
        n <= s.len(),
    ensures
        bins_sum(bins, HISTOGRAM_BINS as nat) == n,
{
    lemma_bins_sum_is_occurrences_sum(bins, s, n, HISTOGRAM_BINS as nat);
    lemma_occurrences_sum_total(s, n);
}

/// Law: each channel of the histogram of `n` pixels sums to `n`.
pub proof fn lemma_histogram_totals(h: Histogram, rgb: Seq<u8>, luma: Seq<u8>)
    requires
        rgb.len() == 3 * luma.len(),
        counts_of(h.red@, channel(rgb, 0), luma.len()),
        counts_of(h.green@, channel(rgb, 1), luma.len()),
        counts_of(h.blue@, channel(rgb, 2), luma.len()),
        counts_of(h.luminance@, luma, luma.len()),
    ensures
        bins_sum(h.red@, HISTOGRAM_BINS as nat) == luma.len(),
        bins_sum(h.green@, HISTOGRAM_BINS as nat) == luma.len(),
        bins_sum(h.blue@, HISTOGRAM_BINS as nat) == luma.len(),
        bins_sum(h.luminance@, HISTOGRAM_BINS as nat) == luma.len(),
{
    assert(channel(rgb, 0).len() == luma.len());
    lemma_bins_total(h.red@, channel(rgb, 0), luma.len());
    lemma_bins_total(h.green@, channel(rgb, 1), luma.len());
    lemma_bins_total(h.blue@, channel(rgb, 2), luma.len());
    lemma_bins_total(h.luminance@, luma, luma.len());
}

/// No value occurs more than `u32::MAX` times among the first `n` entries of `s`.
pub open spec fn counts_fit(s: Seq<u8>, n: nat) -> bool {
    forall|v: int| 0 <= v < HISTOGRAM_BINS ==> #[trigger] occurrences(s, n, v) <= u32::MAX
}

proof fn lemma_occurrences_monotone(s: Seq<u8>, k: nat, n: nat, v: int)
    requires
        k <= n,
    ensures
        occurrences(s, k, v) <= occurrences(s, n, v),
    decreases n - k,
{
    if k < n {
        lemma_occurrences_monotone(s, k, (n - 1) as nat, v);
    }
}

/// A vector of 256 zero bins.
fn zero_bins() -> (bins: Vec<u32>)
    ensures
        bins@.len() == HISTOGRAM_BINS,
        all_zero(bins@),
{
    let mut bins: Vec<u32> = Vec::new();
    let mut i: usize = 0;
    while i < HISTOGRAM_BINS
        invariant
            i <= HISTOGRAM_BINS,
            bins@.len() == i,
            all_zero(bins@),
        decreases HISTOGRAM_BINS - i,
    {
        bins.push(0);
        i = i + 1;
    }
    bins
}

impl Histogram {
    /// All four channels have exactly 256 bins.
    pub open spec fn wf(&self) -> bool {
        &&& self.red@.len() == HISTOGRAM_BINS
        &&& self.green@.len() == HISTOGRAM_BINS
        &&& self.blue@.len() == HISTOGRAM_BINS
        &&& self.luminance@.len() == HISTOGRAM_BINS
    }

    /// Every bin of every channel is zero.
    pub open spec fn is_empty(&self) -> bool {
        &&& all_zero(self.red@)
        &&& all_zero(self.green@)
        &&& all_zero(self.blue@)
        &&& all_zero(self.luminance@)
    }

    /// An empty histogram: 256 zero bins per channel.
    pub fn new() -> (h: Self)
        ensures
            h.wf(),
            h.is_empty(),
    {
        Histogram { red: zero_bins(), green: zero_bins(), blue: zero_bins(), luminance: zero_bins() }
    }

    /// The largest bin over all four channels; 0 when every bin is 0 or there are no bins.
    pub fn max_count(&self) -> (m: u32)
        ensures
            forall|i: int| 0 <= i < self.red@.len() ==> #[trigger] self.red@[i] <= m,
            forall|i: int| 0 <= i < self.green@.len() ==> #[trigger] self.green@[i] <= m,
            forall|i: int| 0 <= i < self.blue@.len() ==> #[trigger] self.blue@[i] <= m,
            forall|i: int| 0 <= i < self.luminance@.len() ==> #[trigger] self.luminance@[i] <= m,
            m == 0 || self.red@.contains(m) || self.green@.contains(m) || self.blue@.contains(m)
                || self.luminance@.contains(m),
    {
        let max_red = max_of(&self.red);
        let max_green = max_of(&self.green);
        let max_blue = max_of(&self.blue);
        let max_lum = max_of(&self.luminance);
        let mut m = max_red;
        if max_green > m {
            m = max_green;
        }
        if max_blue > m {
            m = max_blue;
        }
        if max_lum > m {
            m = max_lum;
        }
        m
    }

    /// Sets the first 256 bins of every channel back to zero; the lengths,
    /// and any bins past the 256th, stay as they were.
    pub fn clear(&mut self)
        requires
            old(self).red@.len() >= HISTOGRAM_BINS,
            old(self).green@.len() >= HISTOGRAM_BINS,
            old(self).blue@.len() >= HISTOGRAM_BINS,
            old(self).luminance@.len() >= HISTOGRAM_BINS,
        ensures
            cleared_bins(old(self).red@, final(self).red@),
            cleared_bins(old(self).green@, final(self).green@),
            cleared_bins(old(self).blue@, final(self).blue@),
            cleared_bins(old(self).luminance@, final(self).luminance@),
            old(self).wf() ==> final(self).wf() && final(self).is_empty(),
    {
        let mut i: usize = 0;
        while i < HISTOGRAM_BINS
            invariant
                i <= HISTOGRAM_BINS,
                partly_cleared(old(self).red@, self.red@, i as int),
                partly_cleared(old(self).green@, self.green@, i as int),
                partly_cleared(old(self).blue@, self.blue@, i as int),
                partly_cleared(old(self).luminance@, self.luminance@, i as int),
                old(self).red@.len() >= HISTOGRAM_BINS,
                old(self).green@.len() >= HISTOGRAM_BINS,
                old(self).blue@.len() >= HISTOGRAM_BINS,
                old(self).luminance@.len() >= HISTOGRAM_BINS,
            decreases HISTOGRAM_BINS - i,
        {
            self.red.set(i, 0);
            self.green.set(i, 0);
            self.blue.set(i, 0);
            self.luminance.set(i, 0);
            i = i + 1;
        }
    }

    /// Counts interleaved RGB bytes (three per pixel) together with one
    /// luminance byte per pixel: bin `v` of each channel holds the number of
    /// pixels whose value in that channel is `v`. Bins are `u32` counters, so
    /// no value may occur more than `u32::MAX` times in a channel.
    pub fn from_rgb_and_luma(rgb: &[u8], luma: &[u8]) -> (h: Self)
        requires
            rgb@.len() == 3 * luma@.len(),
            counts_fit(channel(rgb@, 0), luma@.len() as nat),
            counts_fit(channel(rgb@, 1), luma@.len() as nat),
            counts_fit(channel(rgb@, 2), luma@.len() as nat),
            counts_fit(luma@, luma@.len() as nat),
        ensures
            h.wf(),
            counts_of(h.red@, channel(rgb@, 0), luma@.len() as nat),
            counts_of(h.green@, channel(rgb@, 1), luma@.len() as nat),
            counts_of(h.blue@, channel(rgb@, 2), luma@.len() as nat),
            counts_of(h.luminance@, luma@, luma@.len() as nat),
    {
        let mut h = Histogram::new();
        let n = luma.len();
        let total = rgb.len();
        let ghost r = channel(rgb@, 0);
        let ghost g = channel(rgb@, 1);
        let ghost b = channel(rgb@, 2);
        let mut k: usize = 0;
        while k < n
            invariant
                n == luma@.len(),
                total == rgb@.len(),
                rgb@.len() == 3 * n,
                counts_fit(r, n as nat),
                counts_fit(g, n as nat),
                counts_fit(b, n as nat),
                counts_fit(luma@, n as nat),
                k <= n,
                r == channel(rgb@, 0),
                g == channel(rgb@, 1),
                b == channel(rgb@, 2),
                counts_of(h.red@, r, k as nat),
                counts_of(h.green@, g, k as nat),
                counts_of(h.blue@, b, k as nat),
                counts_of(h.luminance@, luma@, k as nat),
            decreases n - k,
        {
            assert(3 * k + 2 < rgb@.len());
            let rv = rgb[3 * k] as usize;
            let gv = rgb[3 * k + 1] as usize;
            let bv = rgb[3 * k + 2] as usize;
            let lv = luma[k] as usize;
            proof {
                assert(r[k as int] == rgb@[3 * k]);
                assert(g[k as int] == rgb@[3 * k + 1]);
                assert(b[k as int] == rgb@[3 * k + 2]);
                lemma_occurrences_monotone(r, (k + 1) as nat, n as nat, rv as int);
                lemma_occurrences_monotone(g, (k + 1) as nat, n as nat, gv as int);
                lemma_occurrences_monotone(b, (k + 1) as nat, n as nat, bv as int);
                lemma_occurrences_monotone(luma@, (k + 1) as nat, n as nat, lv as int);
                assert(occurrences(r, n as nat, rv as int) <= u32::MAX);
                assert(occurrences(g, n as nat, gv as int) <= u32::MAX);
                assert(occurrences(b, n as nat, bv as int) <= u32::MAX);
                assert(occurrences(luma@, n as nat, lv as int) <= u32::MAX);
            }
            let c = h.red[rv];
            h.red.set(rv, c + 1);
            let c = h.green[gv];
            h.green.set(gv, c + 1);
            let c = h.blue[bv];
            h.blue.set(bv, c + 1);
            let c = h.luminance[lv];
            h.luminance.set(lv, c + 1);
            k = k + 1;
        }
        h
    }
}

/// The largest entry of `v`, or 0 when `v` is empty.
fn max_of(v: &Vec<u32>) -> (m: u32)
    ensures
        forall|i: int| 0 <= i < v@.len() ==> #[trigger] v@[i] <= m,
        m == 0 || v@.contains(m),
{
    let mut m: u32 = 0;
    let mut i: usize = 0;
    while i < v.len()
        invariant
            i <= v@.len(),
            forall|j: int| 0 <= j < i ==> #[trigger] v@[j] <= m,
            m == 0 || v@.contains(m),
        decreases v@.len() - i,
    {
        if v[i] > m {
            m = v[i];
            assert(v@[i as int] == m);
        }
        i = i + 1;
    }
    m
}

impl Default for Histogram {
    fn default() -> (h: Self)
        ensures
            h.wf(),
            h.is_empty(),
    {
        Histogram::new()
    }
}

} // verus!
