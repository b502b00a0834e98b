//! Layout of logarithmic frequency bands over the bins of a spectrum.
//!
//! Band `i` spans from boundary `i` to boundary `i + 1`. A boundary is the
//! position `f * fft_size / sample_rate` of a boundary frequency `f` on the bin
//! axis, given by the bins just below and just above it (its floor and ceiling).

use vstd::prelude::*;

verus! {

/// Fewest bands laid out for a narrow display.
pub const MIN_BANDS: usize = 32;

/// Most bands laid out for a wide display.
pub const MAX_BANDS: usize = 64;

/// A band boundary on the bin axis: the bins just below and just above it.
#[derive(Clone, Copy, Debug, PartialEq, Eq)]
pub struct BinEdge {
    pub below: usize,
    pub above: usize,
}

impl BinEdge {
    /// The bin below a boundary is never past the bin above it.
    pub open spec fn wf(&self) -> bool {
        self.below <= self.above
    }
}

/// The bins `start_bin .. end_bin` (end exclusive) that make up one band.
#[derive(Clone, Copy, Debug, PartialEq, Eq)]
pub struct FrequencyBand {
    pub start_bin: usize,
    pub end_bin: usize,
}

/// The smaller of two integers.
pub open spec fn min_int(a: int, b: int) -> int {
    if a <= b {
        a
    } else {
        b
    }
}

/// The larger of two integers.
pub open spec fn max_int(a: int, b: int) -> int {
    if a >= b {
        a
    } else {
        b
    }
}

/// First bin of a band that starts at boundary `lo`: its lower bin, at most the
/// Nyquist bin `fft_size / 2`.
pub open spec fn band_start(lo: BinEdge, fft_size: nat) -> int {
    min_int(lo.below as int, (fft_size / 2) as int)
}

/// End of a band that starts at `start` and ends at boundary `hi`: its upper bin,
/// at most one past the Nyquist bin, and at least one bin past `start`.
pub open spec fn band_end(start: int, hi: BinEdge, fft_size: nat) -> int {
    max_int(min_int(hi.above as int, (fft_size / 2 + 1) as int), start + 1)
}

/// Number of bands between `n` boundaries.
pub open spec fn band_count(n: nat) -> nat {
    if n == 0 {
        0
    } else {
        (n - 1) as nat
    }
}

/// The band between boundaries `i` and `i + 1`.
pub open spec fn band_between(edges: Seq<BinEdge>, i: int, fft_size: nat) -> FrequencyBand {
    let start = band_start(edges[i], fft_size);
    FrequencyBand {
        start_bin: start as usize,
        end_bin: band_end(start, edges[i + 1], fft_size) as usize,
    }
}

/// The bands laid out between consecutive boundaries of `edges`.
pub open spec fn layout(edges: Seq<BinEdge>, fft_size: nat) -> Seq<FrequencyBand> {
    Seq::new(band_count(edges.len()), |i: int| band_between(edges, i, fft_size))
}

/// The number of bands for a display `terminal_width` columns wide: one per
/// column, between `MIN_BANDS` and `MAX_BANDS`.
pub fn band_count_for_width(terminal_width: usize) -> (n: usize)
    ensures
        n == min_int(max_int(terminal_width as int, MIN_BANDS as int), MAX_BANDS as int),
{
    if terminal_width < MIN_BANDS {
        MIN_BANDS
    } else if terminal_width > MAX_BANDS {
        MAX_BANDS
    } else {
        terminal_width
    }
}

/// Maps the bins of a spectrum to logarithmic frequency bands.
pub struct FrequencyBinner {
    bands: Vec<FrequencyBand>,
    fft_size: usize,
}

impl View for FrequencyBinner {
    type V = Seq<FrequencyBand>;

    closed spec fn view(&self) -> Seq<FrequencyBand> {
        self.bands@
    }
}

impl FrequencyBinner {
    /// The FFT size the bands were laid out for.
    pub closed spec fn fft_size_spec(&self) -> nat {
        self.fft_size as nat
    }

    /// Lays out one band between each two consecutive boundaries of `edges`.
    /// Each band is clamped to the bins `0 ..= fft_size / 2` and is at least one
    /// bin wide.
    pub fn from_edges(edges: &Vec<BinEdge>, fft_size: usize) -> (r: FrequencyBinner)
        ensures
            r@ == layout(edges@, fft_size as nat),
            r.fft_size_spec() == fft_size,
    {
        let half = fft_size / 2;
        let mut bands: Vec<FrequencyBand> = Vec::new();
        if edges.len() == 0 {
            proof {
                assert(bands@ =~= layout(edges@, fft_size as nat));
            }
            return FrequencyBinner { bands, fft_size };
        }
        let n = edges.len() - 1;
        let mut i: usize = 0;
        while i < n
            invariant
                n == edges@.len() - 1,
                i <= n,
                half == fft_size / 2,
                bands@ =~= layout(edges@, fft_size as nat).take(i as int),
            decreases n - i,
        {
            let lo = edges[i];
            let hi = edges[i + 1];
            let start: usize = if lo.below < half {
                lo.below
            } else {
                half
            };
            let capped: usize = if hi.above < half + 1 {
                hi.above
            } else {
                half + 1
            };
            let end: usize = if capped > start {
                capped
            } else {
                start + 1
            };
            bands.push(FrequencyBand { start_bin: start, end_bin: end });
            i = i + 1;
        }
        proof {
            assert(layout(edges@, fft_size as nat).take(n as int) =~= layout(edges@, fft_size as nat));
        }
        FrequencyBinner { bands, fft_size }
    }

    /// The number of bands.
    pub fn num_bands(&self) -> (n: usize)
        ensures
            n == self@.len(),
    {
        self.bands.len()
    }

    /// Band `i`.
    pub fn band(&self, i: usize) -> (b: FrequencyBand)
        requires
            i < self@.len(),
        ensures
            b == self@[i as int],
    {
        self.bands[i]
    }

    /// The bins of band `i` that a spectrum of `n_bins` values holds, as the range
    /// `lo .. hi`; empty when the band lies past the spectrum's end. A band's
    /// value is the mean of the spectrum over this range.
    pub fn band_bins(&self, i: usize, n_bins: usize) -> (r: (usize, usize))
        requires
            i < self@.len(),
        ensures
            r.0 == self@[i as int].start_bin,
            r.0 <= r.1,
            r.1 == max_int(self@[i as int].start_bin as int, min_int(self@[i as int].end_bin as int, n_bins as int)),
    {
        let band = self.bands[i];
        let top: usize = if band.end_bin < n_bins {
            band.end_bin
        } else {
            n_bins
        };
        let hi: usize = if top > band.start_bin {
            top
        } else {
            band.start_bin
        };
        (band.start_bin, hi)
    }
}

/// Every band laid out from boundaries lies within the bins `0 ..= fft_size / 2`
/// and is at least one bin wide. When each boundary's lower bin is not past its
/// upper bin, bands leave no gap: each starts no later than the one before it
/// ends. When the boundaries rise, so do the bands' starts and ends. The first
/// band starts at the first boundary and the last ends at or past the last
/// boundary, both clamped to the spectrum.
pub proof fn lemma_layout_contiguous(edges: Seq<BinEdge>, fft_size: nat)
    requires
        fft_size / 2 + 1 <= usize::MAX,
        forall|k: int| 0 <= k < edges.len() ==> (#[trigger] edges[k]).wf(),
    ensures
        forall|i: int|
            0 <= i < layout(edges, fft_size).len() ==> {
                &&& (#[trigger] layout(edges, fft_size)[i]).start_bin
                    < layout(edges, fft_size)[i].end_bin
                &&& layout(edges, fft_size)[i].start_bin <= fft_size / 2
                &&& layout(edges, fft_size)[i].end_bin <= fft_size / 2 + 1
            },
        forall|i: int|
            0 <= i < layout(edges, fft_size).len() - 1 ==> (#[trigger] layout(edges, fft_size)[i
                + 1]).start_bin <= layout(edges, fft_size)[i].end_bin,
        (forall|k: int, l: int|
            0 <= k <= l < edges.len() ==> (#[trigger] edges[k]).below <= (#[trigger] edges[l]).below
                && edges[k].above <= edges[l].above) ==> forall|i: int, j: int|
            0 <= i <= j < layout(edges, fft_size).len() ==> (#[trigger] layout(edges, fft_size)[i]).start_bin
                <= (#[trigger] layout(edges, fft_size)[j]).start_bin && layout(edges, fft_size)[i].end_bin
                <= layout(edges, fft_size)[j].end_bin,
        edges.len() >= 2 ==> layout(edges, fft_size)[0].start_bin == min_int(
            edges[0].below as int,
            (fft_size / 2) as int,
        ),
        edges.len() >= 2 ==> layout(edges, fft_size)[edges.len() - 2].end_bin >= min_int(
            edges[edges.len() - 1].above as int,
            (fft_size / 2 + 1) as int,
        ),
{
}

} // verus!
