//! Assignment of spectrum bins to the five named frequency bands.
//!
//! Bin `index` of a transform over `window_size` samples taken at `sample_rate` stands for
//! the frequency `index * sample_rate / window_size`. Frequencies are compared exactly, as
//! fractions, with rates and band edges in millihertz.

use vstd::prelude::*;

verus! {

/// The nominal processing rate, 250 Hz, in millihertz.
pub const NOMINAL_RATE_MILLIHERTZ: u64 = 250_000;

/// Lower edge of the delta band, 0.5 Hz.
pub const DELTA_FROM: u64 = 500;

/// Edge between delta and theta, 4 Hz.
pub const THETA_FROM: u64 = 4_000;

/// Edge between theta and alpha, 8 Hz.
pub const ALPHA_FROM: u64 = 8_000;

/// Upper edge of the alpha band, 12 Hz.
pub const ALPHA_TO: u64 = 12_000;

/// Lower edge of the beta band, 13 Hz.
pub const BETA_FROM: u64 = 13_000;

/// Edge between beta and gamma, 30 Hz.
pub const GAMMA_FROM: u64 = 30_000;

/// Upper edge of the gamma band, 100 Hz.
pub const GAMMA_TO: u64 = 100_000;

/// A named frequency band.
#[derive(Clone, Copy, Debug, PartialEq, Eq, Structural)]
pub enum Band {
    /// 0.5 Hz up to, not including, 4 Hz.
    Delta,
    /// 4 Hz up to, not including, 8 Hz.
    Theta,
    /// 8 Hz up to, not including, 12 Hz.
    Alpha,
    /// 13 Hz up to, not including, 30 Hz.
    Beta,
    /// 30 Hz up to, not including, 100 Hz.
    Gamma,
}

/// The lowest frequency of `band`, in millihertz; it belongs to the band.
pub open spec fn band_from(band: Band) -> nat {
    match band {
        Band::Delta => DELTA_FROM as nat,
        Band::Theta => THETA_FROM as nat,
        Band::Alpha => ALPHA_FROM as nat,
        Band::Beta => BETA_FROM as nat,
        Band::Gamma => GAMMA_FROM as nat,
    }
}

/// The frequency at which `band` ends, in millihertz; it no longer belongs to the band.
pub open spec fn band_to(band: Band) -> nat {
    match band {
        Band::Delta => THETA_FROM as nat,
        Band::Theta => ALPHA_FROM as nat,
        Band::Alpha => ALPHA_TO as nat,
        Band::Beta => GAMMA_FROM as nat,
        Band::Gamma => GAMMA_TO as nat,
    }
}

/// Whether the frequency of bin `index` is at least `from` and below `to`, both in
/// millihertz. The frequency is `index * sample_rate / window_size`; the comparison is
/// made after multiplying through by `window_size`, so nothing is rounded. No bin of an
/// empty window lies in any range.
pub open spec fn bin_within(
    index: nat,
    sample_rate: nat,
    window_size: nat,
    from: nat,
    to: nat,
) -> bool {
    from * window_size <= index * sample_rate < to * window_size
}

/// Whether bin `index` contributes to `band`.
pub open spec fn bin_in_band(band: Band, index: nat, sample_rate: nat, window_size: nat) -> bool {
    bin_within(index, sample_rate, window_size, band_from(band), band_to(band))
}

/// The band that bin `index` contributes to, if any.
pub open spec fn spec_band_of_bin(index: nat, sample_rate: nat, window_size: nat) -> Option<Band> {
    if bin_in_band(Band::Delta, index, sample_rate, window_size) {
        Some(Band::Delta)
    } else if bin_in_band(Band::Theta, index, sample_rate, window_size) {
        Some(Band::Theta)
    } else if bin_in_band(Band::Alpha, index, sample_rate, window_size) {
        Some(Band::Alpha)
    } else if bin_in_band(Band::Beta, index, sample_rate, window_size) {
        Some(Band::Beta)
    } else if bin_in_band(Band::Gamma, index, sample_rate, window_size) {
        Some(Band::Gamma)
    } else {
        None
    }
}

/// The band edges keep their order when scaled by a window size.
proof fn lemma_edges_are_ordered(window_size: nat)
    ensures
        DELTA_FROM * window_size <= THETA_FROM * window_size <= ALPHA_FROM * window_size
            <= ALPHA_TO * window_size <= BETA_FROM * window_size <= GAMMA_FROM * window_size
            <= GAMMA_TO * window_size,
{
    assert(DELTA_FROM * window_size <= THETA_FROM * window_size <= ALPHA_FROM * window_size
        <= ALPHA_TO * window_size <= BETA_FROM * window_size <= GAMMA_FROM * window_size
        <= GAMMA_TO * window_size) by (nonlinear_arith);
}

/// The bands are disjoint: a bin contributes to `band` exactly when `band` is the one band
/// assigned to it.
pub proof fn lemma_bands_are_disjoint(band: Band, index: nat, sample_rate: nat, window_size: nat)
    ensures
        bin_in_band(band, index, sample_rate, window_size) <==> spec_band_of_bin(
            index,
            sample_rate,
            window_size,
        ) == Some(band),
{
    lemma_edges_are_ordered(window_size);
}

/// The bins left out of every band: those below 0.5 Hz, those from 12 Hz up to, not
/// including, 13 Hz, and those at or above 100 Hz.
pub open spec fn bin_excluded(index: nat, sample_rate: nat, window_size: nat) -> bool {
    ||| index * sample_rate < DELTA_FROM * window_size
    ||| bin_within(index, sample_rate, window_size, ALPHA_TO as nat, BETA_FROM as nat)
    ||| index * sample_rate >= GAMMA_TO * window_size
}

/// A bin is assigned to no band exactly when it is one of the excluded bins. In
/// particular a bin between 12 Hz and 13 Hz, such as one at 12.5 Hz, contributes neither
/// to alpha nor to beta.
pub proof fn lemma_excluded_bins_have_no_band(index: nat, sample_rate: nat, window_size: nat)
    ensures
        bin_excluded(index, sample_rate, window_size) <==> spec_band_of_bin(
            index,
            sample_rate,
            window_size,
        ) is None,
        bin_within(index, sample_rate, window_size, ALPHA_TO as nat, BETA_FROM as nat) ==> {
            &&& !bin_in_band(Band::Alpha, index, sample_rate, window_size)
            &&& !bin_in_band(Band::Beta, index, sample_rate, window_size)
        },
{
    lemma_edges_are_ordered(window_size);
}

/// The exact product of two 64-bit numbers.
fn wide_product(left: u64, right: u64) -> (product: u128)
    ensures
        product == left * right,
{
    assert(left * right <= 0xffff_ffff_ffff_ffff * 0xffff_ffff_ffff_ffff) by (nonlinear_arith)
        requires
            0 <= left <= 0xffff_ffff_ffff_ffff,
            0 <= right <= 0xffff_ffff_ffff_ffff,
    ;
    (left as u128) * (right as u128)
}

/// Finds the band that bin `index` of a transform over `window_size` samples contributes
/// to, for a signal sampled at `sample_rate` millihertz. Bins outside every band give
/// `None`.
pub fn band_of_bin(index: usize, sample_rate: u64, window_size: usize) -> (band: Option<Band>)
    ensures
        band == spec_band_of_bin(index as nat, sample_rate as nat, window_size as nat),
{
    let size: u64 = window_size as u64;
    let scaled: u128 = wide_product(index as u64, sample_rate);
    proof {
        lemma_edges_are_ordered(window_size as nat);
    }
    if scaled < wide_product(DELTA_FROM, size) {
        None
    } else if scaled < wide_product(THETA_FROM, size) {
        Some(Band::Delta)
    } else if scaled < wide_product(ALPHA_FROM, size) {
        Some(Band::Theta)
    } else if scaled < wide_product(ALPHA_TO, size) {
        Some(Band::Alpha)
    } else if scaled < wide_product(BETA_FROM, size) {
        None
    } else if scaled < wide_product(GAMMA_FROM, size) {
        Some(Band::Beta)
    } else if scaled < wide_product(GAMMA_TO, size) {
        Some(Band::Gamma)
    } else {
        None
    }
}

} // verus!
