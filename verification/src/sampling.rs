//! Weighted and ranged sampling primitives.
//!
//! A weighted distribution is an ordered list of positive integer weights;
//! the label list lives at the caller, which keeps iteration and tie-break
//! order explicit. Selection is purely weight-proportional: of the
//! `total_weight(ws)` equally likely draw values, exactly `ws[i]` select
//! index `i` (see [`lemma_weighted_share`]).

use vstd::prelude::*;
use crate::rng::RandomSource;

verus! {

/// A programmer or configuration error in a sampler's inputs: such inputs are
/// rejected outright rather than mapped to a default.
#[derive(Clone, Copy, PartialEq, Eq, Structural, Debug)]
pub enum ConfigError {
    /// An empty weight list was passed to the weighted sampler.
    EmptyWeights,
    /// A non-empty weight list whose weights sum to zero.
    ZeroTotalWeight,
    /// A range whose lower bound exceeds its upper bound.
    InvertedRange,
}

/// Sum of the first `i` weights.
pub open spec fn prefix_weight(ws: Seq<u64>, i: int) -> int
    decreases i,
{
    if i <= 0 {
        0
    } else {
        prefix_weight(ws, i - 1) + ws[i - 1]
    }
}

/// Sum of all weights.
pub open spec fn total_weight(ws: Seq<u64>) -> int {
    prefix_weight(ws, ws.len() as int)
}

/// The index that draw value `r` selects: the unique `i` with
/// `prefix_weight(ws, i) <= r < prefix_weight(ws, i) + ws[i]`.
pub open spec fn pick_index(ws: Seq<u64>, r: int) -> int
    decreases ws.len(),
{
    if ws.len() == 0 {
        0
    } else if r < ws[0] {
        0
    } else {
        1 + pick_index(ws.drop_first(), r - ws[0])
    }
}

pub proof fn lemma_pick_index_nonneg(ws: Seq<u64>, r: int)
    ensures
        pick_index(ws, r) >= 0,
    decreases ws.len(),
{
    if ws.len() > 0 && r >= ws[0] {
        lemma_pick_index_nonneg(ws.drop_first(), r - ws[0]);
    }
}

pub proof fn lemma_prefix_weight_monotonic(ws: Seq<u64>, i: int, j: int)
    requires
        0 <= i <= j <= ws.len(),
    ensures
        prefix_weight(ws, i) <= prefix_weight(ws, j),
    decreases j - i,
{
    if i < j {
        lemma_prefix_weight_monotonic(ws, i, j - 1);
    }
}

proof fn lemma_prefix_weight_drop_first(ws: Seq<u64>, i: int)
    requires
        1 <= i <= ws.len(),
    ensures
        prefix_weight(ws.drop_first(), i - 1) == prefix_weight(ws, i) - ws[0],
    decreases i,
{
    let d = ws.drop_first();
    if i == 1 {
        assert(prefix_weight(d, 0) == 0);
        assert(prefix_weight(ws, 0) == 0);
        assert(prefix_weight(ws, 1) == prefix_weight(ws, 0) + ws[0]);
    } else {
        lemma_prefix_weight_drop_first(ws, i - 1);
        assert(d[i - 2] == ws[i - 1]);
        assert(prefix_weight(d, i - 1) == prefix_weight(d, i - 2) + d[i - 2]);
        assert(prefix_weight(ws, i) == prefix_weight(ws, i - 1) + ws[i - 1]);
    }
}

/// Weight-proportional selection: draw value `r` selects index `i` exactly
/// when `r` falls in the interval `[prefix_weight(ws, i),
/// prefix_weight(ws, i) + ws[i])`. These intervals partition the draw space,
/// so each index is selected for exactly `ws[i]` of the `total_weight(ws)`
/// equally likely draw values: over many independent draws the empirical
/// frequency of index `i` converges to `ws[i] / total_weight(ws)`,
/// independent of how equal weights are ordered.
pub proof fn lemma_weighted_share(ws: Seq<u64>, i: int, r: int)
    requires
        0 <= i < ws.len(),
        0 <= r < total_weight(ws),
    ensures
        pick_index(ws, r) == i <==> prefix_weight(ws, i) <= r
            < prefix_weight(ws, i) + ws[i],
    decreases ws.len(),
{
    if r < ws[0] {
        if i > 0 {
            lemma_prefix_weight_monotonic(ws, 1, i);
            assert(prefix_weight(ws, 0) == 0);
            assert(prefix_weight(ws, 1) == prefix_weight(ws, 0) + ws[0]);
        }
    } else {
        let ws2 = ws.drop_first();
        lemma_prefix_weight_drop_first(ws, ws.len() as int);
        if i == 0 {
            lemma_pick_index_nonneg(ws2, r - ws[0]);
        } else {
            lemma_weighted_share(ws2, i - 1, r - ws[0]);
            lemma_prefix_weight_drop_first(ws, i);
            assert(ws2[i - 1] == ws[i]);
        }
    }
}

/// Deterministic half of the weighted sampler: maps the draw value `r` to the
/// index it selects. Splitting this from the random draw makes the selection
/// logic checkable on chosen draw values.
pub fn index_for(weights: &Vec<u64>, r: u64) -> (i: usize)
    requires
        total_weight(weights@) <= u64::MAX,
        r < total_weight(weights@),
    ensures
        i < weights@.len(),
        i == pick_index(weights@, r as int),
        prefix_weight(weights@, i as int) <= r
            < prefix_weight(weights@, i as int) + weights@[i as int],
        weights@[i as int] > 0,
{
    let ghost ws = weights@;
    proof {
        // A positive total forces at least one weight.
        assert(ws.len() > 0) by {
            if ws.len() == 0 {
                assert(total_weight(ws) == 0);
            }
        }
    }
    let len = weights.len();
    let mut idx: usize = 0;
    let mut acc: u64 = 0;
    while idx < len - 1
        invariant
            ws == weights@,
            len == ws.len(),
            len >= 1,
            idx < len,
            acc == prefix_weight(ws, idx as int),
            acc <= r,
            r < total_weight(ws),
            total_weight(ws) <= u64::MAX,
        decreases len - idx,
    {
        let w = weights[idx];
        proof {
            lemma_prefix_weight_monotonic(ws, idx + 1, ws.len() as int);
        }
        if r < acc + w {
            proof {
                lemma_weighted_share(ws, idx as int, r as int);
            }
            return idx;
        }
        acc = acc + w;
        idx = idx + 1;
    }
    proof {
        assert(acc == prefix_weight(ws, len - 1));
        assert(total_weight(ws) == prefix_weight(ws, len - 1) + ws[len - 1]);
        lemma_weighted_share(ws, len - 1, r as int);
    }
    len - 1
}

/// Weighted draw: selects one index of `weights` with probability
/// proportional to its weight. An empty list or a zero total is a
/// configuration error, reported rather than mapped to a default; a list
/// with one positive entry always yields index 0.
pub fn weighted_index(weights: &Vec<u64>, rng: &mut RandomSource) -> (res: Result<
    usize,
    ConfigError,
>)
    requires
        total_weight(weights@) <= u64::MAX,
    ensures
        res == Err::<usize, ConfigError>(ConfigError::EmptyWeights) <==> weights@.len() == 0,
        res == Err::<usize, ConfigError>(ConfigError::ZeroTotalWeight) <==> (weights@.len() > 0
            && total_weight(weights@) == 0),
        res is Ok <==> weights@.len() > 0 && total_weight(weights@) > 0,
        res matches Ok(i) ==> i < weights@.len() && weights@[i as int] > 0,
{
    let ghost ws = weights@;
    let len = weights.len();
    if len == 0 {
        return Err(ConfigError::EmptyWeights);
    }
    let mut total: u64 = 0;
    let mut idx: usize = 0;
    while idx < len
        invariant
            ws == weights@,
            len == ws.len(),
            idx <= len,
            total == prefix_weight(ws, idx as int),
            total_weight(ws) <= u64::MAX,
        decreases len - idx,
    {
        proof {
            lemma_prefix_weight_monotonic(ws, idx + 1, ws.len() as int);
        }
        total = total + weights[idx];
        idx = idx + 1;
    }
    if total == 0 {
        return Err(ConfigError::ZeroTotalWeight);
    }
    let r = rng.next_in(0, total - 1);
    Ok(index_for(weights, r))
}

/// A two-entry weight list, with its total exposed for the sampler's bound.
pub fn weights2(a: u64, b: u64) -> (v: Vec<u64>)
    ensures
        v@.len() == 2,
        v@[0] == a,
        v@[1] == b,
        total_weight(v@) == a + b,
{
    let mut v: Vec<u64> = Vec::new();
    v.push(a);
    v.push(b);
    proof {
        assert(prefix_weight(v@, 0) == 0);
        assert(prefix_weight(v@, 1) == prefix_weight(v@, 0) + v@[0]);
        assert(prefix_weight(v@, 2) == prefix_weight(v@, 1) + v@[1]);
    }
    v
}

/// A three-entry weight list.
pub fn weights3(a: u64, b: u64, c: u64) -> (v: Vec<u64>)
    ensures
        v@.len() == 3,
        v@[0] == a,
        v@[1] == b,
        v@[2] == c,
        total_weight(v@) == a + b + c,
{
    let mut v: Vec<u64> = Vec::new();
    v.push(a);
    v.push(b);
    v.push(c);
    proof {
        assert(prefix_weight(v@, 0) == 0);
        assert(prefix_weight(v@, 1) == prefix_weight(v@, 0) + v@[0]);
        assert(prefix_weight(v@, 2) == prefix_weight(v@, 1) + v@[1]);
        assert(prefix_weight(v@, 3) == prefix_weight(v@, 2) + v@[2]);
    }
    v
}

/// A four-entry weight list.
pub fn weights4(a: u64, b: u64, c: u64, d: u64) -> (v: Vec<u64>)
    ensures
        v@.len() == 4,
        v@[0] == a,
        v@[1] == b,
        v@[2] == c,
        v@[3] == d,
        total_weight(v@) == a + b + c + d,
{
    let mut v: Vec<u64> = Vec::new();
    v.push(a);
    v.push(b);
    v.push(c);
    v.push(d);
    proof {
        assert(prefix_weight(v@, 0) == 0);
        assert(prefix_weight(v@, 1) == prefix_weight(v@, 0) + v@[0]);
        assert(prefix_weight(v@, 2) == prefix_weight(v@, 1) + v@[1]);
        assert(prefix_weight(v@, 3) == prefix_weight(v@, 2) + v@[2]);
        assert(prefix_weight(v@, 4) == prefix_weight(v@, 3) + v@[3]);
    }
    v
}

/// A six-entry weight list.
pub fn weights6(a: u64, b: u64, c: u64, d: u64, e: u64, f: u64) -> (v: Vec<u64>)
    ensures
        v@.len() == 6,
        v@[0] == a,
        v@[1] == b,
        v@[2] == c,
        v@[3] == d,
        v@[4] == e,
        v@[5] == f,
        total_weight(v@) == a + b + c + d + e + f,
{
    let mut v: Vec<u64> = Vec::new();
    v.push(a);
    v.push(b);
    v.push(c);
    v.push(d);
    v.push(e);
    v.push(f);
    proof {
        assert(prefix_weight(v@, 0) == 0);
        assert(prefix_weight(v@, 1) == prefix_weight(v@, 0) + v@[0]);
        assert(prefix_weight(v@, 2) == prefix_weight(v@, 1) + v@[1]);
        assert(prefix_weight(v@, 3) == prefix_weight(v@, 2) + v@[2]);
        assert(prefix_weight(v@, 4) == prefix_weight(v@, 3) + v@[3]);
        assert(prefix_weight(v@, 5) == prefix_weight(v@, 4) + v@[4]);
        assert(prefix_weight(v@, 6) == prefix_weight(v@, 5) + v@[5]);
    }
    v
}

/// Ranged draw: a value uniform on the closed interval `[lo, hi]`. The caller
/// fixes the decimal precision by scaling: the bounds and the result are
/// integers in the caller's unit (e.g. thousandths), so the result carries at
/// most the caller's number of decimal digits and lies within the bounds
/// exactly. An inverted range (`lo > hi`) is a configuration error, reported
/// rather than repaired by swapping.
pub fn range_sample(rng: &mut RandomSource, lo: i64, hi: i64) -> (res: Result<i64, ConfigError>)
    ensures
        res is Err <==> lo > hi,
        res matches Err(e) ==> e == ConfigError::InvertedRange,
        res matches Ok(v) ==> lo <= v <= hi,
{
    if lo > hi {
        return Err(ConfigError::InvertedRange);
    }
    let span: u64 = ((hi as i128) - (lo as i128)) as u64;
    let d = rng.next_in(0, span);
    let v = ((lo as i128) + (d as i128)) as i64;
    Ok(v)
}

/// `range_sample` on a range already known to be well formed; used by the
/// generators, whose ranges are fixed.
pub fn sample_between(rng: &mut RandomSource, lo: i64, hi: i64) -> (v: i64)
    requires
        lo <= hi,
    ensures
        lo <= v <= hi,
{
    match range_sample(rng, lo, hi) {
        Ok(v) => v,
        Err(_) => {
            proof {
                assert(false);
            }
            lo
        },
    }
}

} // verus!
