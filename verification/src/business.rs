//! Businesses, the demand ledger, and the market-capacity state.
//!
//! Business formation draws against a finite market: each new business
//! samples a marketing-reach percentage and may only commit if the remaining
//! market capacity covers it. Percentages on this side are fixed-point
//! integers in hundredths of a percent ("centi-percent"): `10_000` stands
//! for the full market, `720` for 7.20%.

use vstd::prelude::*;
use crate::config::Config;
use crate::config::generate_education_level;
use crate::fixed::mul_div;
use crate::person::EducationLevel;
use crate::rng::RandomSource;
use crate::sampling::sample_between;
use crate::sampling::weighted_index;
use crate::sampling::weights3;
use vstd::arithmetic::div_mod::lemma_div_is_ordered;
use vstd::arithmetic::div_mod::lemma_div_multiples_vanish;
use vstd::arithmetic::mul::lemma_mul_inequality;

verus! {

/// The whole market, in centi-percent.
pub const FULL_MARKET: i64 = 10_000;

/// Category of purchasable good; a key into demand and capacity tables.
#[derive(Clone, Copy, PartialEq, Eq, Hash, Structural, Debug)]
pub enum ProductType {
    Leisure,
}

/// Per-person demand table: after generation it holds an entry for every
/// `ProductType`, in milli-currency.
#[derive(Clone, Copy, PartialEq, Eq, Structural, Debug)]
pub struct DemandTable {
    pub leisure: Option<i64>,
}

impl DemandTable {
    pub open spec fn spec_get(self, pt: ProductType) -> Option<i64> {
        match pt {
            ProductType::Leisure => self.leisure,
        }
    }

    /// An entry exists for every product type.
    pub open spec fn complete(self) -> bool {
        forall|pt: ProductType| (#[trigger] self.spec_get(pt)) is Some
    }

    pub fn empty() -> (t: DemandTable)
        ensures
            forall|pt: ProductType| (#[trigger] t.spec_get(pt)) is None,
    {
        DemandTable { leisure: None }
    }

    pub fn get(&self, pt: ProductType) -> (r: Option<i64>)
        ensures
            r == self.spec_get(pt),
    {
        match pt {
            ProductType::Leisure => self.leisure,
        }
    }

    pub fn set(&mut self, pt: ProductType, value: i64)
        ensures
            forall|q: ProductType|
                (#[trigger] final(self).spec_get(q)) == if q == pt {
                    Some(value)
                } else {
                    old(self).spec_get(q)
                },
    {
        match pt {
            ProductType::Leisure => {
                self.leisure = Some(value);
            },
        }
    }
}

/// Shared per-product accumulator of all individuals' computed demand, in
/// milli-currency. Population generation adds each person's demand exactly
/// once; business generation only reads it.
#[derive(Clone, Copy, PartialEq, Eq, Structural, Debug)]
pub struct DemandLedger {
    pub leisure: i64,
}

impl DemandLedger {
    pub open spec fn spec_total(self, pt: ProductType) -> int {
        match pt {
            ProductType::Leisure => self.leisure as int,
        }
    }

    pub fn new() -> (l: DemandLedger)
        ensures
            forall|pt: ProductType| (#[trigger] l.spec_total(pt)) == 0,
    {
        DemandLedger { leisure: 0 }
    }

    pub fn total_for(&self, pt: ProductType) -> (t: i64)
        ensures
            t == self.spec_total(pt),
    {
        match pt {
            ProductType::Leisure => self.leisure,
        }
    }

    /// Adds one person's demand contribution to the accumulator for `pt`.
    pub fn add(&mut self, pt: ProductType, amount: i64)
        requires
            i64::MIN <= old(self).spec_total(pt) + amount <= i64::MAX,
        ensures
            forall|q: ProductType|
                (#[trigger] final(self).spec_total(q)) == if q == pt {
                    old(self).spec_total(q) + amount
                } else {
                    old(self).spec_total(q)
                },
    {
        match pt {
            ProductType::Leisure => {
                self.leisure = self.leisure + amount;
            },
        }
    }
}

/// Running sum of a sequence of demand contributions.
pub open spec fn sum_seq(ds: Seq<int>) -> int
    decreases ds.len(),
{
    if ds.len() == 0 {
        0
    } else {
        sum_seq(ds.drop_last()) + ds.last()
    }
}

/// Demand is strictly additive to the ledger: when every generation step
/// adds exactly its person's demand to the running total — the shape of
/// `DemandLedger::add` and of `Person::generate` — the final total equals
/// the initial total plus the sum of all per-person demands, exactly.
pub proof fn lemma_ledger_conservation(totals: Seq<int>, demands: Seq<int>)
    requires
        totals.len() == demands.len() + 1,
        forall|j: int|
            0 <= j < demands.len() ==> totals[j + 1] == totals[j] + #[trigger] demands[j],
    ensures
        totals.last() == totals.first() + sum_seq(demands),
    decreases demands.len(),
{
    if demands.len() > 0 {
        lemma_ledger_conservation(totals.drop_last(), demands.drop_last());
        assert(totals.drop_last().last() == totals[totals.len() - 2]);
        assert(totals[totals.len() - 1] == totals[totals.len() - 2] + demands[demands.len() - 1]);
    }
}

/// The fraction of total demand not yet claimed by an existing business,
/// in centi-percent of the whole market.
#[derive(Clone, Copy, PartialEq, Eq, Structural, Debug)]
pub struct MarketState {
    pub remaining_market_percentage: i64,
}

/// One capacity transition: a claim of `reach` is committed only when the
/// remaining capacity covers it, and otherwise changes nothing.
pub open spec fn market_step(remaining: int, reach: int) -> int {
    if 0 <= reach <= remaining {
        remaining - reach
    } else {
        remaining
    }
}

impl MarketState {
    pub open spec fn wf(self) -> bool {
        0 <= self.remaining_market_percentage <= FULL_MARKET
    }

    /// A fresh market with its whole capacity unclaimed.
    pub fn new() -> (m: MarketState)
        ensures
            m.remaining_market_percentage == FULL_MARKET,
            m.wf(),
    {
        MarketState { remaining_market_percentage: FULL_MARKET }
    }

    /// Check-and-decrement against the remaining capacity: commits the claim
    /// exactly when it fits, and rejects it leaving the state unchanged
    /// otherwise.
    pub fn try_claim(&mut self, reach: i64) -> (ok: bool)
        requires
            reach >= 0,
            old(self).wf(),
        ensures
            ok == (reach <= old(self).remaining_market_percentage),
            final(self).remaining_market_percentage == market_step(
                old(self).remaining_market_percentage as int,
                reach as int,
            ),
            !ok ==> *final(self) == *old(self),
            final(self).wf(),
    {
        if self.remaining_market_percentage - reach < 0 {
            return false;
        }
        self.remaining_market_percentage = self.remaining_market_percentage - reach;
        true
    }
}

/// Over any sequence of capacity transitions (each a `market_step`, the
/// shape `MarketState::try_claim` ensures), the remaining market percentage
/// is non-increasing and never goes below zero: a claim that would drive it
/// negative is rejected and leaves the state unchanged.
pub proof fn lemma_market_capacity(states: Seq<int>, reaches: Seq<int>)
    requires
        states.len() == reaches.len() + 1,
        0 <= states[0],
        forall|j: int|
            0 <= j < reaches.len() ==> states[j + 1] == #[trigger] market_step(
                states[j],
                reaches[j],
            ),
    ensures
        forall|k: int, l: int| 0 <= k <= l < states.len() ==> states[l] <= states[k],
        forall|k: int| 0 <= k < states.len() ==> 0 <= states[k],
{
    assert forall|k: int, l: int| 0 <= k <= l < states.len() implies states[l] <= states[k] by {
        lemma_market_nonincreasing(states, reaches, k, l);
    }
    assert forall|k: int| 0 <= k < states.len() implies 0 <= states[k] by {
        lemma_market_nonneg(states, reaches, k);
    }
}

proof fn lemma_market_nonincreasing(states: Seq<int>, reaches: Seq<int>, k: int, l: int)
    requires
        states.len() == reaches.len() + 1,
        forall|j: int|
            0 <= j < reaches.len() ==> states[j + 1] == #[trigger] market_step(
                states[j],
                reaches[j],
            ),
        0 <= k <= l < states.len(),
    ensures
        states[l] <= states[k],
    decreases l - k,
{
    if k < l {
        lemma_market_nonincreasing(states, reaches, k, l - 1);
        assert(states[l] == market_step(states[l - 1], reaches[l - 1]));
    }
}

proof fn lemma_market_nonneg(states: Seq<int>, reaches: Seq<int>, k: int)
    requires
        states.len() == reaches.len() + 1,
        0 <= states[0],
        forall|j: int|
            0 <= j < reaches.len() ==> states[j + 1] == #[trigger] market_step(
                states[j],
                reaches[j],
            ),
        0 <= k < states.len(),
    ensures
        0 <= states[k],
    decreases k,
{
    if k > 0 {
        lemma_market_nonneg(states, reaches, k - 1);
        assert(states[k] == market_step(states[k - 1], reaches[k - 1]));
    }
}

/// A business, created against finite market demand.
pub struct Business {
    /// Minimum education level required for ownership or employment.
    pub minimum_education_level: EducationLevel,
    /// Amount of the population that marketing will roughly reach; its
    /// derivation from the reach percentage and the product demand is a
    /// declared extension point and stays untouched here.
    pub expected_marketing_reach: i32,
    /// Balance in milli-currency.
    pub balance: i64,
}

/// The random scalar that widens a marketing range, in hundredths:
/// the common tier keeps the range (scalar 1.00), a rarer tier scales it
/// into 1.50..3.19, the rarest into 5.00..9.99.
pub open spec fn marketing_multiplier_ok(m: int) -> bool {
    m == 100 || 150 <= m <= 319 || 500 <= m <= 999
}

impl Business {
    pub fn new(minimum_education_level: EducationLevel) -> (b: Business)
        ensures
            b.minimum_education_level == minimum_education_level,
            b.expected_marketing_reach == 0,
            b.balance == 0,
    {
        Business { minimum_education_level, expected_marketing_reach: 0, balance: 0 }
    }

    /// Widens `[min, max]` (centi-percent) by a tiered random scalar — drawn
    /// from a second, nested weighted choice with weights 75/20/5 — and then
    /// draws the reach percentage uniformly from the widened range. The
    /// result never falls below `min` (the scalar is at least 1.00) and
    /// never exceeds `max` scaled by the largest scalar, 9.99.
    pub fn random_marketing_percentage_multiplyer(
        &self,
        min: i64,
        max: i64,
        rng: &mut RandomSource,
    ) -> (r: i64)
        requires
            0 <= min <= max <= 100_000,
        ensures
            min <= r,
            r <= max * 999 / 100,
            exists|m: int|
                #[trigger] marketing_multiplier_ok(m) && min * m / 100 <= r <= max * m / 100,
    {
        let tier_weights = weights3(75, 20, 5);
        let tier = match weighted_index(&tier_weights, rng) {
            Ok(i) => i,
            Err(_) => {
                proof {
                    assert(false);
                }
                0
            },
        };
        let mult: i64 = if tier == 1 {
            sample_between(rng, 150, 319)
        } else if tier == 2 {
            sample_between(rng, 500, 999)
        } else {
            100
        };
        proof {
            lemma_mul_inequality(min as int, max as int, mult as int);
            assert(min * mult <= i64::MAX && max * mult <= i64::MAX) by (nonlinear_arith)
                requires
                    0 <= min <= 100_000,
                    0 <= max <= 100_000,
                    0 <= mult <= 999,
            ;
        }
        let lo = mul_div(min, mult, 100);
        let hi = mul_div(max, mult, 100);
        proof {
            lemma_div_is_ordered(min * mult, max * mult, 100);
            lemma_mul_inequality(100, mult as int, min as int);
            lemma_div_is_ordered(min * 100, min * mult, 100);
            lemma_div_multiples_vanish(min as int, 100);
            lemma_mul_inequality(mult as int, 999, max as int);
            lemma_div_is_ordered(max * mult, max * 999, 100);
        }
        let r = sample_between(rng, lo, hi);
        proof {
            assert(marketing_multiplier_ok(mult as int) && min * (mult as int) / 100 <= r
                <= max * (mult as int) / 100);
        }
        r
    }

    /// Attempts to create one business against the remaining market
    /// capacity: draws a minimum education level from the configured
    /// distribution, samples a marketing reach whose base range depends on
    /// that level, and commits — reach subtracted from the remaining
    /// capacity — exactly when the capacity covers the reach. A rejected
    /// attempt returns `false` and mutates nothing, neither the market nor
    /// the business. Every possible reach lies in 0.10%..=14.98% of the
    /// market, so an attempt against capacity of at least 14.98% always
    /// commits.
    pub fn generate(
        &mut self,
        config: &Config,
        product_type: ProductType,
        product_demand: i64,
        market: &mut MarketState,
        rng: &mut RandomSource,
    ) -> (ok: bool)
        requires
            config.wf(),
            old(market).wf(),
        ensures
            final(market).wf(),
            final(market).remaining_market_percentage <= old(market).remaining_market_percentage,
            !ok ==> *final(market) == *old(market),
            !ok ==> *final(self) == *old(self),
            ok ==> 10 <= old(market).remaining_market_percentage
                - final(market).remaining_market_percentage <= 1498,
            ok ==> config.education_weights@[final(self).minimum_education_level.index() as int]
                > 0,
            old(market).remaining_market_percentage >= 1498 ==> ok,
            final(self).expected_marketing_reach == old(self).expected_marketing_reach,
            final(self).balance == old(self).balance,
    {
        let minimum_education_level = generate_education_level(config, rng);

        let (base_min, base_max): (i64, i64) = match minimum_education_level {
            EducationLevel::NoFormalEducation => (10, 30),
            EducationLevel::HighSchoolDiploma => (10, 40),
            EducationLevel::College => (40, 70),
            EducationLevel::AssociateDegree => (50, 100),
            EducationLevel::Bachelors => (70, 110),
            EducationLevel::AdvancedDegree => (80, 150),
        };
        let marketing_reach_percentage = self.random_marketing_percentage_multiplyer(
            base_min,
            base_max,
            rng,
        );

        let committed = market.try_claim(marketing_reach_percentage);
        if !committed {
            return false;
        }
        self.minimum_education_level = minimum_education_level;

        // Placeholder product price; deriving the required stock from reach,
        // demand and price is a declared extension point.
        let _product_price = rng.next_in(2, 99);

        true
    }
}

} // verus!
