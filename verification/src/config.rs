//! Simulation configuration: the population-wide education distribution and
//! the per-tier expected salary ranges, validated once at construction.

use vstd::prelude::*;
use crate::fixed::MAX_SALARY;
use crate::person::EducationLevel;
use crate::person::SalaryRange;
use crate::rng::RandomSource;
use crate::sampling::lemma_prefix_weight_monotonic;
use crate::sampling::prefix_weight;
use crate::sampling::total_weight;
use crate::sampling::weighted_index;

verus! {

/// Read-only simulation configuration.
pub struct Config {
    /// Weight of each education tier, indexed in the declaration order of
    /// `EducationLevel`. An ordered list keeps iteration and tie-break order
    /// explicit.
    pub education_weights: Vec<u64>,
    /// Expected annual salary range per education tier, in milli-currency,
    /// indexed like `education_weights`.
    pub salary_ranges: Vec<SalaryRange>,
}

impl Config {
    /// A valid configuration: one weight and one salary range per education
    /// tier, a positive total weight that the sampler can hold, and ordered
    /// non-negative salary bounds within the model's salary cap.
    pub open spec fn wf(self) -> bool {
        &&& self.education_weights@.len() == 6
        &&& 0 < total_weight(self.education_weights@) <= u64::MAX
        &&& self.salary_ranges@.len() == 6
        &&& forall|i: int|
            0 <= i < 6 ==> 0 <= (#[trigger] self.salary_ranges@[i]).low
                <= self.salary_ranges@[i].high <= MAX_SALARY
    }

    /// Validates and builds a configuration; `None` exactly when the inputs
    /// break one of the conditions of `wf`.
    pub fn new(education_weights: Vec<u64>, salary_ranges: Vec<SalaryRange>) -> (res: Option<
        Config,
    >)
        ensures
            res is Some <==> (Config { education_weights, salary_ranges }).wf(),
            res matches Some(c) ==> c == (Config { education_weights, salary_ranges }),
    {
        if education_weights.len() != 6 || salary_ranges.len() != 6 {
            return None;
        }
        let ghost ws = education_weights@;
        let mut total: u64 = 0;
        let mut idx: usize = 0;
        while idx < 6
            invariant
                ws == education_weights@,
                ws.len() == 6,
                idx <= 6,
                total == prefix_weight(ws, idx as int),
                prefix_weight(ws, idx as int) <= u64::MAX,
            decreases 6 - idx,
        {
            let next = total.checked_add(education_weights[idx]);
            match next {
                Some(t) => {
                    total = t;
                },
                None => {
                    proof {
                        lemma_prefix_weight_monotonic(ws, idx + 1, 6);
                    }
                    return None;
                },
            }
            idx = idx + 1;
        }
        if total == 0 {
            return None;
        }
        let mut j: usize = 0;
        while j < 6
            invariant
                salary_ranges@.len() == 6,
                j <= 6,
                forall|i: int|
                    0 <= i < j ==> 0 <= (#[trigger] salary_ranges@[i]).low
                        <= salary_ranges@[i].high <= MAX_SALARY,
            decreases 6 - j,
        {
            let r = salary_ranges[j];
            if r.low < 0 || r.low > r.high || r.high > MAX_SALARY {
                return None;
            }
            j = j + 1;
        }
        Some(Config { education_weights, salary_ranges })
    }

    /// The expected salary range for one education tier.
    pub fn expected_salary_range(&self, level: EducationLevel) -> (r: SalaryRange)
        requires
            self.wf(),
        ensures
            r == self.salary_ranges@[level.index() as int],
            0 <= r.low <= r.high <= MAX_SALARY,
    {
        salary_range_for(self, level)
    }
}

/// The expected salary range an education tier maps to.
pub fn salary_range_for(config: &Config, level: EducationLevel) -> (r: SalaryRange)
    requires
        config.wf(),
    ensures
        r == config.salary_ranges@[level.index() as int],
        0 <= r.low <= r.high <= MAX_SALARY,
{
    let i = level.as_index();
    config.salary_ranges[i]
}

/// Assigns an education tier by a weighted draw over the configured
/// population-wide distribution; the assigned tier always carries a
/// positive weight.
pub fn generate_education_level(config: &Config, rng: &mut RandomSource) -> (level:
    EducationLevel)
    requires
        config.wf(),
    ensures
        config.education_weights@[level.index() as int] > 0,
{
    let idx = match weighted_index(&config.education_weights, rng) {
        Ok(i) => i,
        Err(_) => {
            proof {
                assert(false);
            }
            0
        },
    };
    EducationLevel::from_index(idx)
}

} // verus!
