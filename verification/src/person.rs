//! People: randomized generation of demographic, financial and behavioral
//! attributes, the affordability rules that evolve them, and zero-sum
//! balance transfers.
//!
//! Money is in milli-currency throughout (`1_000` is one currency unit);
//! salaries are annual. Percentages drawn during demand generation are in
//! ten-thousandths of a percent, so every sampled precision from the demand
//! tables fits one integer scale.

use vstd::prelude::*;
use crate::business::Business;
use crate::business::DemandLedger;
use crate::business::DemandTable;
use crate::business::ProductType;
use crate::config::Config;
use crate::config::generate_education_level;
use crate::fixed::MAX_BALANCE;
use crate::fixed::MAX_DEBT;
use crate::fixed::MAX_DEMAND;
use crate::fixed::MAX_SALARY;
use crate::fixed::mul_div;
use crate::rng::RandomSource;
use crate::sampling::sample_between;
use crate::sampling::weighted_index;
use crate::sampling::weights2;
use crate::sampling::weights4;
use crate::sampling::weights6;
use vstd::arithmetic::div_mod::lemma_div_is_ordered;
use vstd::arithmetic::div_mod::lemma_div_nonincreasing;
use vstd::arithmetic::div_mod::lemma_div_pos_is_pos;
use vstd::arithmetic::div_mod::lemma_mod_multiples_basic;
use vstd::arithmetic::mul::lemma_mul_inequality;

verus! {

/// Ordered education tier; drives salary ranges, spending behaviour and
/// marketing reach. Immutable once assigned to a person.
#[derive(Clone, Copy, PartialEq, Eq, Hash, Structural, Debug)]
pub enum EducationLevel {
    NoFormalEducation,
    HighSchoolDiploma,
    College,
    AssociateDegree,
    Bachelors,
    AdvancedDegree,
}

impl EducationLevel {
    /// Position of the tier in declaration order; the index into the
    /// configuration's weight and salary tables.
    pub open spec fn index(self) -> int {
        match self {
            EducationLevel::NoFormalEducation => 0,
            EducationLevel::HighSchoolDiploma => 1,
            EducationLevel::College => 2,
            EducationLevel::AssociateDegree => 3,
            EducationLevel::Bachelors => 4,
            EducationLevel::AdvancedDegree => 5,
        }
    }

    pub fn as_index(&self) -> (i: usize)
        ensures
            i == self.index(),
            i < 6,
    {
        match self {
            EducationLevel::NoFormalEducation => 0,
            EducationLevel::HighSchoolDiploma => 1,
            EducationLevel::College => 2,
            EducationLevel::AssociateDegree => 3,
            EducationLevel::Bachelors => 4,
            EducationLevel::AdvancedDegree => 5,
        }
    }

    pub fn from_index(i: usize) -> (level: EducationLevel)
        requires
            i < 6,
        ensures
            level.index() == i,
    {
        match i {
            0 => EducationLevel::NoFormalEducation,
            1 => EducationLevel::HighSchoolDiploma,
            2 => EducationLevel::College,
            3 => EducationLevel::AssociateDegree,
            4 => EducationLevel::Bachelors,
            _ => EducationLevel::AdvancedDegree,
        }
    }
}

/// A person's employment; indices refer to an externally owned business
/// arena and are never dereferenced here.
#[derive(Clone, Copy, PartialEq, Eq, Structural, Debug)]
pub enum Job {
    BusinessOwner(usize),
    Employee(usize),
    Unemployed,
}

/// How aggressively an individual converts balance and salary into demand.
/// The tiers select structurally different demand formulas and are not
/// ordered like education.
#[derive(Clone, Copy, PartialEq, Eq, Hash, Structural, Debug)]
pub enum SpendingBehaviour {
    One,
    Two,
    Three,
    Four,
}

/// A day and month of the simulated 30-day/12-month calendar.
#[derive(Clone, Copy, PartialEq, Eq, Structural, Debug)]
pub struct Birthday {
    /// 1..=30
    pub day: i32,
    /// 1..=12
    pub month: i32,
}

impl Birthday {
    pub open spec fn wf(self) -> bool {
        1 <= self.day <= 30 && 1 <= self.month <= 12
    }

    /// A uniformly random birthday.
    pub fn generate(rng: &mut RandomSource) -> (b: Birthday)
        ensures
            b.wf(),
    {
        let day = rng.next_in(1, 30) as i32;
        let month = rng.next_in(1, 12) as i32;
        Birthday { day, month }
    }
}

/// The calendar's current day and month, supplied by the external calendar.
#[derive(Clone, Copy, PartialEq, Eq, Structural, Debug)]
pub struct Date {
    pub day: i32,
    pub month: i32,
}

/// An expected annual salary range, in milli-currency.
#[derive(Clone, Copy, PartialEq, Eq, Structural, Debug)]
pub struct SalaryRange {
    pub low: i64,
    pub high: i64,
}

/// The daily food-spending tier the affordability ladder assigns for a
/// balance and a monthly debt cost, given the draw `middle` (2 or 3) used in
/// the probabilistic middle rung. Thresholds are monthly totals over a
/// 30-day month, in milli-currency: healthy 120, survivable 90, unhealthy 60
/// currency units on top of the debt cost.
pub open spec fn spec_food_tier(balance: int, debt: int, middle: int) -> int {
    if balance > debt + 120_000 {
        4
    } else if balance > debt + 90_000 {
        3
    } else if balance > debt + 60_000 {
        middle
    } else {
        1
    }
}

/// The food-spending tier is monotonic in balance, holding debt and the
/// middle-rung draw fixed: increasing balance never decreases the tier.
pub proof fn lemma_food_tier_monotonic(b1: int, b2: int, debt: int, middle: int)
    requires
        b1 <= b2,
        2 <= middle <= 3,
    ensures
        spec_food_tier(b1, debt, middle) <= spec_food_tier(b2, debt, middle),
{
}

/// The balance-to-salary ratio applied in thousandths: `ratio == 535` means
/// a balance of 53.5% of the expected salary.
pub open spec fn ratio_of_salary(expected_salary: int, ratio: int) -> int {
    expected_salary * ratio / 1000
}

/// The balance a generated person starts with: a sampled fraction (53.5% to
/// 214.0%) of the expected salary when there is one, a flat range of 50 to
/// 1200 currency units otherwise.
pub open spec fn balance_rule(expected_salary: int, balance: int) -> bool {
    if expected_salary > 0 {
        exists|ratio: int|
            535 <= ratio <= 2140 && balance == #[trigger] ratio_of_salary(expected_salary, ratio)
    } else {
        50_000 <= balance <= 1_200_000
    }
}

/// The sampled demand percentages a spending-behaviour tier admits, both in
/// ten-thousandths of a percent. `bp` is the share of balance, `sp` the
/// share of monthly salary; the divisibility conditions pin each tier's
/// sampling precision (e.g. tier One draws the balance share at two decimal
/// places of a percent).
pub open spec fn demand_sample_ok(sb: SpendingBehaviour, bp: int, sp: int) -> bool {
    match sb {
        SpendingBehaviour::One => 4_000 <= bp <= 10_000 && bp % 100 == 0 && 10_000 <= sp
            <= 40_000 && sp % 10_000 == 0,
        SpendingBehaviour::Two => 800 <= bp <= 3_000 && bp % 10 == 0 && 10_000 <= sp <= 30_000
            && sp % 10_000 == 0,
        SpendingBehaviour::Three => 200 <= bp <= 2_500 && bp % 10 == 0 && 100 <= sp <= 500
            && sp % 100 == 0,
        SpendingBehaviour::Four => 50 <= bp <= 580 && sp == 0,
    }
}

/// The weight a spending-behaviour tier carries in the distribution a
/// person draws from: business owners use one fixed table; everyone else
/// the table of their education group (College and AssociateDegree share
/// one, Bachelors and AdvancedDegree another). Each table sums to 100.
pub open spec fn spending_behaviour_weight(
    job: Job,
    level: EducationLevel,
    sb: SpendingBehaviour,
) -> int {
    match job {
        Job::BusinessOwner(_) => match sb {
            SpendingBehaviour::One => 1,
            SpendingBehaviour::Two => 4,
            SpendingBehaviour::Three => 25,
            SpendingBehaviour::Four => 70,
        },
        _ => match level {
            EducationLevel::NoFormalEducation => match sb {
                SpendingBehaviour::One => 75,
                SpendingBehaviour::Two => 20,
                SpendingBehaviour::Three => 4,
                SpendingBehaviour::Four => 1,
            },
            EducationLevel::HighSchoolDiploma => match sb {
                SpendingBehaviour::One => 20,
                SpendingBehaviour::Two => 70,
                SpendingBehaviour::Three => 9,
                SpendingBehaviour::Four => 1,
            },
            EducationLevel::College | EducationLevel::AssociateDegree => match sb {
                SpendingBehaviour::One => 3,
                SpendingBehaviour::Two => 10,
                SpendingBehaviour::Three => 82,
                SpendingBehaviour::Four => 5,
            },
            EducationLevel::Bachelors | EducationLevel::AdvancedDegree => match sb {
                SpendingBehaviour::One => 1,
                SpendingBehaviour::Two => 4,
                SpendingBehaviour::Three => 77,
                SpendingBehaviour::Four => 18,
            },
        },
    }
}

/// Total demand from a balance, an annual salary and the two sampled
/// percentages: `balance * bp%` plus `monthly salary * sp%`, with the
/// percentage scale divided back out.
pub open spec fn demand_value(balance: int, salary: int, bp: int, sp: int) -> int {
    balance * bp / 1_000_000 + (salary / 12) * sp / 1_000_000
}

/// What remains spendable after the affordability deductions — a tenth of
/// the balance, a tenth of one month's salary, the monthly debt cost and a
/// month of food spending — must strictly exceed the price.
pub open spec fn spec_can_afford(
    balance: int,
    salary: int,
    debt: int,
    food: int,
    price: int,
) -> bool {
    balance - balance / 10 - salary / 12 / 10 - debt - 30_000 * food > price
}

/// An individual of the simulated population.
#[derive(Clone, Copy, Debug)]
pub struct Person {
    pub id: usize,

    pub education_level: EducationLevel,
    /// Years spent in college or university.
    pub years_in_higher_education: i32,
    pub job: Job,
    /// Aggregate monthly cost of the person's debts, in milli-currency;
    /// produced by the external debt generator and only consumed here.
    pub monthly_debt_cost: i64,

    pub age: i32,
    pub birthday: Birthday,
    /// Balance in milli-currency.
    pub balance: i64,

    /// Expected annual salary range for the person's education level.
    pub expected_salary_range: SalaryRange,
    /// Annual salary in milli-currency.
    pub salary: i64,

    pub spending_behaviour: SpendingBehaviour,
    /// Food-quality tier 1..=4, in units per day, not currency.
    pub daily_food_spending: i32,

    /// Per-product demand, in milli-currency.
    pub demand: DemandTable,
    /// The business the individual will buy from this month.
    pub business_this_month: usize,

    pub health_percentage: i32,
    pub hospitalisation_percentage: i32,
    pub hospitalisation_count: i32,
    pub days_until_death: Option<i32>,
    pub days_left_in_hospital: Option<i32>,
    pub maximum_health: i32,

    pub homeless: bool,
}

impl Person {
    /// Bounds the affordability engine relies on: a food tier on the ladder,
    /// and debt and salary within the model's caps.
    pub open spec fn wf(self) -> bool {
        &&& 0 <= self.monthly_debt_cost <= MAX_DEBT
        &&& 1 <= self.daily_food_spending <= 4
        &&& 0 <= self.salary <= MAX_SALARY
    }

    /// An explicit blank person, in place of an implicit default: every
    /// generation step's precondition is visible from here on.
    pub fn new() -> (p: Person)
        ensures
            p.wf(),
            p.id == 0,
            p.education_level == EducationLevel::NoFormalEducation,
            p.years_in_higher_education == 0,
            p.job == Job::Unemployed,
            p.monthly_debt_cost == 0,
            p.age == 0,
            p.birthday.wf(),
            p.balance == 0,
            p.expected_salary_range == (SalaryRange { low: 0, high: 0 }),
            p.salary == 0,
            p.spending_behaviour == SpendingBehaviour::One,
            p.daily_food_spending == 4,
            forall|pt: ProductType| (#[trigger] p.demand.spec_get(pt)) is None,
            p.homeless == false,
    {
        Person {
            id: 0,
            education_level: EducationLevel::NoFormalEducation,
            years_in_higher_education: 0,
            job: Job::Unemployed,
            monthly_debt_cost: 0,
            age: 0,
            birthday: Birthday { day: 1, month: 1 },
            balance: 0,
            expected_salary_range: SalaryRange { low: 0, high: 0 },
            salary: 0,
            spending_behaviour: SpendingBehaviour::One,
            daily_food_spending: 4,
            demand: DemandTable::empty(),
            business_this_month: 0,
            health_percentage: 100,
            hospitalisation_percentage: 0,
            hospitalisation_count: 0,
            days_until_death: None,
            days_left_in_hospital: None,
            maximum_health: 100,
            homeless: false,
        }
    }

    /// The midpoint of the expected salary range, used as the expected
    /// salary during generation.
    pub open spec fn spec_expected_salary(self) -> int {
        (self.expected_salary_range.low + self.expected_salary_range.high) / 2
    }

    pub fn get_monthly_debt_cost(&self) -> (c: i64)
        ensures
            c == self.monthly_debt_cost,
    {
        self.monthly_debt_cost
    }

    /// Plain affordability: the balance strictly covers the price, with no
    /// deductions. Used by the food-spending ladder, bypassing `can_afford`'s
    /// deductions by design to avoid circularity.
    pub fn can_afford_bare(&self, price: i64) -> (r: bool)
        ensures
            r == (self.balance - price > 0),
    {
        (self.balance as i128) - (price as i128) > 0
    }

    /// Affordability after deductions: a tenth of the balance, a tenth of a
    /// month's salary, the monthly debt cost and a month of food spending
    /// are held back, and what remains must strictly exceed the price.
    pub fn can_afford(&self, price: i64) -> (r: bool)
        requires
            self.wf(),
            0 <= price,
        ensures
            r == spec_can_afford(
                self.balance as int,
                self.salary as int,
                self.monthly_debt_cost as int,
                self.daily_food_spending as int,
                price as int,
            ),
    {
        if self.balance < 0 {
            proof {
                let b = self.balance as int;
                assert(b - b / 10 <= 0) by (nonlinear_arith)
                    requires
                        b < 0,
                ;
                lemma_div_pos_is_pos(self.salary as int, 12);
                lemma_div_pos_is_pos(self.salary as int / 12, 10);
            }
            return false;
        }
        proof {
            lemma_div_nonincreasing(self.balance as int, 10);
            lemma_div_nonincreasing(self.salary as int, 12);
            lemma_div_nonincreasing(self.salary as int / 12, 10);
            lemma_div_pos_is_pos(self.balance as int, 10);
            lemma_div_pos_is_pos(self.salary as int, 12);
            lemma_div_pos_is_pos(self.salary as int / 12, 10);
        }
        let tenth = ((self.balance as u64) / 10) as i64;
        let salary_cut = (((self.salary as u64) / 12) / 10) as i64;
        let food_cut = (self.daily_food_spending as i64) * 30_000;
        let cut = (self.balance as i128) - (tenth as i128) - (salary_cut as i128) - (
        self.monthly_debt_cost as i128) - (food_cut as i128);
        cut > (price as i128)
    }

    /// Unconditional transfer from a business to this person; the zero-sum
    /// counterpart is debited the same amount. Callers check affordability
    /// first — this primitive does not.
    pub fn business_pay(&mut self, payee: &mut Business, amount: i64)
        requires
            i64::MIN <= old(self).balance + amount <= i64::MAX,
            i64::MIN <= old(payee).balance - amount <= i64::MAX,
        ensures
            final(self).balance == old(self).balance + amount,
            final(payee).balance == old(payee).balance - amount,
            final(self).balance + final(payee).balance == old(self).balance + old(payee).balance,
            *final(self) == (Person { balance: final(self).balance, ..*old(self) }),
            *final(payee) == (Business { balance: final(payee).balance, ..*old(payee) }),
    {
        self.balance = self.balance + amount;
        payee.balance = payee.balance - amount;
    }

    /// Tax transfer into the externally owned government accumulator: a
    /// negative amount is silently ignored; otherwise the person is debited
    /// and the government credited by exactly the same amount, in the same
    /// milli-currency unit on both sides.
    pub fn pay_tax(&mut self, government_balance: &mut u128, amount: i64)
        requires
            amount >= 0 ==> i64::MIN <= old(self).balance - amount,
            amount >= 0 ==> *old(government_balance) + amount <= u128::MAX,
        ensures
            amount < 0 ==> *final(self) == *old(self) && *final(government_balance) == *old(
                government_balance,
            ),
            amount >= 0 ==> final(self).balance == old(self).balance - amount,
            amount >= 0 ==> *final(government_balance) == *old(government_balance) + amount,
            amount >= 0 ==> final(self).balance + *final(government_balance) == old(self).balance
                + *old(government_balance),
            *final(self) == (Person { balance: final(self).balance, ..*old(self) }),
    {
        if amount < 0 {
            return ;
        }
        self.balance = self.balance - amount;
        *government_balance = *government_balance + (amount as u128);
    }

    /// The demand written for the leisure product, zero while none is
    /// recorded yet.
    pub open spec fn spec_leisure_demand(self) -> int {
        match self.demand.spec_get(ProductType::Leisure) {
            Some(d) => d as int,
            None => 0,
        }
    }

    /// The affordability ladder for daily food spending: tier 4 when the
    /// balance alone covers the healthy monthly total, 3 for the survivable
    /// total, a weighted draw between 3 and 2 — odds set by spending
    /// behaviour — for the unhealthy total, and 1 otherwise.
    pub fn calculate_daily_food_spending(&self, rng: &mut RandomSource) -> (t: i32)
        requires
            self.wf(),
        ensures
            1 <= t <= 4,
            exists|middle: int|
                2 <= middle <= 3 && t == #[trigger] spec_food_tier(
                    self.balance as int,
                    self.monthly_debt_cost as int,
                    middle,
                ),
    {
        let debt_cost = self.monthly_debt_cost;
        let healthy_cost = debt_cost + 120_000;
        let survivable_cost = debt_cost + 90_000;
        let unhealthy_cost = debt_cost + 60_000;

        if self.can_afford_bare(healthy_cost) {
            proof {
                assert(spec_food_tier(self.balance as int, debt_cost as int, 2) == 4);
            }
            4
        } else if self.can_afford_bare(survivable_cost) {
            proof {
                assert(spec_food_tier(self.balance as int, debt_cost as int, 2) == 3);
            }
            3
        } else if self.can_afford_bare(unhealthy_cost) {
            let (tier_three_chance, tier_two_chance): (u64, u64) = match self.spending_behaviour {
                SpendingBehaviour::One => (90, 10),
                SpendingBehaviour::Two => (55, 45),
                SpendingBehaviour::Three => (35, 65),
                SpendingBehaviour::Four => (10, 90),
            };
            let odds = weights2(tier_three_chance, tier_two_chance);
            let choice = match weighted_index(&odds, rng) {
                Ok(i) => i,
                Err(_) => {
                    proof {
                        assert(false);
                    }
                    0
                },
            };
            if choice == 0 {
                proof {
                    assert(spec_food_tier(self.balance as int, debt_cost as int, 3) == 3);
                }
                3
            } else {
                proof {
                    assert(spec_food_tier(self.balance as int, debt_cost as int, 2) == 2);
                }
                2
            }
        } else {
            proof {
                assert(spec_food_tier(self.balance as int, debt_cost as int, 2) == 1);
            }
            1
        }
    }

    /// Recomputes the daily food-spending tier and redraws homelessness
    /// (odds about 0.17%: one value of 589 equally likely draws). Runs
    /// whenever the salary changes and at the start of each month. Business
    /// owners are exempt: their food policy is a declared extension point,
    /// so for them the call is a no-op.
    pub fn generate_daily_food_spending(&mut self, rng: &mut RandomSource)
        requires
            old(self).wf(),
        ensures
            old(self).job matches Job::BusinessOwner(_) ==> *final(self) == *old(self),
            !(old(self).job matches Job::BusinessOwner(_)) ==> exists|middle: int|
                2 <= middle <= 3 && final(self).daily_food_spending == #[trigger] spec_food_tier(
                    old(self).balance as int,
                    old(self).monthly_debt_cost as int,
                    middle,
                ),
            !(old(self).job matches Job::BusinessOwner(_)) ==> *final(self) == (Person {
                daily_food_spending: final(self).daily_food_spending,
                homeless: final(self).homeless,
                ..*old(self)
            }),
            final(self).wf(),
    {
        match self.job {
            Job::BusinessOwner(_) => {
                return ;
            },
            _ => {},
        }
        let t = self.calculate_daily_food_spending(rng);
        self.daily_food_spending = t;
        let draw = rng.next_in(0, 588);
        self.homeless = draw == 588;
    }

    /// Two-stage age draw: one concrete age is pre-selected uniformly
    /// within each bucket, then one of the six candidates is chosen by
    /// bucket weight. The stages are kept separate deliberately: collapsing
    /// them into a single uniform draw would change the distribution's
    /// shape at the bucket edges.
    pub fn generate_age(&self, rng: &mut RandomSource) -> (age: i32)
        ensures
            0 <= age <= 90,
    {
        let child = rng.next_in(0, 18);
        let young_adult = rng.next_in(19, 25);
        let adult = rng.next_in(26, 34);
        let middle_aged = rng.next_in(35, 54);
        let older = rng.next_in(55, 64);
        let senior = rng.next_in(65, 90);
        let bucket_weights = weights6(24, 9, 12, 25, 13, 17);
        let i = match weighted_index(&bucket_weights, rng) {
            Ok(i) => i,
            Err(_) => {
                proof {
                    assert(false);
                }
                0
            },
        };
        let picked = if i == 0 {
            child
        } else if i == 1 {
            young_adult
        } else if i == 2 {
            adult
        } else if i == 3 {
            middle_aged
        } else if i == 4 {
            older
        } else {
            senior
        };
        picked as i32
    }

    /// Spending behaviour: a business owner draws from a fixed
    /// distribution; anyone else draws from the distribution of their
    /// education group. The weight tables in the body are the ones
    /// `spending_behaviour_weight` states; since every tier carries
    /// positive weight in every table, every outcome is possible.
    pub fn generate_spending_behaviour(&self, rng: &mut RandomSource) -> (sb: SpendingBehaviour)
        ensures
            spending_behaviour_weight(self.job, self.education_level, sb) > 0,
    {
        let is_owner = matches!(self.job, Job::BusinessOwner(_));
        let w = if is_owner {
            weights4(1, 4, 25, 70)
        } else {
            match self.education_level {
                EducationLevel::NoFormalEducation => weights4(75, 20, 4, 1),
                EducationLevel::HighSchoolDiploma => weights4(20, 70, 9, 1),
                EducationLevel::College | EducationLevel::AssociateDegree => weights4(
                    3,
                    10,
                    82,
                    5,
                ),
                EducationLevel::Bachelors | EducationLevel::AdvancedDegree => weights4(
                    1,
                    4,
                    77,
                    18,
                ),
            }
        };
        let i = match weighted_index(&w, rng) {
            Ok(i) => i,
            Err(_) => {
                proof {
                    assert(false);
                }
                0
            },
        };
        if i == 0 {
            SpendingBehaviour::One
        } else if i == 1 {
            SpendingBehaviour::Two
        } else if i == 2 {
            SpendingBehaviour::Three
        } else {
            SpendingBehaviour::Four
        }
    }

    /// The starting balance: the expected salary times a sampled ratio in
    /// 0.535..=2.140 (three decimals) when there is a salary expectation,
    /// otherwise a flat draw of 50 to 1200 currency units (three decimals).
    pub fn generate_balance(&self, salary: i64, rng: &mut RandomSource) -> (b: i64)
        requires
            0 <= salary <= MAX_SALARY,
        ensures
            balance_rule(salary as int, b as int),
            salary > 0 ==> b >= salary * 535 / 1000,
            0 <= b <= MAX_BALANCE,
    {
        if salary > 0 {
            let ratio = sample_between(rng, 535, 2140);
            proof {
                assert(salary * ratio <= MAX_SALARY * 2140) by (nonlinear_arith)
                    requires
                        0 <= salary <= MAX_SALARY,
                        0 <= ratio <= 2140,
                ;
            }
            let b = mul_div(salary, ratio, 1000);
            proof {
                lemma_div_is_ordered(salary * ratio, MAX_SALARY * 2140, 1000);
                lemma_mul_inequality(535, ratio as int, salary as int);
                lemma_div_is_ordered(salary * 535, salary * ratio, 1000);
                assert(b == ratio_of_salary(salary as int, ratio as int));
            }
            b
        } else {
            sample_between(rng, 50_000, 1_200_000)
        }
    }

    /// Draws the two demand percentages for the person's spending-behaviour
    /// tier, computes the total demand from balance and monthly salary, and
    /// writes it both into the person's own demand table and — strictly
    /// additively, exactly once — into the shared ledger.
    pub fn generate_demand(
        &mut self,
        salary: i64,
        product_demand: &mut DemandLedger,
        rng: &mut RandomSource,
    )
        requires
            0 <= salary <= MAX_SALARY,
            0 <= old(self).balance <= MAX_BALANCE,
            old(product_demand).spec_total(ProductType::Leisure) + MAX_DEMAND <= i64::MAX,
        ensures
            *final(self) == (Person { demand: final(self).demand, ..*old(self) }),
            final(self).demand.complete(),
            0 <= final(self).spec_leisure_demand() <= MAX_DEMAND,
            final(product_demand).spec_total(ProductType::Leisure)
                == old(product_demand).spec_total(ProductType::Leisure)
                + final(self).spec_leisure_demand(),
            exists|bp: int, sp: int|
                #[trigger] demand_sample_ok(old(self).spending_behaviour, bp, sp)
                    && final(self).spec_leisure_demand() == demand_value(
                    old(self).balance as int,
                    salary as int,
                    bp,
                    sp,
                ),
    {
        let bal = self.balance;
        let ghost sb = self.spending_behaviour;
        let (bp, sp): (i64, i64) = match self.spending_behaviour {
            SpendingBehaviour::One => {
                let b = sample_between(rng, 40, 100);
                let s = rng.next_in(1, 4) as i64;
                proof {
                    lemma_mod_multiples_basic(b as int, 100);
                    lemma_mod_multiples_basic(s as int, 10_000);
                }
                (b * 100, s * 10_000)
            },
            SpendingBehaviour::Two => {
                let b = sample_between(rng, 80, 300);
                let s = rng.next_in(1, 3) as i64;
                proof {
                    lemma_mod_multiples_basic(b as int, 10);
                    lemma_mod_multiples_basic(s as int, 10_000);
                }
                (b * 10, s * 10_000)
            },
            SpendingBehaviour::Three => {
                let b = sample_between(rng, 20, 250);
                let s = sample_between(rng, 1, 5);
                proof {
                    lemma_mod_multiples_basic(b as int, 10);
                    lemma_mod_multiples_basic(s as int, 100);
                }
                (b * 10, s * 100)
            },
            SpendingBehaviour::Four => {
                let b = sample_between(rng, 50, 580);
                (b, 0)
            },
        };
        proof {
            assert(demand_sample_ok(sb, bp as int, sp as int));
            assert(bal * bp <= 21_400_000_000_000_000) by (nonlinear_arith)
                requires
                    0 <= bal <= MAX_BALANCE,
                    0 <= bp <= 10_000,
            ;
        }
        let balance_part = mul_div(bal, bp, 1_000_000);
        let monthly = mul_div(salary, 1, 12);
        proof {
            lemma_div_is_ordered(bal * bp, 21_400_000_000_000_000, 1_000_000);
            lemma_div_is_ordered(salary as int, MAX_SALARY as int, 12);
            assert(monthly * sp <= 3_333_333_333_320_000) by (nonlinear_arith)
                requires
                    0 <= monthly <= 83_333_333_333i64,
                    0 <= sp <= 40_000,
            ;
        }
        let salary_part = mul_div(monthly, sp, 1_000_000);
        proof {
            lemma_div_is_ordered(monthly * sp, 3_333_333_333_320_000, 1_000_000);
        }
        let total_demand = balance_part + salary_part;
        self.demand.set(ProductType::Leisure, total_demand);
        product_demand.add(ProductType::Leisure, total_demand);
        proof {
            assert(final(self).spec_leisure_demand() == demand_value(
                bal as int,
                salary as int,
                bp as int,
                sp as int,
            ));
        }
    }

    /// Generates one individual: age, education, expected salary range,
    /// spending behaviour, starting balance, birthday and demand, writing
    /// the demand into the shared ledger exactly once. Health and debts
    /// belong to external collaborators, so the health fields and
    /// `monthly_debt_cost` pass through unchanged.
    pub fn generate(
        &mut self,
        config: &Config,
        product_demand: &mut DemandLedger,
        id: usize,
        rng: &mut RandomSource,
    )
        requires
            config.wf(),
            old(self).wf(),
            old(product_demand).spec_total(ProductType::Leisure) + MAX_DEMAND <= i64::MAX,
        ensures
            final(self).wf(),
            final(self).id == id,
            final(self).homeless == false,
            final(self).daily_food_spending == 4,
            0 <= final(self).age <= 90,
            final(self).birthday.wf(),
            final(self).expected_salary_range
                == config.salary_ranges@[final(self).education_level.index() as int],
            config.education_weights@[final(self).education_level.index() as int] > 0,
            balance_rule(final(self).spec_expected_salary(), final(self).balance as int),
            0 <= final(self).balance <= MAX_BALANCE,
            final(self).demand.complete(),
            0 <= final(self).spec_leisure_demand() <= MAX_DEMAND,
            final(product_demand).spec_total(ProductType::Leisure)
                == old(product_demand).spec_total(ProductType::Leisure)
                + final(self).spec_leisure_demand(),
            exists|bp: int, sp: int|
                #[trigger] demand_sample_ok(final(self).spending_behaviour, bp, sp)
                    && final(self).spec_leisure_demand() == demand_value(
                    final(self).balance as int,
                    final(self).spec_expected_salary(),
                    bp,
                    sp,
                ),
            final(self).monthly_debt_cost == old(self).monthly_debt_cost,
            final(self).job == old(self).job,
            final(self).salary == old(self).salary,
    {
        self.id = id;
        // A safe default until the first affordability pass runs.
        self.daily_food_spending = 4;
        self.homeless = false;
        self.age = self.generate_age(rng);
        self.education_level = generate_education_level(config, rng);
        self.expected_salary_range = config.expected_salary_range(self.education_level);
        let expected_salary = (((self.expected_salary_range.low as u64) + (
        self.expected_salary_range.high as u64)) / 2) as i64;
        proof {
            let lo = self.expected_salary_range.low as int;
            let hi = self.expected_salary_range.high as int;
            lemma_div_is_ordered(lo + hi, 2 * MAX_SALARY, 2);
            lemma_div_pos_is_pos(lo + hi, 2);
        }
        self.spending_behaviour = self.generate_spending_behaviour(rng);
        self.balance = self.generate_balance(expected_salary, rng);
        self.birthday = Birthday::generate(rng);
        self.generate_demand(expected_salary, product_demand, rng);
    }

    /// Ages the person by one year when the calendar date matches their
    /// birthday; any broader growing-up transition belongs to the external
    /// calendar layer.
    pub fn check_birthday(&mut self, date: &Date)
        requires
            old(self).age < i32::MAX,
        ensures
            date.day == old(self).birthday.day && date.month == old(self).birthday.month
                ==> *final(self) == (Person { age: (old(self).age + 1) as i32, ..*old(self) }),
            !(date.day == old(self).birthday.day && date.month == old(self).birthday.month)
                ==> *final(self) == *old(self),
    {
        if date.day == self.birthday.day && date.month == self.birthday.month {
            self.age = self.age + 1;
        }
    }
}

} // verus!
