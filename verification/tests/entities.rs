use econgen::business::Business;
use econgen::business::DemandLedger;
use econgen::business::MarketState;
use econgen::business::ProductType;
use econgen::config::generate_education_level;
use econgen::config::Config;
use econgen::person::Birthday;
use econgen::person::Date;
use econgen::person::EducationLevel;
use econgen::person::Job;
use econgen::person::Person;
use econgen::person::SalaryRange;
use econgen::person::SpendingBehaviour;
use econgen::rng::RandomSource;

fn test_config() -> Config {
    let education_weights: Vec<u64> = vec![10, 25, 20, 10, 25, 10];
    let salary_ranges = vec![
        SalaryRange { low: 15_000_000, high: 25_000_000 },
        SalaryRange { low: 20_000_000, high: 35_000_000 },
        SalaryRange { low: 25_000_000, high: 45_000_000 },
        SalaryRange { low: 30_000_000, high: 50_000_000 },
        SalaryRange { low: 40_000_000, high: 80_000_000 },
        SalaryRange { low: 60_000_000, high: 120_000_000 },
    ];
    Config::new(education_weights, salary_ranges).unwrap()
}

#[test]
fn config_rejects_zero_total_weights() {
    let weights: Vec<u64> = vec![0; 6];
    let ranges = vec![SalaryRange { low: 0, high: 0 }; 6];
    assert!(Config::new(weights, ranges).is_none());
}

#[test]
fn config_rejects_inverted_salary_range() {
    let weights: Vec<u64> = vec![1; 6];
    let mut ranges = vec![SalaryRange { low: 0, high: 10 }; 6];
    ranges[3] = SalaryRange { low: 20, high: 10 };
    assert!(Config::new(weights, ranges).is_none());
}

#[test]
fn education_level_with_the_only_positive_weight_is_always_assigned() {
    let weights: Vec<u64> = vec![0, 0, 0, 0, 7, 0];
    let ranges = vec![SalaryRange { low: 0, high: 10 }; 6];
    let config = Config::new(weights, ranges).unwrap();
    let mut rng = RandomSource::from_seed(11);
    for _ in 0..200 {
        assert_eq!(generate_education_level(&config, &mut rng), EducationLevel::Bachelors);
    }
}

#[test]
fn market_rejection_leaves_capacity_unchanged() {
    // Remaining capacity 5.00%, claimed reach 7.20%: rejected, unchanged.
    let mut market = MarketState { remaining_market_percentage: 500 };
    let committed = market.try_claim(720);
    assert!(!committed);
    assert_eq!(market.remaining_market_percentage, 500);
}

#[test]
fn market_commit_decrements_exactly() {
    let mut market = MarketState::new();
    assert_eq!(market.remaining_market_percentage, 10_000);
    assert!(market.try_claim(720));
    assert_eq!(market.remaining_market_percentage, 9_280);
}

#[test]
fn business_generation_never_oversubscribes_the_market() {
    let config = test_config();
    let mut rng = RandomSource::from_seed(12);
    let mut market = MarketState::new();
    let mut previous = market.remaining_market_percentage;
    for _ in 0..300 {
        let mut business = Business::new(EducationLevel::NoFormalEducation);
        let _committed = business.generate(
            &config,
            ProductType::Leisure,
            1_000_000,
            &mut market,
            &mut rng,
        );
        let remaining = market.remaining_market_percentage;
        assert!(remaining <= previous);
        assert!(remaining >= 0);
        previous = remaining;
    }
}

#[test]
fn business_generation_against_tiny_capacity_is_rejected() {
    // The smallest possible reach is 0.10%, so 0.05% of remaining capacity
    // can never be claimed.
    let config = test_config();
    let mut rng = RandomSource::from_seed(13);
    let mut market = MarketState { remaining_market_percentage: 5 };
    for _ in 0..100 {
        let mut business = Business::new(EducationLevel::NoFormalEducation);
        let committed = business.generate(
            &config,
            ProductType::Leisure,
            1_000_000,
            &mut market,
            &mut rng,
        );
        assert!(!committed);
        assert_eq!(market.remaining_market_percentage, 5);
        assert_eq!(business.minimum_education_level, EducationLevel::NoFormalEducation);
        assert_eq!(business.expected_marketing_reach, 0);
        assert_eq!(business.balance, 0);
    }
}

#[test]
fn business_generation_with_ample_capacity_commits() {
    // Every possible reach is at most 14.98%, so a fresh market always
    // accepts the first business, decremented by 0.10%..=14.98%.
    let config = test_config();
    let mut rng = RandomSource::from_seed(27);
    for _ in 0..100 {
        let mut market = MarketState::new();
        let mut business = Business::new(EducationLevel::NoFormalEducation);
        let committed = business.generate(
            &config,
            ProductType::Leisure,
            1_000_000,
            &mut market,
            &mut rng,
        );
        assert!(committed);
        let claimed = 10_000 - market.remaining_market_percentage;
        assert!((10..=1498).contains(&claimed), "claimed: {}", claimed);
    }
}

#[test]
fn marketing_reach_stays_in_the_widened_range() {
    let business = Business::new(EducationLevel::NoFormalEducation);
    let mut rng = RandomSource::from_seed(14);
    for _ in 0..1_000 {
        // Base range 0.10%..0.30%, widened at most by 9.99.
        let reach = business.random_marketing_percentage_multiplyer(10, 30, &mut rng);
        assert!((10..=299).contains(&reach), "reach: {}", reach);
    }
}

#[test]
fn ledger_total_is_the_exact_sum_of_person_demands() {
    let config = test_config();
    let mut rng = RandomSource::from_seed(15);
    let mut ledger = DemandLedger::new();
    let mut sum: i64 = 0;
    for id in 0..50 {
        let mut person = Person::new();
        person.generate(&config, &mut ledger, id, &mut rng);
        sum += person.demand.get(ProductType::Leisure).unwrap();
    }
    assert_eq!(ledger.total_for(ProductType::Leisure), sum);
}

#[test]
fn generated_person_fields_are_in_range() {
    let config = test_config();
    let mut rng = RandomSource::from_seed(16);
    let mut ledger = DemandLedger::new();
    for id in 0..100 {
        let mut person = Person::new();
        person.generate(&config, &mut ledger, id, &mut rng);
        assert_eq!(person.id, id);
        assert!(!person.homeless);
        assert_eq!(person.daily_food_spending, 4);
        assert!((0..=90).contains(&person.age));
        assert!((1..=30).contains(&person.birthday.day));
        assert!((1..=12).contains(&person.birthday.month));
        let range = person.expected_salary_range;
        let expected_salary = (range.low + range.high) / 2;
        assert!(expected_salary > 0);
        assert!(person.balance >= expected_salary * 535 / 1000);
        assert!(person.balance <= expected_salary * 2140 / 1000);
        assert!(person.demand.get(ProductType::Leisure).is_some());
    }
}

#[test]
fn generated_balance_tracks_a_salary_of_sixty_thousand() {
    // Salary 60000 currency units: balance lands in salary * [0.535, 2.140].
    let person = Person::new();
    let mut rng = RandomSource::from_seed(17);
    for _ in 0..1_000 {
        let balance = person.generate_balance(60_000_000, &mut rng);
        assert!((32_100_000..=128_400_000).contains(&balance), "balance: {}", balance);
    }
}

#[test]
fn generated_balance_without_salary_uses_the_flat_range() {
    let person = Person::new();
    let mut rng = RandomSource::from_seed(18);
    for _ in 0..1_000 {
        let balance = person.generate_balance(0, &mut rng);
        assert!((50_000..=1_200_000).contains(&balance), "balance: {}", balance);
    }
}

#[test]
fn comfortable_balance_gives_the_healthy_food_tier() {
    // Balance 200 currency units, no debt: well above the healthy monthly
    // total of 120, so the tier is 4.
    let mut person = Person::new();
    person.balance = 200_000;
    person.monthly_debt_cost = 0;
    person.spending_behaviour = SpendingBehaviour::Two;
    let mut rng = RandomSource::from_seed(19);
    assert_eq!(person.calculate_daily_food_spending(&mut rng), 4);
}

#[test]
fn food_tier_ladder_rungs() {
    let mut person = Person::new();
    person.monthly_debt_cost = 0;
    let mut rng = RandomSource::from_seed(20);
    person.balance = 100_000;
    assert_eq!(person.calculate_daily_food_spending(&mut rng), 3);
    person.balance = 70_000;
    let middle = person.calculate_daily_food_spending(&mut rng);
    assert!(middle == 2 || middle == 3, "middle: {}", middle);
    person.balance = 50_000;
    assert_eq!(person.calculate_daily_food_spending(&mut rng), 1);
}

#[test]
fn debt_shifts_the_food_ladder_thresholds() {
    let mut person = Person::new();
    person.monthly_debt_cost = 100_000;
    person.balance = 200_000;
    let mut rng = RandomSource::from_seed(21);
    // 200 no longer clears debt 100 + 120, but clears debt 100 + 90.
    assert_eq!(person.calculate_daily_food_spending(&mut rng), 3);
}

#[test]
fn business_owner_food_spending_is_left_untouched() {
    let mut person = Person::new();
    person.job = Job::BusinessOwner(0);
    person.balance = 200_000;
    person.daily_food_spending = 2;
    let mut rng = RandomSource::from_seed(22);
    person.generate_daily_food_spending(&mut rng);
    assert_eq!(person.daily_food_spending, 2);
    assert!(!person.homeless);
}

#[test]
fn food_spending_recomputation_follows_the_ladder() {
    let mut person = Person::new();
    person.balance = 200_000;
    let mut rng = RandomSource::from_seed(23);
    person.generate_daily_food_spending(&mut rng);
    assert_eq!(person.daily_food_spending, 4);
}

#[test]
fn can_afford_applies_every_deduction() {
    // balance 1000, salary 0, no debt, food tier 1: the cut balance is
    // 1000 - 100 - 0 - 0 - 30 = 870 currency units, and affordability is
    // strict.
    let mut person = Person::new();
    person.balance = 1_000_000;
    person.daily_food_spending = 1;
    assert!(person.can_afford(869_999));
    assert!(!person.can_afford(870_000));
}

#[test]
fn can_afford_bare_is_a_strict_balance_check() {
    let mut person = Person::new();
    person.balance = 1_000;
    assert!(person.can_afford_bare(999));
    assert!(!person.can_afford_bare(1_000));
}

#[test]
fn business_pay_preserves_the_total_balance() {
    let mut person = Person::new();
    person.balance = 10_000;
    let mut business = Business::new(EducationLevel::College);
    business.balance = 50_000;
    person.business_pay(&mut business, 7_000);
    assert_eq!(person.balance, 17_000);
    assert_eq!(business.balance, 43_000);
    assert_eq!(person.balance + business.balance, 60_000);
}

#[test]
fn pay_tax_preserves_the_total_balance() {
    let mut person = Person::new();
    person.balance = 10_000;
    let mut government: u128 = 5;
    person.pay_tax(&mut government, 4_000);
    assert_eq!(person.balance, 6_000);
    assert_eq!(government, 4_005);
}

#[test]
fn pay_tax_ignores_negative_amounts() {
    let mut person = Person::new();
    person.balance = 10_000;
    let mut government: u128 = 5;
    person.pay_tax(&mut government, -10_000);
    assert_eq!(person.balance, 10_000);
    assert_eq!(government, 5);
}

#[test]
fn demand_generation_adds_exactly_the_table_entry() {
    // Behaviour Four: no salary share, so the demand is balance * bp% with
    // bp in 0.0050%..0.0580% — between 50 and 580 milli for a balance of
    // one million milli.
    let mut person = Person::new();
    person.balance = 1_000_000;
    person.spending_behaviour = SpendingBehaviour::Four;
    let mut ledger = DemandLedger::new();
    let mut rng = RandomSource::from_seed(24);
    person.generate_demand(12_000_000, &mut ledger, &mut rng);
    let demand = person.demand.get(ProductType::Leisure).unwrap();
    assert!((50..=580).contains(&demand), "demand: {}", demand);
    assert_eq!(ledger.total_for(ProductType::Leisure), demand);
}

#[test]
fn birthday_generation_stays_on_the_calendar() {
    let mut rng = RandomSource::from_seed(25);
    for _ in 0..1_000 {
        let birthday = Birthday::generate(&mut rng);
        assert!((1..=30).contains(&birthday.day));
        assert!((1..=12).contains(&birthday.month));
    }
}

#[test]
fn ages_come_from_the_buckets() {
    let person = Person::new();
    let mut rng = RandomSource::from_seed(26);
    for _ in 0..1_000 {
        let age = person.generate_age(&mut rng);
        assert!((0..=90).contains(&age));
    }
}

#[test]
fn check_birthday_ages_only_on_the_birthday() {
    let mut person = Person::new();
    person.birthday = Birthday { day: 12, month: 3 };
    person.age = 40;
    person.check_birthday(&Date { day: 11, month: 3 });
    assert_eq!(person.age, 40);
    person.check_birthday(&Date { day: 12, month: 4 });
    assert_eq!(person.age, 40);
    person.check_birthday(&Date { day: 12, month: 3 });
    assert_eq!(person.age, 41);
}
