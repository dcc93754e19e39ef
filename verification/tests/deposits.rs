use launchpad::{
    AccountId, AffiliateRewardAccount, Contract, DepositStep, Error, Sale, SaleAccount,
    SaleAccountOld, SaleDeposit, SaleInput, SaleMetadata, SaleType, Table, VSaleAccount,
};

fn id(name: &str) -> AccountId {
    AccountId::new_unchecked(name.to_string())
}

fn metadata() -> SaleMetadata {
    SaleMetadata {
        name: "sale".to_string(),
        symbol: "S".to_string(),
        description: String::new(),
        smart_contract_url: String::new(),
        logo_url: String::new(),
        output_ticker: String::new(),
        project_telegram: None,
        project_medium: None,
        project_twitter: None,
        reward_timestamp: None,
        reward_description: None,
    }
}

fn open_sale() -> Sale {
    Sale {
        metadata: metadata(),
        staking_contracts: vec![],
        min_near_deposit: 0,
        deposit_token_id: id("usd"),
        claim_available: false,
        distribute_token_id: None,
        distribute_token_decimals: None,
        distribute_supply_amount: None,
        min_buy: 1,
        max_buy: 1_000_000,
        max_amount: None,
        hard_max_amount_limit: false,
        start_date: 0,
        end_date: 100,
        price: 1000,
        whitelist_hash: None,
        limit_per_transaction: 1_000_000,
        collected_amount: 0,
        account_sales: Table::new(),
        account_affiliate_rewards: Table::new(),
        sale_type: SaleType::ByAmount,
    }
}

fn input(max_amount: Option<u128>, hard: bool) -> SaleInput {
    SaleInput {
        metadata: metadata(),
        staking_contracts: vec![],
        min_near_deposit: 0,
        deposit_token_id: id("usd"),
        claim_available: false,
        distribute_token_id: None,
        distribute_token_decimals: None,
        distribute_supply_amount: None,
        min_buy: 1,
        max_buy: 1_000_000,
        max_amount,
        hard_max_amount_limit: hard,
        start_date: 0,
        end_date: 100,
        price: 1000,
        whitelist_hash: None,
        limit_per_transaction: 1_000_000,
        sale_type: SaleType::ByAmount,
    }
}

fn fees() -> Vec<u64> {
    vec![100, 50, 25]
}

fn sum_of_deposits(sale: &Sale) -> u128 {
    sale.account_sales.entries.iter().map(|e| SaleAccount::from(e.value).amount).sum()
}

#[test]
fn deposit_is_clamped_at_hard_capacity() {
    let mut sale = open_sale();
    sale.max_amount = Some(100);
    sale.hard_max_amount_limit = true;
    assert_eq!(sale.record_deposit(&id("usd"), &id("early"), 0, 90, &vec![], &fees()), Ok(0));
    assert_eq!(sale.collected_amount, 90);

    let refused = sale.record_deposit(&id("usd"), &id("late"), 0, 50, &vec![], &fees());
    assert_eq!(refused, Ok(40));
    assert_eq!(sale.collected_amount, 100);
    assert_eq!(sale.account_record(&id("late")).amount, 10);
    assert_eq!(sale.account_record(&id("early")).amount, 90);
}

#[test]
fn deposit_into_full_sale_takes_nothing_and_fails_the_minimum() {
    let mut sale = open_sale();
    sale.max_amount = Some(100);
    sale.hard_max_amount_limit = true;
    assert_eq!(sale.record_deposit(&id("usd"), &id("a"), 0, 100, &vec![], &fees()), Ok(0));
    // Nothing is left; a newcomer's total of zero is below the minimum of one.
    assert_eq!(
        sale.record_deposit(&id("usd"), &id("b"), 0, 50, &vec![], &fees()),
        Err(Error::WrongAmount)
    );
    // Who has deposited before stays within range with an accepted amount of zero.
    assert_eq!(sale.record_deposit(&id("usd"), &id("a"), 0, 50, &vec![], &fees()), Ok(50));
    assert_eq!(sale.collected_amount, 100);
}

#[test]
fn soft_maximum_does_not_clamp() {
    let mut sale = open_sale();
    sale.max_amount = Some(100);
    sale.hard_max_amount_limit = false;
    assert_eq!(sale.record_deposit(&id("usd"), &id("a"), 0, 500, &vec![], &fees()), Ok(0));
    assert_eq!(sale.collected_amount, 500);
}

#[test]
fn collected_amount_is_the_sum_of_deposits() {
    let mut sale = open_sale();
    sale.max_amount = Some(1000);
    sale.hard_max_amount_limit = true;
    let chain = vec![id("r1"), id("r2")];
    for (who, amount) in [("a", 10u128), ("b", 300), ("a", 25), ("c", 1), ("b", 900), ("d", 7)] {
        let before = sale.collected_amount;
        match sale.record_deposit(&id("usd"), &id(who), 0, amount, &chain, &fees()) {
            Ok(refused) => assert_eq!(sale.collected_amount, before + amount - refused),
            Err(_) => assert_eq!(sale.collected_amount, before),
        }
        assert_eq!(sale.collected_amount, sum_of_deposits(&sale));
        assert!(sale.collected_amount <= 1000);
    }
    assert_eq!(sale.collected_amount, 1000);
    assert_eq!(sale.account_record(&id("a")).amount, 35);
    assert_eq!(sale.account_record(&id("b")).amount, 964);
    assert_eq!(sale.account_record(&id("c")).amount, 1);
    assert_eq!(sale.account_record(&id("d")), SaleAccount::empty());
}

#[test]
fn sum_counts_records_of_the_first_layout() {
    let mut sale = open_sale();
    sale.account_sales.insert(id("old"), VSaleAccount::First(SaleAccountOld { amount: 40 }));
    sale.collected_amount = 40;
    assert_eq!(sale.record_deposit(&id("usd"), &id("old"), 0, 2, &vec![], &fees()), Ok(0));
    assert_eq!(sale.collected_amount, 42);
    assert_eq!(sum_of_deposits(&sale), 42);
    assert_eq!(
        sale.account_record(&id("old")),
        SaleAccount { amount: 42, claimed: 0, refund: 0, refunded: 0 }
    );
    assert!(matches!(sale.account_sales.get(&id("old")), Some(VSaleAccount::Current(_))));
}

#[test]
fn rewards_follow_the_fee_of_each_level() {
    let mut sale = open_sale();
    let chain = vec![id("r1"), id("r2"), id("r3")];
    assert_eq!(sale.record_deposit(&id("usd"), &id("a"), 0, 100_000, &chain, &fees()), Ok(0));
    // 100 000 * 100 / 10 000, * 50 / 10 000, * 25 / 10 000
    assert_eq!(sale.reward_record(&id("r1")), AffiliateRewardAccount { amount: 1000, claimed: 0 });
    assert_eq!(sale.reward_record(&id("r2")), AffiliateRewardAccount { amount: 500, claimed: 0 });
    assert_eq!(sale.reward_record(&id("r3")), AffiliateRewardAccount { amount: 250, claimed: 0 });
    assert_eq!(sale.record_deposit(&id("usd"), &id("b"), 0, 199, &chain, &fees()), Ok(0));
    // 199 * 100 / 10 000 = 1.99, cut to 1; the deeper levels get nothing
    assert_eq!(sale.reward_record(&id("r1")).amount, 1001);
    assert_eq!(sale.reward_record(&id("r2")).amount, 500);
    assert_eq!(sale.reward_record(&id("r3")).amount, 250);
}

#[test]
fn rewards_are_on_the_accepted_amount() {
    let mut sale = open_sale();
    sale.max_amount = Some(10_000);
    sale.hard_max_amount_limit = true;
    let chain = vec![id("r1")];
    assert_eq!(sale.record_deposit(&id("usd"), &id("a"), 0, 30_000, &chain, &fees()), Ok(20_000));
    assert_eq!(sale.reward_record(&id("r1")).amount, 100);
}

#[test]
fn referrer_on_two_levels_gets_both_rewards() {
    let mut sale = open_sale();
    let chain = vec![id("r"), id("s"), id("r")];
    assert_eq!(sale.record_deposit(&id("usd"), &id("a"), 0, 100_000, &chain, &fees()), Ok(0));
    assert_eq!(sale.reward_record(&id("r")).amount, 1250);
    assert_eq!(sale.reward_record(&id("s")).amount, 500);
    let same = vec![id("t"), id("t"), id("t")];
    assert_eq!(sale.record_deposit(&id("usd"), &id("a"), 0, 100_000, &same, &fees()), Ok(0));
    assert_eq!(sale.reward_record(&id("t")).amount, 1750);
    assert_eq!(sale.account_affiliate_rewards.len(), 3);
}

#[test]
fn only_three_levels_are_rewarded() {
    let mut sale = open_sale();
    let chain = vec![id("r1"), id("r2"), id("r3"), id("r4")];
    let four_fees: Vec<u64> = vec![100, 50, 25, 10];
    assert_eq!(sale.record_deposit(&id("usd"), &id("a"), 0, 100_000, &chain, &four_fees), Ok(0));
    assert_eq!(sale.reward_record(&id("r3")).amount, 250);
    assert_eq!(sale.reward_record(&id("r4")).amount, 0);
}

#[test]
fn refused_deposit_changes_nothing() {
    let mut sale = open_sale();
    sale.limit_per_transaction = 100;
    sale.min_buy = 10;
    sale.max_buy = 150;
    let chain = vec![id("r1"), id("r2")];
    assert_eq!(sale.record_deposit(&id("usd"), &id("a"), 0, 100, &chain, &fees()), Ok(0));
    let snapshot = format!("{:?}", sale);

    assert_eq!(
        sale.record_deposit(&id("other"), &id("a"), 0, 10, &chain, &fees()),
        Err(Error::WrongToken)
    );
    assert_eq!(
        sale.record_deposit(&id("usd"), &id("a"), 0, 101, &chain, &fees()),
        Err(Error::LimitPerTx)
    );
    assert_eq!(
        sale.record_deposit(&id("usd"), &id("a"), 0, 51, &chain, &fees()),
        Err(Error::WrongAmount)
    );
    assert_eq!(
        sale.record_deposit(&id("usd"), &id("b"), 0, 9, &chain, &fees()),
        Err(Error::WrongAmount)
    );
    // The second level has no fee: the first reward is worked out, nothing is written.
    assert_eq!(
        sale.record_deposit(&id("usd"), &id("a"), 0, 10, &chain, &vec![100]),
        Err(Error::WrongLength)
    );
    // The reward of the second level does not fit.
    let mut rich = open_sale();
    rich.account_affiliate_rewards.insert(
        id("r2"),
        launchpad::VAffiliateRewardAccount::Current(AffiliateRewardAccount {
            amount: u128::MAX,
            claimed: 0,
        }),
    );
    let before = format!("{:?}", rich);
    assert_eq!(
        rich.record_deposit(&id("usd"), &id("a"), 0, 100_000, &chain, &fees()),
        Err(Error::Overflow)
    );
    assert_eq!(format!("{:?}", rich), before);
    assert_eq!(format!("{:?}", sale), snapshot);
}

#[test]
fn stake_is_checked_only_where_the_sale_asks_for_one() {
    let mut sale = open_sale();
    sale.min_near_deposit = 500;
    assert_eq!(sale.record_deposit(&id("usd"), &id("a"), 0, 10, &vec![], &fees()), Ok(0));
    sale.staking_contracts = vec![id("pool")];
    assert_eq!(
        sale.record_deposit(&id("usd"), &id("a"), 499, 10, &vec![], &fees()),
        Err(Error::NotEnoughStaked)
    );
    assert_eq!(sale.record_deposit(&id("usd"), &id("a"), 500, 10, &vec![], &fees()), Ok(0));
}

#[test]
fn hard_capacity_needs_a_maximum() {
    let mut sale = open_sale();
    sale.hard_max_amount_limit = true;
    sale.max_amount = None;
    assert_eq!(
        sale.record_deposit(&id("usd"), &id("a"), 0, 10, &vec![], &fees()),
        Err(Error::MustHaveMaxAmount)
    );
}

#[test]
fn amounts_beyond_the_integer_range_are_refused() {
    let mut sale = open_sale();
    sale.max_buy = u128::MAX;
    sale.limit_per_transaction = u128::MAX;
    assert_eq!(sale.record_deposit(&id("usd"), &id("a"), 0, u128::MAX, &vec![], &fees()), Ok(0));
    assert_eq!(
        sale.record_deposit(&id("usd"), &id("a"), 0, 1, &vec![], &fees()),
        Err(Error::Overflow)
    );
    assert_eq!(
        sale.record_deposit(&id("usd"), &id("b"), 0, 1, &vec![], &fees()),
        Err(Error::Overflow)
    );
    let mut other = open_sale();
    other.max_buy = u128::MAX;
    other.limit_per_transaction = u128::MAX;
    assert_eq!(
        other.record_deposit(&id("usd"), &id("a"), 0, u128::MAX, &vec![id("r")], &fees()),
        Err(Error::Overflow)
    );
    assert_eq!(other.collected_amount, 0);
}

#[test]
fn crediting_a_reward_directly() {
    let mut sale = open_sale();
    assert_eq!(sale.internal_insert_affiliate(&id("r"), 5), Ok(()));
    assert_eq!(sale.internal_insert_affiliate(&id("r"), 7), Ok(()));
    assert_eq!(sale.reward_record(&id("r")), AffiliateRewardAccount { amount: 12, claimed: 0 });
    assert_eq!(sale.internal_insert_affiliate(&id("r"), u128::MAX), Err(Error::Overflow));
    assert_eq!(sale.reward_record(&id("r")).amount, 12);
}

#[test]
fn the_engine_rewards_the_referrers_below_the_owner() {
    let mut contract = Contract::new(id("owner"), 5, fees());
    assert_eq!(contract.create_sale(&id("owner"), input(None, false)), Ok(0));
    assert_eq!(contract.join(id("a"), 5, None), Ok(()));
    assert_eq!(contract.join(id("b"), 5, Some(id("a"))), Ok(()));
    assert_eq!(contract.join(id("c"), 5, Some(id("b"))), Ok(()));
    assert_eq!(contract.join(id("d"), 5, Some(id("c"))), Ok(()));
    assert_eq!(contract.join(id("e"), 5, Some(id("d"))), Ok(()));

    // e -> d -> c -> b: three referrers, none of them the owner.
    assert_eq!(contract.internal_sale_deposit(0, &id("usd"), &id("e"), 0, 100_000), Ok(0));
    assert_eq!(contract.get_affiliate_account(0, &id("d")).unwrap().amount, 1000);
    assert_eq!(contract.get_affiliate_account(0, &id("c")).unwrap().amount, 500);
    assert_eq!(contract.get_affiliate_account(0, &id("b")).unwrap().amount, 250);
    assert_eq!(contract.get_affiliate_account(0, &id("a")).unwrap().amount, 0);

    // b -> a -> owner: the chain ends before the owner.
    assert_eq!(contract.internal_sale_deposit(0, &id("usd"), &id("b"), 0, 100_000), Ok(0));
    assert_eq!(contract.get_affiliate_account(0, &id("a")).unwrap().amount, 1000);
    assert_eq!(contract.get_affiliate_account(0, &id("owner")).unwrap().amount, 0);

    // a -> owner: nobody is rewarded.
    assert_eq!(contract.internal_sale_deposit(0, &id("usd"), &id("a"), 0, 100_000), Ok(0));
    assert_eq!(contract.get_affiliate_account(0, &id("owner")).unwrap().amount, 0);

    // Somebody without an account has no referrers.
    assert_eq!(contract.internal_sale_deposit(0, &id("usd"), &id("x"), 0, 100_000), Ok(0));
    assert_eq!(contract.get_sale(0).unwrap().collected_amount, 400_000);
    assert_eq!(contract.get_sale(0).unwrap().num_account_sales, 4);
}

#[test]
fn the_engine_refuses_deposits_into_missing_sales() {
    let mut contract = Contract::new(id("owner"), 5, fees());
    assert_eq!(
        contract.internal_sale_deposit(0, &id("usd"), &id("a"), 0, 1),
        Err(Error::NoSale)
    );
    assert_eq!(contract.create_sale(&id("owner"), input(None, false)), Ok(0));
    assert_eq!(
        contract.internal_sale_deposit(1, &id("usd"), &id("a"), 0, 1),
        Err(Error::NoSale)
    );
    assert_eq!(
        contract.internal_sale_deposit(u64::MAX, &id("usd"), &id("a"), 0, 1),
        Err(Error::NoSale)
    );
    assert_eq!(contract.internal_sale_deposit(0, &id("usd"), &id("a"), 0, 1), Ok(0));
}

#[test]
fn transfer_without_stake_requirement_is_recorded_at_once() {
    let mut contract = Contract::new(id("owner"), 5, fees());
    assert_eq!(contract.create_sale(&id("owner"), input(Some(100), true)), Ok(0));
    assert_eq!(contract.join(id("a"), 5, None), Ok(()));
    let step = contract.ft_on_transfer(
        id("usd"),
        10,
        id("a"),
        90,
        Some(SaleDeposit { sale_id: 0, staking_contract: None }),
    );
    assert!(matches!(step, Ok(DepositStep::Recorded(0))));
    let step = contract.ft_on_transfer(
        id("usd"),
        10,
        id("a"),
        50,
        Some(SaleDeposit { sale_id: 0, staking_contract: None }),
    );
    assert!(matches!(step, Ok(DepositStep::Recorded(40))));
    let step = contract.ft_on_transfer(
        id("usd"),
        10,
        id("a"),
        50,
        Some(SaleDeposit { sale_id: 0, staking_contract: None }),
    );
    assert_eq!(step.err(), Some(Error::SaleDone));
}

#[test]
fn transfer_is_checked_in_order() {
    let mut contract = Contract::new(id("owner"), 5, fees());
    let mut with_pool = input(Some(100), true);
    with_pool.staking_contracts = vec![id("pool")];
    with_pool.start_date = 10;
    with_pool.end_date = 20;
    assert_eq!(contract.create_sale(&id("owner"), with_pool), Ok(0));
    assert_eq!(contract.join(id("a"), 5, None), Ok(()));
    let message = |pool: Option<&str>| Some(SaleDeposit { sale_id: 0, staking_contract: pool.map(id) });

    assert_eq!(
        contract.ft_on_transfer(id("usd"), 15, id("nobody"), 1, None).err(),
        Some(Error::NotRegisteredAccount)
    );
    assert_eq!(
        contract.ft_on_transfer(id("usd"), 15, id("a"), 1, None).err(),
        Some(Error::MsgWrongFormat)
    );
    assert_eq!(
        contract.ft_on_transfer(id("eur"), 15, id("a"), 1, message(Some("pool"))).err(),
        Some(Error::WrongToken)
    );
    assert_eq!(
        contract.ft_on_transfer(id("usd"), 9, id("a"), 1, message(Some("pool"))).err(),
        Some(Error::SaleNotStarted)
    );
    assert_eq!(
        contract.ft_on_transfer(id("usd"), 21, id("a"), 1, message(Some("pool"))).err(),
        Some(Error::SaleDone)
    );
    assert_eq!(
        contract.ft_on_transfer(id("usd"), 15, id("a"), 1, message(None)).err(),
        Some(Error::MustHaveStakingContract)
    );
    assert_eq!(
        contract.ft_on_transfer(id("usd"), 15, id("a"), 1, message(Some("lake"))).err(),
        Some(Error::NotWhitelistedStakingContract)
    );
    assert!(matches!(
        contract.ft_on_transfer(id("usd"), 10, id("a"), 1, message(Some("pool"))),
        Ok(DepositStep::CheckStake(_))
    ));
    assert!(matches!(
        contract.ft_on_transfer(id("usd"), 20, id("a"), 1, message(Some("pool"))),
        Ok(DepositStep::CheckStake(_))
    ));
    assert_eq!(contract.get_sale(0).unwrap().collected_amount, 0);
}

#[test]
fn hard_capacity_without_maximum_stops_transfers() {
    let mut contract = Contract::new(id("owner"), 5, fees());
    let mut odd = input(None, true);
    odd.sale_type = SaleType::BySubscription;
    odd.distribute_supply_amount = Some(10);
    assert_eq!(contract.create_sale(&id("owner"), odd), Ok(0));
    assert_eq!(contract.join(id("a"), 5, None), Ok(()));
    assert_eq!(
        contract
            .ft_on_transfer(
                id("usd"),
                1,
                id("a"),
                1,
                Some(SaleDeposit { sale_id: 0, staking_contract: None })
            )
            .err(),
        Some(Error::NoMaxAmount)
    );
    assert_eq!(
        contract.internal_sale_deposit(0, &id("usd"), &id("a"), 0, 1),
        Err(Error::MustHaveMaxAmount)
    );
}

#[test]
fn answer_of_the_oracle_is_taken_only_from_the_engine_itself() {
    let mut contract = Contract::new(id("owner"), 5, fees());
    let mut with_pool = input(None, false);
    with_pool.staking_contracts = vec![id("pool")];
    with_pool.min_near_deposit = 100;
    assert_eq!(contract.create_sale(&id("owner"), with_pool), Ok(0));
    assert_eq!(contract.join(id("a"), 5, None), Ok(()));
    assert_eq!(
        contract.on_get_account_staked_balance(
            &id("mallory"),
            &id("engine"),
            &vec![Some(1000)],
            0,
            id("usd"),
            id("a"),
            10
        ),
        Err(Error::NotOwner)
    );
    assert_eq!(
        contract.on_get_account_staked_balance(
            &id("engine"),
            &id("engine"),
            &vec![None],
            0,
            id("usd"),
            id("a"),
            10
        ),
        Err(Error::CallbackFailed)
    );
    assert_eq!(
        contract.on_get_account_staked_balance(
            &id("engine"),
            &id("engine"),
            &vec![],
            0,
            id("usd"),
            id("a"),
            10
        ),
        Err(Error::ExpectedOneResult)
    );
    assert_eq!(
        contract.on_get_account_staked_balance(
            &id("engine"),
            &id("engine"),
            &vec![Some(1000), Some(1000)],
            0,
            id("usd"),
            id("a"),
            10
        ),
        Err(Error::ExpectedOneResult)
    );
    assert_eq!(
        contract.on_get_account_staked_balance(
            &id("engine"),
            &id("engine"),
            &vec![Some(99)],
            0,
            id("usd"),
            id("a"),
            10
        ),
        Err(Error::NotEnoughStaked)
    );
    assert_eq!(contract.get_sale(0).unwrap().collected_amount, 0);
    assert_eq!(
        contract.on_get_account_staked_balance(
            &id("engine"),
            &id("engine"),
            &vec![Some(100)],
            0,
            id("usd"),
            id("a"),
            10
        ),
        Ok(0)
    );
    assert_eq!(contract.get_sale(0).unwrap().collected_amount, 10);
    assert_eq!(contract.get_sale_account(0, &id("a")).unwrap().amount, 10);
}
