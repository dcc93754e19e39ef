use launchpad::settlement::{is_promise_success, single, wrap_near_account};
use launchpad::{
    AccountId, Contract, Error, NearDepositStep, PromiseOutcome, SaleDeposit, SaleInput,
    SaleMetadata, SaleType,
};

fn id(name: &str) -> AccountId {
    AccountId::new_unchecked(name.to_string())
}

fn input(pools: Vec<AccountId>, max_amount: Option<u128>) -> SaleInput {
    SaleInput {
        metadata: SaleMetadata {
            name: "near sale".to_string(),
            symbol: "S".to_string(),
            description: String::new(),
            smart_contract_url: String::new(),
            logo_url: String::new(),
            output_ticker: String::new(),
            project_telegram: None,
            project_medium: None,
            project_twitter: None,
            reward_timestamp: None,
            reward_description: None,
        },
        staking_contracts: pools,
        min_near_deposit: 10,
        deposit_token_id: id("wrap.near"),
        claim_available: false,
        distribute_token_id: None,
        distribute_token_decimals: None,
        distribute_supply_amount: None,
        min_buy: 1,
        max_buy: 1000,
        max_amount,
        hard_max_amount_limit: max_amount.is_some(),
        start_date: 0,
        end_date: 100,
        price: 1,
        whitelist_hash: None,
        limit_per_transaction: 1000,
        sale_type: SaleType::ByAmount,
    }
}

fn engine(pools: Vec<AccountId>, max_amount: Option<u128>) -> Contract {
    let mut c = Contract::new(id("owner"), 0, vec![1, 2, 3]);
    assert_eq!(c.create_sale(&id("owner"), input(pools, max_amount)), Ok(0));
    assert_eq!(c.join(id("a"), 0, None), Ok(()));
    c
}

fn message(pool: Option<&str>) -> SaleDeposit {
    SaleDeposit { sale_id: 0, staking_contract: pool.map(id) }
}

#[test]
fn wrapped_token_is_named() {
    assert_eq!(wrap_near_account(), id("wrap.near"));
    assert_eq!(wrap_near_account().as_str(), "wrap.near");
}

#[test]
fn accepted_part_is_wrapped_and_the_rest_returned() {
    let mut c = engine(vec![], Some(100));
    match c.deposit_near(id("a"), 90, 1, message(None)) {
        Ok(NearDepositStep::Settle(s)) => {
            assert_eq!((s.wrap_amount, s.return_amount), (90, 0));
            assert_eq!(s.return_to, id("a"));
        }
        other => panic!("unexpected {:?}", other),
    }
    match c.deposit_near(id("a"), 50, 1, message(None)) {
        Ok(NearDepositStep::Settle(s)) => {
            assert_eq!((s.wrap_amount, s.return_amount), (10, 40));
            assert_eq!(s.return_to, id("a"));
        }
        other => panic!("unexpected {:?}", other),
    }
    assert_eq!(c.get_sale(0).unwrap().collected_amount, 100);
    assert_eq!(c.deposit_near(id("a"), 50, 1, message(None)).err(), Some(Error::SaleDone));
}

#[test]
fn native_deposit_is_for_sales_in_the_wrapped_token() {
    let mut c = Contract::new(id("owner"), 0, vec![1, 2, 3]);
    let mut other = input(vec![], None);
    other.deposit_token_id = id("usd");
    assert_eq!(c.create_sale(&id("owner"), other), Ok(0));
    assert_eq!(c.join(id("a"), 0, None), Ok(()));
    assert_eq!(c.deposit_near(id("a"), 5, 1, message(None)).err(), Some(Error::WrongToken));
    assert_eq!(
        c.deposit_near(id("nobody"), 5, 1, message(None)).err(),
        Some(Error::NotRegisteredAccount)
    );
    assert_eq!(
        c.deposit_near(id("a"), 5, 1, SaleDeposit { sale_id: 4, staking_contract: None }).err(),
        Some(Error::NoSale)
    );
}

#[test]
fn native_deposit_waits_for_the_oracle() {
    let mut c = engine(vec![id("pool")], None);
    let e = id("engine");
    match c.deposit_near(id("a"), 70, 1, message(Some("pool"))) {
        Ok(NearDepositStep::CheckStake(q)) => {
            assert_eq!(q.staking_contract, id("pool"));
            assert_eq!(q.account_id, id("a"));
            assert_eq!(q.token_id, id("wrap.near"));
            assert_eq!(q.deposit_amount, 70);
            assert_eq!(q.sale_id, 0);
        }
        other => panic!("unexpected {:?}", other),
    }
    assert_eq!(c.get_sale(0).unwrap().collected_amount, 0);

    // The oracle answers, the deposit is recorded, and its result settles the deposit.
    let recorded =
        c.on_get_account_staked_balance(&e, &e, &vec![Some(10)], 0, id("wrap.near"), id("a"), 70);
    assert_eq!(recorded, Ok(0));
    let s =
        c.after_ft_on_transfer_near_deposit(&e, &e, &vec![recorded.ok()], id("a"), 70).unwrap();
    assert_eq!((s.wrap_amount, s.return_amount), (70, 0));
    assert_eq!(s.return_to, id("a"));
}

#[test]
fn failed_record_sends_everything_back() {
    let mut c = engine(vec![id("pool")], None);
    let e = id("engine");
    let refused =
        c.on_get_account_staked_balance(&e, &e, &vec![Some(9)], 0, id("wrap.near"), id("a"), 70);
    assert_eq!(refused, Err(Error::NotEnoughStaked));
    let s =
        c.after_ft_on_transfer_near_deposit(&e, &e, &vec![refused.ok()], id("a"), 70).unwrap();
    assert_eq!((s.wrap_amount, s.return_amount), (0, 70));
    assert_eq!(s.return_to, id("a"));
    assert_eq!(c.get_sale(0).unwrap().collected_amount, 0);
}

#[test]
fn settlement_splits_the_deposit() {
    let c = engine(vec![], None);
    let e = id("engine");
    for (returned, deposit) in [(0u128, 0u128), (0, 5), (5, 5), (2, 5), (1, u128::MAX)] {
        let s = c.internal_finalize_near_deposit(returned, id("a"), deposit).unwrap();
        assert_eq!(s.return_amount, returned);
        assert_eq!(s.wrap_amount, deposit - returned);
        assert_eq!(s.wrap_amount + s.return_amount, deposit);
        let t =
            c.after_ft_on_transfer_near_deposit(&e, &e, &vec![Some(returned)], id("a"), deposit);
        assert_eq!(format!("{:?}", t.unwrap()), format!("{:?}", s));
    }
    assert_eq!(c.internal_finalize_near_deposit(6, id("a"), 5).err(), Some(Error::Overflow));
    assert_eq!(
        c.after_ft_on_transfer_near_deposit(&e, &e, &vec![Some(6)], id("a"), 5).err(),
        Some(Error::Overflow)
    );
    assert_eq!(
        c.after_ft_on_transfer_near_deposit(&id("x"), &e, &vec![Some(1)], id("a"), 5).err(),
        Some(Error::NotOwner)
    );
    assert_eq!(
        c.after_ft_on_transfer_near_deposit(&e, &e, &vec![], id("a"), 5).err(),
        Some(Error::ExpectedOneResult)
    );
    assert_eq!(
        c.after_ft_on_transfer_near_deposit(&e, &e, &vec![Some(1), None], id("a"), 5).err(),
        Some(Error::ExpectedOneResult)
    );
}

#[test]
fn one_answer_is_expected() {
    assert_eq!(single(&vec![Some(5)]), Ok(Some(5)));
    assert_eq!(single(&vec![None]), Ok(None));
    assert_eq!(single(&vec![]), Err(Error::ExpectedOneResult));
    assert_eq!(single(&vec![Some(5), Some(5)]), Err(Error::ExpectedOneResult));
}

#[test]
fn one_result_is_expected() {
    assert_eq!(is_promise_success(&vec![PromiseOutcome::Successful]), Ok(true));
    assert_eq!(is_promise_success(&vec![PromiseOutcome::Failed]), Ok(false));
    assert_eq!(is_promise_success(&vec![PromiseOutcome::NotReady]), Ok(false));
    assert_eq!(is_promise_success(&vec![]), Err(Error::ExpectedOneResult));
    assert_eq!(
        is_promise_success(&vec![PromiseOutcome::Successful, PromiseOutcome::Successful]),
        Err(Error::ExpectedOneResult)
    );
}
