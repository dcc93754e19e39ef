use launchpad::onboarding::CREATE_LINK_AMOUNT;
use launchpad::{
    AccountId, Contract, DepositStep, Error, PublicKey, SaleDeposit, SaleInput, SaleMetadata,
    SaleType,
};

fn accounts(id: usize) -> AccountId {
    let names = ["alice", "bob", "charlie", "danny", "eugene", "fargo"];
    AccountId::new_unchecked(names[id].to_string())
}

fn staking() -> AccountId {
    AccountId::new_unchecked("test.staking".to_string())
}

fn contract_with_sale_info(max_amount: Option<u128>, start_date: u64, end_date: u64) -> Contract {
    let join_fee: u128 = 1_000_000;
    let referral_fees: Vec<u64> = vec![10, 20, 30];
    let mut contract = Contract::new(accounts(0), join_fee, referral_fees.clone());
    let created = contract.create_sale(
        &accounts(0),
        SaleInput {
            metadata: SaleMetadata {
                name: "test".to_string(),
                symbol: "TEST".to_string(),
                description: "".to_string(),
                smart_contract_url: "".to_string(),
                logo_url: "".to_string(),
                output_ticker: "".to_string(),
                project_telegram: None,
                project_medium: None,
                project_twitter: None,
                reward_timestamp: None,
                reward_description: None,
            },
            staking_contracts: vec![staking()],
            min_near_deposit: 100,
            deposit_token_id: accounts(1),
            claim_available: true,
            distribute_token_id: None,
            distribute_token_decimals: None,
            distribute_supply_amount: None,
            min_buy: 100,
            max_buy: 10000,
            max_amount,
            hard_max_amount_limit: max_amount.is_some(),
            start_date,
            end_date,
            price: 1000,
            whitelist_hash: None,
            limit_per_transaction: 100,
            sale_type: SaleType::ByAmount,
        },
    );
    assert_eq!(created, Ok(0));
    assert_eq!(contract.get_referral_fees(), referral_fees);
    assert_eq!(contract.get_join_fee(), join_fee);
    contract
}

fn contract_with_sale() -> Contract {
    contract_with_sale_info(Some(10000), 0, 1_000_000_000)
}

fn register_account(contract: &mut Contract, account_id: AccountId) {
    assert_eq!(contract.join(account_id, 1000000, None), Ok(()));
}

fn deposit(contract: &mut Contract, account_id: AccountId, timestamp: u64) -> Result<DepositStep, Error> {
    contract.ft_on_transfer(
        accounts(1),
        timestamp,
        account_id,
        100,
        Some(SaleDeposit { sale_id: 0, staking_contract: None }),
    )
}

fn fail(e: Error) {
    panic!("{}", e.message());
}

#[test]
fn test_basics() {
    let mut contract = contract_with_sale();
    assert_eq!(contract.get_num_sales(), 1);
    assert_eq!(contract.get_sale(0).unwrap().price, 1000);
    assert_eq!(contract.get_sales(0, 10).len(), 1);

    assert_eq!(contract.join(accounts(2), 1000000, None), Ok(()));
    assert_eq!(contract.get_account(&accounts(2)).unwrap().referrer, accounts(0));

    let step = contract.ft_on_transfer(
        accounts(1),
        0,
        accounts(2),
        100,
        Some(SaleDeposit { sale_id: 0, staking_contract: Some(staking()) }),
    );
    match step {
        Ok(DepositStep::CheckStake(query)) => {
            assert_eq!(query.staking_contract, staking());
            assert_eq!(query.account_id, accounts(2));
            assert_eq!(query.sale_id, 0);
            assert_eq!(query.token_id, accounts(1));
            assert_eq!(query.deposit_amount, 100);
        }
        other => panic!("unexpected step {:?}", other),
    }
    assert_eq!(contract.get_sale(0).unwrap().collected_amount, 0);

    let refused = contract.on_get_account_staked_balance(
        &accounts(0),
        &accounts(0),
        &vec![Some(1000)],
        0,
        accounts(1),
        accounts(2),
        100,
    );
    assert_eq!(refused, Ok(0));

    assert_eq!(contract.get_sale(0).unwrap().num_account_sales, 1);
    assert_eq!(contract.get_sale(0).unwrap().collected_amount, 100);

    assert_eq!(contract.get_num_accounts(), 2);
    assert_eq!(contract.get_accounts(0, 10).len(), 2);
    assert_eq!(contract.get_account(&accounts(2)).unwrap().referrer, accounts(0));
}

#[test]
#[should_panic(expected = "ERR_NOT_REGISTERED_ACCOUNT")]
fn test_not_registered() {
    let mut contract = contract_with_sale();
    let r = contract.ft_on_transfer(
        accounts(1),
        0,
        accounts(2),
        100,
        Some(SaleDeposit { sale_id: 0, staking_contract: None }),
    );
    assert_eq!(r.as_ref().err(), Some(&Error::NotRegisteredAccount));
    if let Err(e) = r {
        fail(e);
    }
}

#[test]
#[should_panic(expected = "ERR_NO_SALE")]
fn test_no_sale() {
    let mut contract = contract_with_sale();
    assert_eq!(contract.join(accounts(2), 1000000, None), Ok(()));
    let r = contract.ft_on_transfer(
        accounts(1),
        0,
        accounts(2),
        100,
        Some(SaleDeposit { sale_id: 1, staking_contract: None }),
    );
    assert_eq!(r.as_ref().err(), Some(&Error::NoSale));
    if let Err(e) = r {
        fail(e);
    }
}

#[test]
fn test_create_remove_link() {
    let mut contract = contract_with_sale();
    assert_eq!(contract.join(accounts(2), 1000000, None), Ok(()));
    let pk = PublicKey::new("qSq3LoufLvTCTNGC3LJePMDGrok8dHMQ5A1YD9psbiz".as_bytes().to_vec());
    let grant = contract.create_link(&accounts(2), CREATE_LINK_AMOUNT, pk.clone()).unwrap();
    assert_eq!(grant.public_key, pk);
    assert_eq!(contract.get_link_referrer(&pk), Ok(accounts(2)));
    assert_eq!(contract.get_links(&accounts(2)), Ok(vec![pk.clone()]));
    let removed = contract.remove_link(&accounts(2), pk.clone()).unwrap();
    assert_eq!(removed, pk);
    assert_eq!(contract.get_link_referrer(&pk), Err(Error::NoKey));
    assert_eq!(contract.get_links(&accounts(2)), Ok(vec![]));
}

#[test]
#[should_panic = "ERR_SALE_NOT_STARTED"]
fn test_sale_too_early() {
    let mut contract = contract_with_sale_info(None, 1_000, 1_000_000);
    register_account(&mut contract, accounts(2));
    let r = deposit(&mut contract, accounts(2), 0);
    assert_eq!(r.as_ref().err(), Some(&Error::SaleNotStarted));
    if let Err(e) = r {
        fail(e);
    }
}

#[test]
#[should_panic = "ERR_SALE_DONE"]
fn test_sale_too_late() {
    let mut contract = contract_with_sale_info(None, 1_000, 1_000_000);
    register_account(&mut contract, accounts(2));
    let r = contract.ft_on_transfer(
        accounts(1),
        1_000_001,
        accounts(2),
        100,
        Some(SaleDeposit { sale_id: 0, staking_contract: None }),
    );
    assert_eq!(r.as_ref().err(), Some(&Error::SaleDone));
    if let Err(e) = r {
        fail(e);
    }
}
