use launchpad::{
    AccountId, AffiliateRewardAccount, Contract, Error, Sale, SaleAccount, SaleAccountOld,
    SaleMetadata, SaleOld, SaleOutput, SaleType, Table, VAffiliateRewardAccount, VSale,
    VSaleAccount,
};

fn id(name: &str) -> AccountId {
    AccountId::new_unchecked(name.to_string())
}

fn metadata() -> SaleMetadata {
    SaleMetadata {
        name: "old sale".to_string(),
        symbol: "OLD".to_string(),
        description: "first layout".to_string(),
        smart_contract_url: "url".to_string(),
        logo_url: "logo".to_string(),
        output_ticker: "TCK".to_string(),
        project_telegram: Some("t".to_string()),
        project_medium: None,
        project_twitter: Some("x".to_string()),
        reward_timestamp: Some(5),
        reward_description: None,
    }
}

fn old_sale() -> SaleOld {
    let mut account_sales = Table::new();
    account_sales.insert(id("a"), VSaleAccount::First(SaleAccountOld { amount: 30 }));
    account_sales.insert(
        id("b"),
        VSaleAccount::Current(SaleAccount { amount: 12, claimed: 0, refund: 0, refunded: 0 }),
    );
    SaleOld {
        metadata: metadata(),
        staking_contracts: vec![id("pool")],
        min_near_deposit: 3,
        deposit_token_id: id("usd"),
        min_buy: 1,
        max_buy: 500,
        max_amount: Some(1000),
        hard_max_amount_limit: true,
        start_date: 10,
        end_date: 20,
        price: 1000,
        whitelist_hash: Some([7u8; 32]),
        limit_per_transaction: 100,
        collected_amount: 42,
        account_sales,
    }
}

/// The sale of the current layout that carries what the old one held and
/// the defaults for the rest.
fn same_sale_in_current_layout() -> Sale {
    let old = old_sale();
    Sale {
        metadata: old.metadata,
        staking_contracts: old.staking_contracts,
        min_near_deposit: old.min_near_deposit,
        deposit_token_id: old.deposit_token_id,
        claim_available: false,
        distribute_token_id: None,
        distribute_token_decimals: None,
        distribute_supply_amount: None,
        min_buy: old.min_buy,
        max_buy: old.max_buy,
        max_amount: old.max_amount,
        hard_max_amount_limit: old.hard_max_amount_limit,
        start_date: old.start_date,
        end_date: old.end_date,
        price: old.price,
        whitelist_hash: old.whitelist_hash,
        limit_per_transaction: old.limit_per_transaction,
        collected_amount: old.collected_amount,
        account_sales: old.account_sales,
        account_affiliate_rewards: Table::new(),
        sale_type: SaleType::ByAmount,
    }
}

fn engine_with(stored: VSale) -> Contract {
    let mut contract = Contract::new(id("owner"), 0, vec![1, 2, 3]);
    contract.sales.push(Some(stored));
    contract
}

#[test]
fn old_record_reads_with_zero_defaults() {
    let read = SaleAccount::from(VSaleAccount::First(SaleAccountOld { amount: 77 }));
    assert_eq!(read, SaleAccount { amount: 77, claimed: 0, refund: 0, refunded: 0 });
    let current = SaleAccount { amount: 77, claimed: 5, refund: 2, refunded: 1 };
    assert_eq!(SaleAccount::from(VSaleAccount::Current(current)), current);
    let reward = AffiliateRewardAccount { amount: 4, claimed: 3 };
    assert_eq!(AffiliateRewardAccount::from(VAffiliateRewardAccount::Current(reward)), reward);
    let converted: SaleAccount = VSaleAccount::First(SaleAccountOld { amount: 1 }).into();
    assert_eq!(converted.amount, 1);
}

#[test]
fn old_sale_upgrades_to_current_defaults() {
    let upgraded = Sale::from(VSale::First(old_sale()));
    assert_eq!(format!("{:?}", upgraded), format!("{:?}", same_sale_in_current_layout()));
    assert!(!upgraded.claim_available);
    assert_eq!(upgraded.distribute_token_id, None);
    assert_eq!(upgraded.distribute_token_decimals, None);
    assert_eq!(upgraded.distribute_supply_amount, None);
    assert_eq!(upgraded.account_affiliate_rewards.len(), 0);
    assert_eq!(upgraded.sale_type, SaleType::ByAmount);
    assert_eq!(upgraded.collected_amount, 42);
    let kept = Sale::from(VSale::Current(same_sale_in_current_layout()));
    assert_eq!(format!("{:?}", kept), format!("{:?}", upgraded));
}

#[test]
fn old_sale_shows_as_if_it_had_always_been_current() {
    let from_old = SaleOutput::from(VSale::First(old_sale()));
    let from_current = SaleOutput::from(VSale::Current(same_sale_in_current_layout()));
    assert_eq!(format!("{:?}", from_old), format!("{:?}", from_current));
    assert_eq!(from_old.sale_id, None);
    assert_eq!(from_old.num_account_sales, 2);
    assert_eq!(from_old.collected_amount, 42);
    assert_eq!(from_old.metadata.symbol, "OLD");
    assert_eq!(from_old.whitelist_hash, Some([7u8; 32]));
    let by_reference = SaleOutput::of(&VSale::First(old_sale()));
    assert_eq!(format!("{:?}", by_reference), format!("{:?}", from_old));
}

#[test]
fn engine_reads_old_and_current_sales_alike() {
    let old = engine_with(VSale::First(old_sale()));
    let current = engine_with(VSale::Current(same_sale_in_current_layout()));

    assert_eq!(
        format!("{:?}", old.get_sale(0).unwrap()),
        format!("{:?}", current.get_sale(0).unwrap())
    );
    assert_eq!(old.get_sale(0).unwrap().sale_id, Some(0));
    assert_eq!(
        format!("{:?}", old.get_sales(0, 5)),
        format!("{:?}", current.get_sales(0, 5))
    );
    assert_eq!(old.get_sale_accounts(0, 0, 5), current.get_sale_accounts(0, 0, 5));
    assert_eq!(
        old.get_sale_accounts(0, 0, 5),
        Ok(vec![
            (id("a"), SaleAccount { amount: 30, claimed: 0, refund: 0, refunded: 0 }),
            (id("b"), SaleAccount { amount: 12, claimed: 0, refund: 0, refunded: 0 }),
        ])
    );
    for who in ["a", "b", "nobody"] {
        assert_eq!(old.get_sale_account(0, &id(who)), current.get_sale_account(0, &id(who)));
        assert_eq!(
            old.get_affiliate_account(0, &id(who)),
            current.get_affiliate_account(0, &id(who))
        );
        assert_eq!(old.get_sale_amount(0, &id(who)), current.get_sale_amount(0, &id(who)));
        assert_eq!(
            old.get_account_after_claim(0, &id(who)),
            current.get_account_after_claim(0, &id(who))
        );
        assert_eq!(
            old.get_affiliate_reward_account_after_claim(0, &id(who)),
            current.get_affiliate_reward_account_after_claim(0, &id(who))
        );
    }
    assert_eq!(
        old.get_sale_account(0, &id("a")),
        Ok(SaleAccount { amount: 30, claimed: 0, refund: 0, refunded: 0 })
    );
    assert_eq!(
        old.get_affiliate_account(0, &id("a")),
        Ok(AffiliateRewardAccount { amount: 0, claimed: 0 })
    );
    assert_eq!(old.get_sale_amount(0, &id("a")), Ok(30));
    assert_eq!(old.get_account_after_claim(0, &id("a")), Err(Error::NoTokenDecimals));
}

#[test]
fn engine_changes_old_and_current_sales_alike() {
    let mut old = engine_with(VSale::First(old_sale()));
    let mut current = engine_with(VSale::Current(same_sale_in_current_layout()));
    let engine = id("engine");

    for contract in [&mut old, &mut current] {
        assert_eq!(contract.claim_purchase(id("a"), 0).err(), Some(Error::ClaimNotAvailable));
        assert_eq!(
            contract.internal_sale_deposit(0, &id("usd"), &id("a"), 3, 8),
            Ok(0)
        );
        assert_eq!(
            contract.update_sale_distribute_token_id(&engine, &engine, 0, id("token")),
            Ok(())
        );
        assert_eq!(
            contract.update_sale_distribute_token_decimals(&engine, &engine, 0, 2),
            Ok(())
        );
        assert_eq!(contract.update_sale_claim_available(&engine, &engine, 0, true), Ok(()));
        assert_eq!(contract.claim_purchase(id("a"), 0).unwrap().amount, 3);
    }
    assert_eq!(format!("{:?}", old), format!("{:?}", current));
    assert_eq!(
        old.get_sale_account(0, &id("a")),
        Ok(SaleAccount { amount: 38, claimed: 3, refund: 8, refunded: 0 })
    );
    assert!(matches!(old.stored_sale(0), Some(VSale::Current(_))));
}

#[test]
fn refused_call_leaves_an_old_sale_readable_as_before() {
    let mut old = engine_with(VSale::First(old_sale()));
    let before = format!("{:?}", old.get_sale(0).unwrap());
    assert_eq!(
        old.internal_sale_deposit(0, &id("eur"), &id("a"), 3, 8),
        Err(Error::WrongToken)
    );
    assert_eq!(format!("{:?}", old.get_sale(0).unwrap()), before);
    assert_eq!(
        old.get_sale_account(0, &id("a")),
        Ok(SaleAccount { amount: 30, claimed: 0, refund: 0, refunded: 0 })
    );
}
