use launchpad::links::LinkTable;
use launchpad::{AccountId, AccountOld, Contract, Error, OldContract, PublicKey, Table};

fn id(name: &str) -> AccountId {
    AccountId::new_unchecked(name.to_string())
}

fn key(text: &str) -> PublicKey {
    PublicKey::new(text.as_bytes().to_vec())
}

fn old_engine() -> OldContract {
    let mut accounts = Table::new();
    accounts.insert(id("owner"), AccountOld { referrer: id("owner"), links: vec![] });
    accounts.insert(id("a"), AccountOld { referrer: id("owner"), links: vec![key("k")] });
    accounts.insert(id("b"), AccountOld { referrer: id("a"), links: vec![] });
    accounts.insert(id("c"), AccountOld { referrer: id("b"), links: vec![] });
    accounts.insert(id("d"), AccountOld { referrer: id("c"), links: vec![] });
    let mut links = LinkTable::new();
    links.insert(key("k"), id("a"));
    OldContract {
        owner_id: id("owner"),
        join_fee: 9,
        referral_fees: vec![1, 2, 3],
        accounts,
        sales: vec![None],
        links,
    }
}

fn names(contract: &Contract) -> Vec<AccountId> {
    contract.get_accounts(0, 100).into_iter().map(|(k, _)| k).collect()
}

#[test]
fn takeover_keeps_everything_and_parks_the_accounts() {
    let e = id("engine");
    assert_eq!(Contract::migrate_a0(&id("x"), &e, old_engine()).err(), Some(Error::NotOwner));
    let c = Contract::migrate_a0(&e, &e, old_engine()).unwrap();
    assert_eq!(c.owner_id, id("owner"));
    assert_eq!(c.get_join_fee(), 9);
    assert_eq!(c.get_referral_fees(), vec![1, 2, 3]);
    assert_eq!(c.get_num_sales(), 1);
    assert_eq!(c.get_num_accounts(), 0);
    assert_eq!(c.accounts_old.len(), 5);
    assert_eq!(c.get_link_referrer(&key("k")), Ok(id("a")));
}

#[test]
fn accounts_move_over_in_batches() {
    let e = id("engine");
    let mut c = Contract::migrate_a0(&e, &e, old_engine()).unwrap();
    assert_eq!(c.migrate_a1(&id("x"), &e, 2), Err(Error::NotOwner));
    assert_eq!(c.migrate_a1(&e, &e, 0), Ok(5));
    assert_eq!(c.get_num_accounts(), 0);

    assert_eq!(c.migrate_a1(&e, &e, 2), Ok(3));
    assert_eq!(names(&c), vec![id("owner"), id("a")]);
    assert_eq!(c.get_account(&id("a")).unwrap().referrer, id("owner"));
    assert_eq!(c.get_account(&id("a")).unwrap().affiliates_num, 0);
    assert_eq!(c.get_links(&id("a")), Ok(vec![key("k")]));
    assert_eq!(c.get_affiliates(&id("a")), Ok((vec![], vec![], vec![])));

    assert_eq!(c.migrate_a1(&e, &e, 1), Ok(2));
    assert_eq!(c.migrate_a1(&e, &e, 10), Ok(0));
    assert_eq!(c.get_num_accounts(), 5);
    assert_eq!(c.accounts_old.len(), 0);
    for (who, referrer) in [("b", "a"), ("c", "b"), ("d", "c")] {
        assert_eq!(c.get_account(&id(who)).unwrap().referrer, id(referrer));
    }
    assert_eq!(c.migrate_a1(&e, &e, 10), Ok(0));
    assert_eq!(c.get_referrals(&id("d")), vec![id("c"), id("b"), id("a")]);
}

#[test]
fn single_account_moves_over() {
    let e = id("engine");
    let mut c = Contract::migrate_a0(&e, &e, old_engine()).unwrap();
    c.migrate_account(&id("c"));
    assert_eq!(names(&c), vec![id("c")]);
    assert_eq!(c.accounts_old.len(), 4);
    c.migrate_account(&id("c"));
    c.migrate_account(&id("nobody"));
    assert_eq!(names(&c), vec![id("c")]);
    assert_eq!(c.accounts_old.len(), 4);
    let upgraded = AccountOld { referrer: id("r"), links: vec![key("x")] }.upgrade();
    assert_eq!(upgraded.referrer, id("r"));
    assert_eq!(upgraded.links, vec![key("x")]);
    assert!(upgraded.affiliates.level_0.is_empty());
}
