use launchpad::account::{get_affiliates_num, internal_get_affiliates_vector};
use launchpad::{Account, AccountId, AccountOutput, Contract, Error, VAccount};

fn id(name: &str) -> AccountId {
    AccountId::new_unchecked(name.to_string())
}

fn ids(names: &[&str]) -> Vec<AccountId> {
    names.iter().map(|n| id(n)).collect()
}

fn contract() -> Contract {
    Contract::new(id("owner"), 7, vec![10, 20, 30])
}

#[test]
fn owner_is_its_own_referrer() {
    let c = contract();
    assert_eq!(c.get_num_accounts(), 1);
    let owner = c.get_account(&id("owner")).unwrap();
    assert_eq!(owner.referrer, id("owner"));
    assert_eq!(owner.affiliates_num, 0);
    assert_eq!(c.get_referrals(&id("owner")), ids(&["owner", "owner", "owner"]));
    assert_eq!(c.reward_chain(&id("owner")), ids(&[]));
}

#[test]
fn self_referral_is_rejected() {
    let mut c = contract();
    assert_eq!(c.join(id("a"), 7, None), Ok(()));
    let before = format!("{:?}", c);
    // An account that exists and names itself.
    assert_eq!(c.join(id("a"), 7, Some(id("a"))), Err(Error::SelfReferrer));
    // The owner resolves to itself whatever it names.
    assert_eq!(c.join(id("owner"), 7, None), Err(Error::SelfReferrer));
    assert_eq!(c.join(id("owner"), 7, Some(id("nobody"))), Err(Error::SelfReferrer));
    assert_eq!(c.join(id("owner"), 7, Some(id("a"))), Err(Error::AccountExists));
    assert_eq!(format!("{:?}", c), before);
}

#[test]
fn missing_referrer_falls_back_to_the_owner() {
    let mut c = contract();
    assert_eq!(c.join(id("a"), 7, Some(id("nobody"))), Ok(()));
    assert_eq!(c.get_account(&id("a")).unwrap().referrer, id("owner"));
    assert_eq!(c.join(id("b"), 7, None), Ok(()));
    assert_eq!(c.get_account(&id("b")).unwrap().referrer, id("owner"));
    // A newcomer that names itself does not exist yet: the owner refers it.
    assert_eq!(c.join(id("c"), 7, Some(id("c"))), Ok(()));
    assert_eq!(c.get_account(&id("c")).unwrap().referrer, id("owner"));
    assert_eq!(c.get_account(&id("owner")).unwrap().affiliates_num, 0);
}

#[test]
fn join_checks_existence_and_fee() {
    let mut c = contract();
    assert_eq!(c.join(id("a"), 6, None), Err(Error::Fee));
    assert_eq!(c.join(id("a"), 8, None), Err(Error::Fee));
    assert_eq!(c.get_num_accounts(), 1);
    assert_eq!(c.join(id("a"), 7, None), Ok(()));
    assert_eq!(c.join(id("a"), 7, None), Err(Error::AccountExists));
    assert_eq!(c.join(id("a"), 6, None), Err(Error::AccountExists));
    assert_eq!(c.get_num_accounts(), 2);
    assert_eq!(c.get_join_fee(), 7);
    assert_eq!(c.get_referral_fees(), vec![10, 20, 30]);
}

#[test]
fn affiliates_are_kept_on_three_levels_below_the_owner() {
    let mut c = contract();
    assert_eq!(c.join(id("a"), 7, None), Ok(()));
    assert_eq!(c.join(id("b"), 7, Some(id("a"))), Ok(()));
    assert_eq!(c.join(id("c"), 7, Some(id("b"))), Ok(()));
    assert_eq!(c.join(id("d"), 7, Some(id("c"))), Ok(()));
    assert_eq!(c.join(id("e"), 7, Some(id("d"))), Ok(()));
    assert_eq!(c.join(id("b2"), 7, Some(id("a"))), Ok(()));

    assert_eq!(c.get_affiliates(&id("owner")), Ok((vec![], vec![], vec![])));
    assert_eq!(
        c.get_affiliates(&id("a")),
        Ok((ids(&["b", "b2"]), ids(&["c"]), ids(&["d"])))
    );
    assert_eq!(c.get_affiliates(&id("b")), Ok((ids(&["c"]), ids(&["d"]), ids(&["e"]))));
    assert_eq!(c.get_affiliates(&id("c")), Ok((ids(&["d"]), ids(&["e"]), vec![])));
    assert_eq!(c.get_affiliates(&id("d")), Ok((ids(&["e"]), vec![], vec![])));
    assert_eq!(c.get_affiliates(&id("e")), Ok((vec![], vec![], vec![])));
    assert_eq!(c.get_affiliates(&id("x")), Err(Error::NoAccount));

    assert_eq!(c.get_account(&id("a")).unwrap().affiliates_num, 4);
    assert_eq!(c.get_account(&id("b")).unwrap().affiliates_num, 3);
    assert_eq!(c.get_account(&id("e")).unwrap().affiliates_num, 0);
    assert_eq!(c.get_account(&id("x")).err(), Some(Error::AccountDoesntExist));

    assert_eq!(c.get_referrals(&id("e")), ids(&["d", "c", "b"]));
    assert_eq!(c.get_referrals(&id("c")), ids(&["b", "a", "owner"]));
    assert_eq!(c.get_referrals(&id("a")), ids(&["owner", "owner", "owner"]));
    assert_eq!(c.get_referrals(&id("x")), ids(&[]));
    assert_eq!(c.reward_chain(&id("e")), ids(&["d", "c", "b"]));
    assert_eq!(c.reward_chain(&id("c")), ids(&["b", "a"]));
    assert_eq!(c.reward_chain(&id("b")), ids(&["a"]));
    assert_eq!(c.reward_chain(&id("a")), ids(&[]));
}

#[test]
fn referrals_end_where_an_account_is_missing() {
    let mut c = contract();
    c.store_account(id("a"), Account::new(&id("a"), &id("ghost")));
    c.store_account(id("b"), Account::new(&id("b"), &id("a")));
    assert_eq!(c.get_referrals(&id("b")), ids(&["a", "ghost"]));
    assert_eq!(c.get_referrals(&id("a")), ids(&["ghost"]));
    assert_eq!(c.reward_chain(&id("b")), ids(&["a", "ghost"]));
    // Joining below b records the newcomer with b and a; ghost has no account to keep it.
    assert_eq!(c.join(id("n"), 7, Some(id("b"))), Ok(()));
    assert_eq!(c.get_affiliates(&id("b")), Ok((ids(&["n"]), vec![], vec![])));
    assert_eq!(c.get_affiliates(&id("a")), Ok((vec![], ids(&["n"]), vec![])));
    assert_eq!(c.get_affiliates(&id("ghost")), Err(Error::NoAccount));
}

#[test]
fn affiliate_sets_hold_each_account_once() {
    let mut account = Account::new(&id("a"), &id("owner"));
    account.insert_affiliate(0, id("x"));
    account.insert_affiliate(0, id("y"));
    account.insert_affiliate(0, id("x"));
    account.insert_affiliate(2, id("x"));
    assert_eq!(get_affiliates_num(&account, 0), 2);
    assert_eq!(get_affiliates_num(&account, 1), 0);
    assert_eq!(get_affiliates_num(&account, 2), 1);
    assert_eq!(get_affiliates_num(&account, 3), 0);
    assert_eq!(internal_get_affiliates_vector(&account.affiliates, 0), ids(&["x", "y"]));
    assert_eq!(internal_get_affiliates_vector(&account.affiliates, 7), ids(&[]));
    // The second level is empty, so the third is not counted.
    assert_eq!(AccountOutput::of(&account).affiliates_num, 2);
    let output = AccountOutput::from(Account::from(VAccount::Current(account)));
    assert_eq!(output.affiliates_num, 2);
    assert_eq!(output.referrer, id("owner"));
}

#[test]
fn accounts_are_paged_in_order_of_arrival() {
    let mut c = contract();
    for name in ["a", "b", "c", "d"] {
        assert_eq!(c.join(id(name), 7, None), Ok(()));
    }
    let names = |page: Vec<(AccountId, AccountOutput)>| -> Vec<AccountId> {
        page.into_iter().map(|(k, _)| k).collect()
    };
    assert_eq!(names(c.get_accounts(0, 10)), ids(&["owner", "a", "b", "c", "d"]));
    assert_eq!(names(c.get_accounts(1, 2)), ids(&["a", "b"]));
    assert_eq!(names(c.get_accounts(4, 1)), ids(&["d"]));
    assert_eq!(names(c.get_accounts(4, 0)), ids(&[]));
    assert_eq!(names(c.get_accounts(5, 3)), ids(&[]));
    assert_eq!(names(c.get_accounts(9, 3)), ids(&[]));
    assert_eq!(names(c.get_accounts(3, u64::MAX)), ids(&["c", "d"]));
    assert_eq!(names(c.get_accounts(u64::MAX, u64::MAX)), ids(&[]));
    let page = c.get_accounts(1, 1);
    assert_eq!(page[0].1.referrer, id("owner"));
}
