use launchpad::onboarding::{ACCESS_KEY_ALLOWANCE, CREATE_ACCOUNT_AMOUNT, CREATE_LINK_AMOUNT};
use launchpad::{AccountId, Contract, Error, PublicKey};

fn id(name: &str) -> AccountId {
    AccountId::new_unchecked(name.to_string())
}

fn key(text: &str) -> PublicKey {
    PublicKey::new(text.as_bytes().to_vec())
}

fn engine() -> Contract {
    let mut c = Contract::new(id("owner"), 0, vec![1, 2, 3]);
    assert_eq!(c.join(id("a"), 0, None), Ok(()));
    assert_eq!(c.join(id("b"), 0, None), Ok(()));
    c
}

#[test]
fn amounts_are_a_hundredth_of_a_unit() {
    let one_near: u128 = 10u128.pow(24);
    assert_eq!(CREATE_LINK_AMOUNT, one_near / 100);
    assert_eq!(ACCESS_KEY_ALLOWANCE, one_near / 100);
    assert_eq!(CREATE_ACCOUNT_AMOUNT, one_near / 100);
}

#[test]
fn keys_compare_by_their_bytes() {
    assert_eq!(key("k"), key("k"));
    assert_ne!(key("k"), key("l"));
    assert_ne!(key("k"), key("kk"));
    assert_ne!(key(""), key("k"));
    assert_eq!(key(""), key(""));
    assert_eq!(key("abc").clone(), key("abc"));
}

#[test]
fn link_is_made_once_by_an_account_that_pays() {
    let mut c = engine();
    assert_eq!(
        c.create_link(&id("a"), CREATE_LINK_AMOUNT - 1, key("k")).err(),
        Some(Error::WrongDeposit)
    );
    assert_eq!(
        c.create_link(&id("nobody"), CREATE_LINK_AMOUNT, key("k")).err(),
        Some(Error::NoAccount)
    );
    let grant = c.create_link(&id("a"), CREATE_LINK_AMOUNT, key("k")).unwrap();
    assert_eq!(grant.public_key, key("k"));
    assert_eq!(grant.allowance, ACCESS_KEY_ALLOWANCE);
    assert_eq!(
        c.create_link(&id("a"), CREATE_LINK_AMOUNT, key("k")).err(),
        Some(Error::DuplicateKey)
    );
    assert_eq!(
        c.create_link(&id("b"), CREATE_LINK_AMOUNT, key("k")).err(),
        Some(Error::DuplicateKey)
    );
    assert!(c.create_link(&id("a"), CREATE_LINK_AMOUNT, key("l")).is_ok());
    assert!(c.create_link(&id("b"), CREATE_LINK_AMOUNT, key("m")).is_ok());
    assert_eq!(c.get_link_referrer(&key("k")), Ok(id("a")));
    assert_eq!(c.get_link_referrer(&key("m")), Ok(id("b")));
    assert_eq!(c.get_link_referrer(&key("z")), Err(Error::NoKey));
    assert_eq!(c.get_links(&id("a")), Ok(vec![key("k"), key("l")]));
    assert_eq!(c.get_links(&id("b")), Ok(vec![key("m")]));
    assert_eq!(c.get_links(&id("owner")), Ok(vec![]));
    assert_eq!(c.get_links(&id("nobody")), Err(Error::NoAccount));
}

#[test]
fn link_is_removed_by_its_maker() {
    let mut c = engine();
    for k in ["k", "l", "m"] {
        assert!(c.create_link(&id("a"), CREATE_LINK_AMOUNT, key(k)).is_ok());
    }
    assert_eq!(c.remove_link(&id("a"), key("z")).err(), Some(Error::NoLink));
    assert_eq!(c.remove_link(&id("b"), key("k")).err(), Some(Error::NotLinkOwner));
    assert_eq!(c.remove_link(&id("a"), key("k")), Ok(key("k")));
    assert_eq!(c.remove_link(&id("a"), key("k")).err(), Some(Error::NoLink));
    // the last key took the freed place
    assert_eq!(c.get_links(&id("a")), Ok(vec![key("m"), key("l")]));
    assert_eq!(c.get_link_referrer(&key("l")), Ok(id("a")));
    assert_eq!(c.get_link_referrer(&key("m")), Ok(id("a")));
    assert_eq!(c.internal_remove_link(&id("nobody"), key("l")).err(), Some(Error::NoAccount));
    assert_eq!(c.internal_remove_link(&id("a"), key("l")), Ok(key("l")));
    assert_eq!(c.get_links(&id("a")), Ok(vec![key("m")]));
}

#[test]
fn account_creation_is_asked_for_by_the_engine_itself() {
    let c = engine();
    let e = id("engine");
    assert_eq!(
        c.create_account(&id("a"), &e, id("new"), key("k")).err(),
        Some(Error::NotOwner)
    );
    let creation = c.create_account(&e, &e, id("new"), key("k")).unwrap();
    assert_eq!(creation.new_account_id, id("new"));
    assert_eq!(creation.new_public_key, key("k"));
    assert_eq!(creation.amount, CREATE_ACCOUNT_AMOUNT);
}

#[test]
fn created_account_is_referred_by_the_maker_of_the_link() {
    let mut c = engine();
    let e = id("engine");
    assert!(c.create_link(&id("a"), CREATE_LINK_AMOUNT, key("k")).is_ok());
    assert_eq!(
        c.on_create_account(&id("a"), &e, key("k"), id("new")).err(),
        Some(Error::NotOwner)
    );
    assert_eq!(c.on_create_account(&e, &e, key("z"), id("new")).err(), Some(Error::NoLink));
    assert_eq!(c.get_num_accounts(), 3);
    assert_eq!(c.on_create_account(&e, &e, key("k"), id("new")), Ok(key("k")));
    assert_eq!(c.get_num_accounts(), 4);
    assert_eq!(c.get_account(&id("new")).unwrap().referrer, id("a"));
    // the link is used up
    assert_eq!(c.get_link_referrer(&key("k")), Err(Error::NoKey));
    assert_eq!(c.get_links(&id("a")), Ok(vec![]));
    assert_eq!(c.on_create_account(&e, &e, key("k"), id("other")).err(), Some(Error::NoLink));
}
