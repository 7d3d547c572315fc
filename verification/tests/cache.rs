use session_core::account::{Account, AccountCache, CacheCell};
use session_core::errors::SessionError;

#[test]
fn fresh_cache_is_empty() {
    let cache = AccountCache::empty();
    assert!(matches!(cache.current(), Err(SessionError::NotLoggedIn)));
    assert!(cache.logged_in_as().is_none());
}

#[test]
fn current_returns_cached_account() {
    let mut cache = AccountCache::empty();
    cache.set(Account::new(String::from("me@example.com")));
    let account = cache.current().unwrap();
    assert_eq!(account.apple_id, "me@example.com");
    assert_eq!(cache.logged_in_as().as_deref(), Some("me@example.com"));
}

#[test]
fn set_twice_keeps_only_second_account() {
    let mut cache = AccountCache::empty();
    cache.set(Account::new(String::from("first@example.com")));
    cache.set(Account::new(String::from("second@example.com")));
    let account = cache.current().unwrap();
    assert_eq!(account.apple_id, "second@example.com");
}

#[test]
fn invalidate_then_read_fails_with_not_logged_in() {
    let mut cache = AccountCache::empty();
    cache.set(Account::new(String::from("me@example.com")));
    assert!(cache.current().is_ok());
    cache.invalidate();
    assert!(matches!(cache.current(), Err(SessionError::NotLoggedIn)));
    assert!(cache.logged_in_as().is_none());
}

#[test]
fn invalidate_on_empty_cache_is_a_no_op() {
    let mut cache = AccountCache::empty();
    cache.invalidate();
    assert!(matches!(cache.current(), Err(SessionError::NotLoggedIn)));
}

#[test]
fn get_or_init_creates_the_slot_once() {
    let mut cell = CacheCell::new();
    {
        let slot = cell.get_or_init();
        slot.set(Account::new(String::from("me@example.com")));
    }
    // A later access reuses the slot created by the first: the account
    // stored through the first handle is still there.
    let slot = cell.get_or_init();
    assert_eq!(slot.current().unwrap().apple_id, "me@example.com");
}

#[test]
fn get_account_on_fresh_cell_is_not_logged_in() {
    let mut cell = CacheCell::new();
    assert!(matches!(cell.get_account(), Err(SessionError::NotLoggedIn)));
    assert!(cell.logged_in_as().is_none());
}

#[test]
fn invalidate_account_never_creates_the_slot() {
    let mut cell = CacheCell::new();
    cell.invalidate_account();
    assert!(matches!(cell.get_account(), Err(SessionError::NotLoggedIn)));
}

#[test]
fn invalidate_account_clears_an_existing_slot() {
    let mut cell = CacheCell::new();
    cell.get_or_init().set(Account::new(String::from("me@example.com")));
    cell.invalidate_account();
    assert!(matches!(cell.get_account(), Err(SessionError::NotLoggedIn)));
}

#[test]
fn duplicate_shares_the_identifier() {
    let account = Account::new(String::from("me@example.com"));
    let copy = account.duplicate();
    assert_eq!(copy.apple_id, account.apple_id);
}
