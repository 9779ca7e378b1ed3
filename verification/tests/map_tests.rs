use solana_accountgen::extensions::genesis::GenesisAccounts;
use solana_accountgen::{Account, AccountBuilder, AccountMap, Pubkey};

fn key(byte: u8) -> Pubkey {
    Pubkey::new_from_array([byte; 32])
}

fn account_with(lamports: u64) -> Account {
    Account {
        lamports,
        ..Account::default()
    }
}

fn map_of(pairs: &[(u8, u64)]) -> AccountMap {
    AccountMap::from_iter(
        pairs
            .iter()
            .map(|(byte, lamports)| (key(*byte), account_with(*lamports)))
            .collect(),
    )
}

fn balances(map: &AccountMap) -> Vec<(Pubkey, u64)> {
    let mut listed: Vec<(Pubkey, u64)> = map
        .iter()
        .into_iter()
        .map(|(pubkey, account)| (*pubkey, account.lamports))
        .collect();
    listed.sort_by_key(|(pubkey, _)| pubkey.to_bytes());
    listed
}

#[test]
fn new_map_is_empty() {
    let map = AccountMap::new();
    assert_eq!(map.len(), 0);
    assert!(map.is_empty());
    assert!(map.get_account(&key(1)).is_none());
    assert!(map.iter().is_empty());
    assert!(AccountMap::default().is_empty());
}

#[test]
fn set_account_overwrites_an_existing_key() {
    let mut map = AccountMap::new();
    map.set_account(key(1), account_with(10));
    map.set_account(key(2), account_with(20));
    map.set_account(key(1), account_with(11));
    assert_eq!(map.len(), 2);
    assert!(!map.is_empty());
    assert_eq!(map.get_account(&key(1)).unwrap().lamports, 11);
    assert_eq!(map.get_account(&key(2)).unwrap().lamports, 20);
}

#[test]
fn remove_account_takes_out_only_its_key() {
    let mut map = map_of(&[(1, 10), (2, 20), (3, 30)]);
    assert_eq!(map.remove_account(&key(2)), Some(account_with(20)));
    assert_eq!(map.remove_account(&key(2)), None);
    assert_eq!(map.remove_account(&key(9)), None);
    assert_eq!(balances(&map), vec![(key(1), 10), (key(3), 30)]);
}

#[test]
fn get_account_mut_changes_the_account_in_place() {
    let mut map = map_of(&[(1, 10), (2, 20)]);
    map.get_account_mut(&key(2)).unwrap().lamports = 25;
    assert!(map.get_account_mut(&key(3)).is_none());
    assert_eq!(balances(&map), vec![(key(1), 10), (key(2), 25)]);
}

#[test]
fn add_with_builder_can_be_chained() {
    let mut map = AccountMap::new();
    map.add_with_builder(key(1), AccountBuilder::new().balance(1))
        .unwrap()
        .add_with_builder(key(2), AccountBuilder::new().balance(2))
        .unwrap()
        .add_with_builder(key(1), AccountBuilder::new())
        .unwrap();
    assert_eq!(balances(&map), vec![(key(1), 890_880), (key(2), 2)]);
}

#[test]
fn from_iter_inserts_in_order() {
    let map = map_of(&[(1, 10), (2, 20), (1, 30)]);
    assert_eq!(map.len(), 2);
    assert_eq!(balances(&map), vec![(key(1), 30), (key(2), 20)]);

    let two = AccountMap::from_iter(vec![
        (key(4), Account::default()),
        (key(5), Account::default()),
    ]);
    assert_eq!(two.len(), 2);
}

#[test]
fn iter_lists_every_account_once_and_again() {
    let map = map_of(&[(3, 30), (1, 10), (2, 20)]);
    let first: Vec<(Pubkey, u64)> = map
        .iter()
        .into_iter()
        .map(|(pubkey, account)| (*pubkey, account.lamports))
        .collect();
    let second: Vec<(Pubkey, u64)> = map
        .iter()
        .into_iter()
        .map(|(pubkey, account)| (*pubkey, account.lamports))
        .collect();
    assert_eq!(first, second);
    assert_eq!(first.len(), 3);
    assert_eq!(balances(&map), vec![(key(1), 10), (key(2), 20), (key(3), 30)]);
}

#[test]
fn into_entries_hands_out_what_iter_lists() {
    let map = map_of(&[(3, 30), (1, 10), (2, 20), (3, 31)]);
    let listed: Vec<(Pubkey, Account)> = map
        .iter()
        .into_iter()
        .map(|(pubkey, account)| (*pubkey, account.clone()))
        .collect();
    assert_eq!(map.into_entries(), listed);
}

#[test]
fn merge_prefers_the_incoming_account() {
    let mut base = map_of(&[(1, 10), (2, 20), (3, 30)]);
    let overrides = map_of(&[(2, 200), (4, 400)]);
    base.merge(overrides);
    assert_eq!(
        balances(&base),
        vec![(key(1), 10), (key(2), 200), (key(3), 30), (key(4), 400)]
    );
}

#[test]
fn merge_is_decided_by_the_argument_not_by_insertion_time() {
    let mut late = AccountMap::new();
    let mut early = AccountMap::new();
    early.set_account(key(1), account_with(1));
    late.set_account(key(1), account_with(2));

    let mut into_late = late.clone();
    into_late.merge(early.clone());
    assert_eq!(balances(&into_late), vec![(key(1), 1)]);

    let mut into_early = early;
    into_early.merge(late);
    assert_eq!(balances(&into_early), vec![(key(1), 2)]);
}

#[test]
fn merge_of_disjoint_maps_keeps_everything() {
    let mut map1 = AccountMap::new();
    map1.set_account(key(1), Account::default());
    let mut map2 = AccountMap::new();
    map2.set_account(key(2), Account::default());
    map1.merge(map2);
    assert_eq!(map1.len(), 2);

    map1.merge(AccountMap::new());
    assert_eq!(map1.len(), 2);
}

#[test]
fn filter_keeps_what_the_predicate_accepts() {
    let map = map_of(&[(1, 100), (2, 200), (3, 300)]);
    let rich = map.filter(|_, account| account.lamports > 150);
    assert_eq!(balances(&rich), vec![(key(2), 200), (key(3), 300)]);
    assert_eq!(map.len(), 3);

    let by_key = map.filter(|pubkey, _| *pubkey == key(1));
    assert_eq!(balances(&by_key), vec![(key(1), 100)]);

    assert!(map.filter(|_, _| false).is_empty());
    assert_eq!(balances(&map.filter(|_, _| true)), balances(&map));
}

#[test]
fn filter_asks_the_predicate_once_for_each_account() {
    let map = map_of(&[(1, 100), (2, 200), (3, 300)]);
    let asked = std::cell::Cell::new(0);
    let kept = map.filter(|_, account| {
        asked.set(asked.get() + 1);
        account.lamports == 200
    });
    assert_eq!(asked.get(), 3);
    assert_eq!(kept.len(), 1);
}

#[test]
fn cloned_map_is_independent() {
    let map = map_of(&[(1, 10)]);
    let mut copy = map.clone();
    copy.set_account(key(2), account_with(20));
    assert_eq!(map.len(), 1);
    assert_eq!(copy.len(), 2);
}

#[test]
fn genesis_accounts_collect_accounts_and_maps() {
    let mut genesis = GenesisAccounts::new();
    assert!(genesis.is_empty());
    assert!(GenesisAccounts::default().is_empty());

    genesis
        .add_account(key(1), account_with(10))
        .add_account(key(2), account_with(20));
    genesis.add_account_map(map_of(&[(2, 21), (3, 30)]));
    assert_eq!(genesis.len(), 3);
    assert!(!genesis.is_empty());

    let mut listed: Vec<(Pubkey, u64)> = genesis
        .iter()
        .into_iter()
        .map(|(pubkey, account)| (*pubkey, account.lamports))
        .collect();
    listed.sort_by_key(|(pubkey, _)| pubkey.to_bytes());
    assert_eq!(listed, vec![(key(1), 10), (key(2), 21), (key(3), 30)]);

    let mut handed: Vec<(Pubkey, u64)> = genesis
        .into_entries()
        .into_iter()
        .map(|(pubkey, account)| (pubkey, account.lamports))
        .collect();
    handed.sort_by_key(|(pubkey, _)| pubkey.to_bytes());
    assert_eq!(handed, listed);
}
