//! A collection of accounts, each under its identifier.

use crate::account::{Account, AccountView};
use crate::account_builder::AccountBuilder;
use crate::error::AccountGenError;
use crate::pubkey::Pubkey;
use vstd::prelude::*;

verus! {

/// The map that a sequence of pairs builds when each pair is inserted in turn:
/// of two pairs with one key, the later one stays.
pub open spec fn map_of_pairs<K, V>(pairs: Seq<(K, V)>) -> Map<K, V>
    decreases pairs.len(),
{
    if pairs.len() == 0 {
        Map::empty()
    } else {
        map_of_pairs(pairs.drop_last()).insert(pairs.last().0, pairs.last().1)
    }
}

/// Whether no key occurs twice among the pairs.
pub open spec fn keys_distinct<K, V>(pairs: Seq<(K, V)>) -> bool {
    forall|i: int, j: int| 0 <= i < j < pairs.len() ==> pairs[i].0 != pairs[j].0
}

/// Identifiers and accounts as sequences of bytes and account views.
pub open spec fn entry_views(entries: Seq<(Pubkey, Account)>) -> Seq<(Seq<u8>, AccountView)> {
    Seq::new(entries.len(), |i: int| (entries[i].0@, entries[i].1@))
}

/// What `map_of_pairs` holds: a finite map with exactly the keys of the
/// pairs; where no key occurs twice, one entry for each pair.
pub proof fn lemma_map_of_pairs<K, V>(pairs: Seq<(K, V)>)
    ensures
        map_of_pairs(pairs).dom().finite(),
        forall|k: K|
            map_of_pairs(pairs).contains_key(k) <==> exists|i: int|
                0 <= i < pairs.len() && (#[trigger] pairs[i]).0 == k,
        keys_distinct(pairs) ==> map_of_pairs(pairs).len() == pairs.len(),
        keys_distinct(pairs) ==> forall|i: int|
            0 <= i < pairs.len() ==> map_of_pairs(pairs)[(#[trigger] pairs[i]).0] == pairs[i].1,
    decreases pairs.len(),
{
    if pairs.len() > 0 {
        let front = pairs.drop_last();
        let last = pairs.last();
        lemma_map_of_pairs(front);
        assert forall|k: K|
            map_of_pairs(pairs).contains_key(k) <==> exists|i: int|
                0 <= i < pairs.len() && (#[trigger] pairs[i]).0 == k by {
            if map_of_pairs(front).contains_key(k) {
                let i = choose|i: int| 0 <= i < front.len() && (#[trigger] front[i]).0 == k;
                assert(pairs[i].0 == k);
            }
            if k == last.0 {
                assert(pairs[pairs.len() - 1].0 == k);
            }
            if exists|i: int| 0 <= i < pairs.len() && (#[trigger] pairs[i]).0 == k {
                let i = choose|i: int| 0 <= i < pairs.len() && (#[trigger] pairs[i]).0 == k;
                if i < front.len() {
                    assert(front[i].0 == k);
                }
            }
        }
        if keys_distinct(pairs) {
            assert(keys_distinct(front)) by {
                assert forall|i: int, j: int| 0 <= i < j < front.len() implies front[i].0
                    != front[j].0 by {
                    assert(pairs[i].0 != pairs[j].0);
                }
            }
            assert(!map_of_pairs(front).contains_key(last.0)) by {
                if map_of_pairs(front).contains_key(last.0) {
                    let i = choose|i: int| 0 <= i < front.len() && (#[trigger] front[i]).0 == last.0;
                    assert(pairs[i].0 != pairs[pairs.len() - 1].0);
                }
            }
            assert forall|i: int| 0 <= i < pairs.len() implies map_of_pairs(pairs)[(
            #[trigger] pairs[i]).0] == pairs[i].1 by {
                if i < front.len() {
                    assert(front[i] == pairs[i]);
                    assert(pairs[i].0 != pairs[pairs.len() - 1].0);
                }
            }
        }
    }
}

/// Building a map from the first `n + 1` pairs inserts the last of them into
/// the map of the first `n`.
pub proof fn lemma_map_of_pairs_step<K, V>(pairs: Seq<(K, V)>, n: int)
    requires
        0 <= n < pairs.len(),
    ensures
        map_of_pairs(pairs.take(n + 1)) == map_of_pairs(pairs.take(n)).insert(
            pairs[n].0,
            pairs[n].1,
        ),
{
    assert(pairs.take(n + 1).drop_last() =~= pairs.take(n));
}

/// Replacing the value of one pair, where no key occurs twice, replaces the
/// value under its key in the map.
pub proof fn lemma_update_value<K, V>(pairs: Seq<(K, V)>, i: int, value: V)
    requires
        keys_distinct(pairs),
        0 <= i < pairs.len(),
    ensures
        keys_distinct(pairs.update(i, (pairs[i].0, value))),
        map_of_pairs(pairs.update(i, (pairs[i].0, value))) == map_of_pairs(pairs).insert(
            pairs[i].0,
            value,
        ),
{
    let key = pairs[i].0;
    let after = pairs.update(i, (key, value));
    assert(keys_distinct(after)) by {
        assert forall|a: int, b: int| 0 <= a < b < after.len() implies after[a].0 != after[b].0 by {
            assert(pairs[a].0 != pairs[b].0);
        }
    }
    lemma_map_of_pairs(pairs);
    lemma_map_of_pairs(after);
    assert forall|k: K| #[trigger]
        map_of_pairs(pairs).insert(key, value).contains_key(k) implies map_of_pairs(
        after,
    ).contains_key(k) by {
        if k == key {
            assert(after[i].0 == k);
        } else {
            let j = choose|j: int| 0 <= j < pairs.len() && (#[trigger] pairs[j]).0 == k;
            assert(after[j].0 == k);
        }
    }
    assert forall|k: K| #[trigger] map_of_pairs(after).contains_key(k) implies map_of_pairs(
        pairs,
    ).insert(key, value).contains_key(k) && map_of_pairs(after)[k] == map_of_pairs(pairs).insert(
        key,
        value,
    )[k] by {
        let j = choose|j: int| 0 <= j < after.len() && (#[trigger] after[j]).0 == k;
        if j < i {
            assert(pairs[j].0 == k);
            assert(pairs[j].0 != pairs[i].0);
        } else if j > i {
            assert(pairs[j].0 == k);
            assert(pairs[i].0 != pairs[j].0);
        }
    }
    assert(map_of_pairs(after) =~= map_of_pairs(pairs).insert(key, value));
}

/// Taking one pair out, where no key occurs twice, takes its key out of the map.
pub proof fn lemma_remove_pair<K, V>(pairs: Seq<(K, V)>, i: int)
    requires
        keys_distinct(pairs),
        0 <= i < pairs.len(),
    ensures
        keys_distinct(pairs.remove(i)),
        map_of_pairs(pairs.remove(i)) == map_of_pairs(pairs).remove(pairs[i].0),
{
    let key = pairs[i].0;
    let after = pairs.remove(i);
    assert(keys_distinct(after)) by {
        assert forall|a: int, b: int| 0 <= a < b < after.len() implies after[a].0 != after[b].0 by {
            let a0 = if a < i { a } else { a + 1 };
            let b0 = if b < i { b } else { b + 1 };
            assert(pairs[a0].0 != pairs[b0].0);
        }
    }
    lemma_map_of_pairs(pairs);
    lemma_map_of_pairs(after);
    assert forall|k: K| #[trigger]
        map_of_pairs(pairs).remove(key).contains_key(k) implies map_of_pairs(after).contains_key(
        k,
    ) by {
        let j = choose|j: int| 0 <= j < pairs.len() && (#[trigger] pairs[j]).0 == k;
        let j1 = if j < i { j } else { j - 1 };
        assert(after[j1].0 == k);
    }
    assert forall|k: K| #[trigger] map_of_pairs(after).contains_key(k) implies map_of_pairs(
        pairs,
    ).remove(key).contains_key(k) && map_of_pairs(after)[k] == map_of_pairs(pairs).remove(key)[k] by {
        let j = choose|j: int| 0 <= j < after.len() && (#[trigger] after[j]).0 == k;
        let j0 = if j < i { j } else { j + 1 };
        assert(pairs[j0].0 == k);
        if j0 < i {
            assert(pairs[j0].0 != pairs[i].0);
        } else {
            assert(pairs[i].0 != pairs[j0].0);
        }
    }
    assert(map_of_pairs(after) =~= map_of_pairs(pairs).remove(key));
}

/// Adding a pair with a new key, where no key occurs twice, keeps it so.
pub proof fn lemma_push_pair<K, V>(pairs: Seq<(K, V)>, key: K, value: V)
    requires
        keys_distinct(pairs),
        forall|i: int| 0 <= i < pairs.len() ==> (#[trigger] pairs[i]).0 != key,
    ensures
        keys_distinct(pairs.push((key, value))),
        map_of_pairs(pairs.push((key, value))) == map_of_pairs(pairs).insert(key, value),
{
    let after = pairs.push((key, value));
    assert(after.drop_last() =~= pairs);
    assert forall|a: int, b: int| 0 <= a < b < after.len() implies after[a].0 != after[b].0 by {
        if b < pairs.len() {
            assert(pairs[a].0 != pairs[b].0);
        } else {
            assert(pairs[a].0 != key);
        }
    }
}

/// The identifiers with the accounts at the same places, as pairs.
spec fn zip(keys: Seq<Pubkey>, accounts: Seq<Account>) -> Seq<(Pubkey, Account)> {
    Seq::new(keys.len(), |i: int| (keys[i], accounts[i]))
}

/// The identifiers with the accounts at the same places, as pairs of views.
spec fn pairs(keys: Seq<Pubkey>, accounts: Seq<Account>) -> Seq<(Seq<u8>, AccountView)> {
    entry_views(zip(keys, accounts))
}

/// Whether no identifier occurs twice.
spec fn distinct(keys: Seq<Pubkey>) -> bool {
    forall|i: int, j: int| 0 <= i < j < keys.len() ==> keys[i]@ != keys[j]@
}

/// Whether identifiers and accounts pair up, no identifier twice.
spec fn well_paired(keys: Seq<Pubkey>, accounts: Seq<Account>) -> bool {
    keys.len() == accounts.len() && distinct(keys)
}

/// Identifiers that differ pairwise give pairs whose keys differ pairwise.
proof fn lemma_pairs_distinct(keys: Seq<Pubkey>, accounts: Seq<Account>)
    requires
        well_paired(keys, accounts),
    ensures
        keys_distinct(pairs(keys, accounts)),
{
    let p = pairs(keys, accounts);
    assert forall|i: int, j: int| 0 <= i < j < p.len() implies p[i].0 != p[j].0 by {
        assert(keys[i]@ != keys[j]@);
    }
}

/// Replacing the account at one place replaces it under its identifier.
proof fn lemma_set_at(keys: Seq<Pubkey>, accounts: Seq<Account>, i: int, account: Account)
    requires
        well_paired(keys, accounts),
        0 <= i < keys.len(),
    ensures
        map_of_pairs(pairs(keys, accounts.update(i, account))) == map_of_pairs(
            pairs(keys, accounts),
        ).insert(keys[i]@, account@),
{
    lemma_pairs_distinct(keys, accounts);
    lemma_update_value(pairs(keys, accounts), i, account@);
    assert(pairs(keys, accounts.update(i, account)) =~= pairs(keys, accounts).update(
        i,
        (keys[i]@, account@),
    ));
}

/// The place of an identifier among the identifiers.
fn find_key(keys: &Vec<Pubkey>, pubkey: &Pubkey) -> (found: Option<usize>)
    ensures
        match found {
            Some(i) => i < keys@.len() && keys@[i as int]@ == pubkey@,
            None => forall|i: int| 0 <= i < keys@.len() ==> (#[trigger] keys@[i])@ != pubkey@,
        },
{
    let mut i: usize = 0;
    while i < keys.len()
        invariant
            i <= keys@.len(),
            forall|j: int| 0 <= j < i ==> (#[trigger] keys@[j])@ != pubkey@,
        decreases keys@.len() - i,
    {
        if keys[i] == *pubkey {
            return Some(i);
        }
        i += 1;
    }
    None
}

/// Replaces the account under an identifier, or adds the pair at the end.
fn upsert(keys: &mut Vec<Pubkey>, accounts: &mut Vec<Account>, pubkey: Pubkey, account: Account)
    requires
        well_paired(old(keys)@, old(accounts)@),
    ensures
        well_paired(final(keys)@, final(accounts)@),
        map_of_pairs(pairs(final(keys)@, final(accounts)@)) == map_of_pairs(
            pairs(old(keys)@, old(accounts)@),
        ).insert(pubkey@, account@),
{
    match find_key(keys, &pubkey) {
        Some(i) => {
            proof {
                lemma_set_at(keys@, accounts@, i as int, account);
            }
            accounts.set(i, account);
        },
        None => {
            proof {
                lemma_pairs_distinct(keys@, accounts@);
                assert forall|i: int| 0 <= i < keys@.len() implies (#[trigger] pairs(
                    keys@,
                    accounts@,
                )[i]).0 != pubkey@ by {
                    assert(keys@[i]@ != pubkey@);
                }
                lemma_push_pair(pairs(keys@, accounts@), pubkey@, account@);
                assert(pairs(keys@.push(pubkey), accounts@.push(account)) =~= pairs(
                    keys@,
                    accounts@,
                ).push((pubkey@, account@)));
                assert(distinct(keys@.push(pubkey))) by {
                    assert forall|a: int, b: int| 0 <= a < b < keys@.len() + 1 implies keys@.push(
                        pubkey,
                    )[a]@ != keys@.push(pubkey)[b]@ by {
                        if b < keys@.len() {
                            assert(keys@[a]@ != keys@[b]@);
                        } else {
                            assert(keys@[a]@ != pubkey@);
                        }
                    }
                }
            }
            keys.push(pubkey);
            accounts.push(account);
        },
    }
}

/// Takes the pair of an identifier out, if there is one.
fn remove(keys: &mut Vec<Pubkey>, accounts: &mut Vec<Account>, pubkey: &Pubkey) -> (removed:
    Option<Account>)
    requires
        well_paired(old(keys)@, old(accounts)@),
    ensures
        well_paired(final(keys)@, final(accounts)@),
        map_of_pairs(pairs(final(keys)@, final(accounts)@)) == map_of_pairs(
            pairs(old(keys)@, old(accounts)@),
        ).remove(pubkey@),
        match removed {
            Some(account) => map_of_pairs(pairs(old(keys)@, old(accounts)@)).contains_key(pubkey@)
                && account@ == map_of_pairs(pairs(old(keys)@, old(accounts)@))[pubkey@],
            None => !map_of_pairs(pairs(old(keys)@, old(accounts)@)).contains_key(pubkey@),
        },
{
    let ghost before = pairs(keys@, accounts@);
    proof {
        lemma_pairs_distinct(keys@, accounts@);
        lemma_map_of_pairs(before);
    }
    match find_key(keys, pubkey) {
        Some(i) => {
            proof {
                assert(before[i as int].0 == pubkey@);
                lemma_remove_pair(before, i as int);
                assert(pairs(keys@.remove(i as int), accounts@.remove(i as int)) =~= before.remove(
                    i as int,
                ));
                assert(distinct(keys@.remove(i as int))) by {
                    assert forall|a: int, b: int|
                        0 <= a < b < keys@.len() - 1 implies keys@.remove(i as int)[a]@
                        != keys@.remove(i as int)[b]@ by {
                        let a0 = if a < i { a } else { a + 1 };
                        let b0 = if b < i { b } else { b + 1 };
                        assert(keys@[a0]@ != keys@[b0]@);
                    }
                }
            }
            keys.remove(i);
            let account = accounts.remove(i);
            Some(account)
        },
        None => {
            proof {
                assert forall|i: int| 0 <= i < before.len() implies (#[trigger] before[i]).0
                    != pubkey@ by {
                    assert(keys@[i]@ != pubkey@);
                }
                assert(map_of_pairs(before).remove(pubkey@) =~= map_of_pairs(before));
            }
            None
        },
    }
}

/// A collection of accounts indexed by their identifiers.
///
/// Its view is the map from each identifier, as bytes, to the account kept
/// under it. The accounts are kept in the order in which their identifiers
/// first came in.
#[derive(Debug)]
pub struct AccountMap {
    keys: Vec<Pubkey>,
    accounts: Vec<Account>,
}

impl View for AccountMap {
    type V = Map<Seq<u8>, AccountView>;

    closed spec fn view(&self) -> Map<Seq<u8>, AccountView> {
        map_of_pairs(pairs(self.keys@, self.accounts@))
    }
}

impl Default for AccountMap {
    /// An empty collection.
    fn default() -> (map: AccountMap)
        ensures
            map@ == Map::<Seq<u8>, AccountView>::empty(),
    {
        AccountMap::new()
    }
}

impl Clone for AccountMap {
    fn clone(&self) -> (copy: AccountMap)
        ensures
            copy@ == self@,
            entry_views(copy.entries()) == entry_views(self.entries()),
    {
        proof {
            use_type_invariant(self);
        }
        let keys = self.keys.clone();
        let accounts = self.accounts.clone();
        proof {
            assert(keys@ =~= self.keys@);
            assert(pairs(keys@, accounts@) =~= pairs(self.keys@, self.accounts@));
        }
        AccountMap { keys, accounts }
    }
}

impl AccountMap {
    #[verifier::type_invariant]
    spec fn paired(self) -> bool {
        well_paired(self.keys@, self.accounts@)
    }

    /// The identifiers with their accounts, in the order in which the
    /// collection hands them out.
    pub closed spec fn entries(&self) -> Seq<(Pubkey, Account)> {
        zip(self.keys@, self.accounts@)
    }

    /// Creates an empty collection.
    pub fn new() -> (map: AccountMap)
        ensures
            map@ == Map::<Seq<u8>, AccountView>::empty(),
            map.entries().len() == 0,
    {
        AccountMap { keys: Vec::new(), accounts: Vec::new() }
    }

    /// Puts an account under an identifier; one already kept there is replaced.
    pub fn set_account(&mut self, pubkey: Pubkey, account: Account)
        ensures
            final(self)@ == old(self)@.insert(pubkey@, account@),
    {
        let mut taken = AccountMap::new();
        core::mem::swap(self, &mut taken);
        proof {
            use_type_invariant(&taken);
        }
        let AccountMap { mut keys, mut accounts } = taken;
        upsert(&mut keys, &mut accounts, pubkey, account);
        *self = AccountMap { keys, accounts };
    }

    /// Builds an account and puts it under an identifier.
    pub fn add_with_builder(&mut self, pubkey: Pubkey, builder: AccountBuilder) -> (added: Result<
        &mut AccountMap,
        AccountGenError,
    >)
        requires
            builder@.buildable(),
        ensures
            added matches Ok(map) && map@ == old(self)@.insert(pubkey@, builder@.account())
                && *final(self) == *final(map),
    {
        match builder.try_build() {
            Ok(account) => {
                self.set_account(pubkey, account);
                Ok(self)
            },
            Err(error) => Err(error),
        }
    }

    /// Gets the account kept under an identifier.
    pub fn get_account(&self, pubkey: &Pubkey) -> (found: Option<&Account>)
        ensures
            match found {
                Some(account) => self@.contains_key(pubkey@) && account@ == self@[pubkey@],
                None => !self@.contains_key(pubkey@),
            },
    {
        proof {
            use_type_invariant(self);
            lemma_pairs_distinct(self.keys@, self.accounts@);
            lemma_map_of_pairs(pairs(self.keys@, self.accounts@));
        }
        match find_key(&self.keys, pubkey) {
            Some(i) => {
                assert(pairs(self.keys@, self.accounts@)[i as int].0 == pubkey@);
                Some(&self.accounts[i])
            },
            None => {
                assert forall|i: int| 0 <= i < self.keys@.len() implies (#[trigger] pairs(
                    self.keys@,
                    self.accounts@,
                )[i]).0 != pubkey@ by {
                    assert(self.keys@[i]@ != pubkey@);
                }
                None
            },
        }
    }

    /// Gets the account kept under an identifier, to change it in place.
    pub fn get_account_mut(&mut self, pubkey: &Pubkey) -> (found: Option<&mut Account>)
        ensures
            match found {
                Some(account) => old(self)@.contains_key(pubkey@) && account@ == old(self)@[pubkey@]
                    && final(self)@ == old(self)@.insert(pubkey@, final(account)@),
                None => !old(self)@.contains_key(pubkey@) && final(self)@ == old(self)@,
            },
    {
        proof {
            use_type_invariant(&*self);
            lemma_pairs_distinct(self.keys@, self.accounts@);
            lemma_map_of_pairs(pairs(self.keys@, self.accounts@));
        }
        let ghost keys = self.keys@;
        let ghost accounts = self.accounts@;
        match find_key(&self.keys, pubkey) {
            Some(i) => {
                proof {
                    assert(pairs(keys, accounts)[i as int].0 == pubkey@);
                    assert forall|changed: Account| #[trigger]
                        map_of_pairs(pairs(keys, accounts.update(i as int, changed)))
                            == map_of_pairs(pairs(keys, accounts)).insert(pubkey@, changed@) by {
                        lemma_set_at(keys, accounts, i as int, changed);
                    }
                }
                Some(&mut self.accounts[i])
            },
            None => {
                proof {
                    assert forall|i: int| 0 <= i < keys.len() implies (#[trigger] pairs(
                        keys,
                        accounts,
                    )[i]).0 != pubkey@ by {
                        assert(keys[i]@ != pubkey@);
                    }
                }
                None
            },
        }
    }

    /// Takes out the account kept under an identifier.
    pub fn remove_account(&mut self, pubkey: &Pubkey) -> (removed: Option<Account>)
        ensures
            final(self)@ == old(self)@.remove(pubkey@),
            match removed {
                Some(account) => old(self)@.contains_key(pubkey@) && account@ == old(self)@[pubkey@],
                None => !old(self)@.contains_key(pubkey@),
            },
    {
        let mut taken = AccountMap::new();
        core::mem::swap(self, &mut taken);
        proof {
            use_type_invariant(&taken);
        }
        let AccountMap { mut keys, mut accounts } = taken;
        let removed = remove(&mut keys, &mut accounts, pubkey);
        *self = AccountMap { keys, accounts };
        removed
    }

    /// Lists the identifiers with their accounts, in the collection's order.
    ///
    /// The order does not change until the collection does, and each call
    /// lists all of them anew.
    pub fn iter(&self) -> (listed: Vec<(&Pubkey, &Account)>)
        ensures
            listed@.len() == self.entries().len(),
            forall|i: int|
                0 <= i < listed@.len() ==> *(#[trigger] listed@[i]).0 == self.entries()[i].0
                    && *listed@[i].1 == self.entries()[i].1,
            keys_distinct(entry_views(self.entries())),
            map_of_pairs(entry_views(self.entries())) == self@,
    {
        proof {
            use_type_invariant(self);
            lemma_pairs_distinct(self.keys@, self.accounts@);
        }
        let mut listed: Vec<(&Pubkey, &Account)> = Vec::new();
        let mut i: usize = 0;
        while i < self.keys.len()
            invariant
                self.keys@.len() == self.accounts@.len(),
                i <= self.keys@.len(),
                listed@.len() == i,
                forall|j: int|
                    0 <= j < i ==> *(#[trigger] listed@[j]).0 == self.keys@[j] && *listed@[j].1
                        == self.accounts@[j],
            decreases self.keys@.len() - i,
        {
            listed.push((&self.keys[i], &self.accounts[i]));
            i += 1;
        }
        listed
    }

    /// Creates a collection from pairs, inserting each in turn.
    pub fn from_iter(pairs: Vec<(Pubkey, Account)>) -> (map: AccountMap)
        ensures
            map@ == map_of_pairs(entry_views(pairs@)),
    {
        let ghost all = entry_views(pairs@);
        let ghost items = pairs@;
        let mut map = AccountMap::new();
        for pair in iter: pairs
            invariant
                iter.seq() == items,
                all == entry_views(items),
                map@ == map_of_pairs(all.take(iter.index() as int)),
        {
            proof {
                lemma_map_of_pairs_step(all, iter.index() as int);
            }
            let (pubkey, account) = pair;
            map.set_account(pubkey, account);
        }
        proof {
            assert(all.take(all.len() as int) =~= all);
        }
        map
    }

    /// Hands out the identifiers with their accounts, in the collection's order.
    pub fn into_entries(self) -> (listed: Vec<(Pubkey, Account)>)
        ensures
            listed@ == self.entries(),
            keys_distinct(entry_views(listed@)),
            map_of_pairs(entry_views(listed@)) == self@,
    {
        proof {
            use_type_invariant(&self);
            lemma_pairs_distinct(self.keys@, self.accounts@);
        }
        let ghost all = self.entries();
        let AccountMap { keys, accounts } = self;
        let mut listed: Vec<(Pubkey, Account)> = Vec::new();
        let mut i: usize = 0;
        for account in iter: accounts
            invariant
                i == iter.index(),
                keys@.len() == iter.seq().len(),
                all == zip(keys@, iter.seq()),
                listed@ == all.take(i as int),
        {
            assert(i < keys.len());
            listed.push((keys[i], account));
            proof {
                assert(all.take(i + 1) =~= all.take(i as int).push(all[i as int]));
            }
            i += 1;
        }
        proof {
            assert(all.take(all.len() as int) =~= all);
        }
        listed
    }

    /// Merges another collection into this one.
    ///
    /// Where both hold an account under one identifier, the account of
    /// `other` replaces the one kept here.
    pub fn merge(&mut self, other: AccountMap)
        ensures
            final(self)@ == old(self)@.union_prefer_right(other@),
            forall|key: Seq<u8>| #[trigger]
                other@.contains_key(key) ==> final(self)@.contains_key(key) && final(self)@[key]
                    == other@[key],
            forall|key: Seq<u8>|
                !other@.contains_key(key) ==> (#[trigger] final(self)@.contains_key(key)
                    <==> old(self)@.contains_key(key)),
            forall|key: Seq<u8>|
                !other@.contains_key(key) && old(self)@.contains_key(key)
                    ==> #[trigger] final(self)@[key] == old(self)@[key],
    {
        proof {
            use_type_invariant(&other);
        }
        let ghost start = self@;
        let AccountMap { keys, accounts } = other;
        let ghost all = pairs(keys@, accounts@);
        let mut i: usize = 0;
        proof {
            assert(start.union_prefer_right(map_of_pairs(all.take(0))) =~= start);
        }
        for account in iter: accounts
            invariant
                i == iter.index(),
                keys@.len() == iter.seq().len(),
                all == pairs(keys@, iter.seq()),
                self@ == start.union_prefer_right(map_of_pairs(all.take(i as int))),
        {
            assert(i < keys.len());
            let key = keys[i];
            proof {
                lemma_map_of_pairs_step(all, i as int);
                let done = map_of_pairs(all.take(i as int));
                assert(start.union_prefer_right(done).insert(key@, account@)
                    =~= start.union_prefer_right(done.insert(key@, account@)));
            }
            self.set_account(key, account);
            i += 1;
        }
        proof {
            assert(all.take(all.len() as int) =~= all);
        }
    }

    /// Returns a new collection with the accounts that the predicate accepts.
    ///
    /// The predicate is asked once for each account of the collection, which
    /// is left as it is.
    pub fn filter<F>(&self, predicate: F) -> (kept: AccountMap) where
        F: Fn(&Pubkey, &Account) -> bool,

        requires
            forall|i: int|
                0 <= i < self.entries().len() ==> predicate.requires(
                    (&(#[trigger] self.entries()[i]).0, &self.entries()[i].1),
                ),
        ensures
            forall|key: Seq<u8>| #[trigger]
                kept@.contains_key(key) ==> self@.contains_key(key) && kept@[key] == self@[key],
            forall|i: int|
                0 <= i < self.entries().len() ==> predicate.ensures(
                    (&(#[trigger] self.entries()[i]).0, &self.entries()[i].1),
                    kept@.contains_key(self.entries()[i].0@),
                ),
    {
        proof {
            use_type_invariant(self);
            lemma_pairs_distinct(self.keys@, self.accounts@);
            lemma_map_of_pairs(pairs(self.keys@, self.accounts@));
        }
        let mut keys: Vec<Pubkey> = Vec::new();
        let mut accounts: Vec<Account> = Vec::new();
        let ghost mut from: Seq<int> = Seq::empty();
        let ghost mut flags: Seq<bool> = Seq::empty();
        let mut i: usize = 0;
        while i < self.keys.len()
            invariant
                well_paired(self.keys@, self.accounts@),
                forall|j: int|
                    0 <= j < self.entries().len() ==> predicate.requires(
                        (&(#[trigger] self.entries()[j]).0, &self.entries()[j].1),
                    ),
                i <= self.keys@.len(),
                keys@.len() == accounts@.len(),
                keys@.len() == from.len(),
                flags.len() == i,
                forall|j: int| 0 <= j < from.len() ==> 0 <= #[trigger] from[j] < i,
                forall|a: int, b: int| 0 <= a < b < from.len() ==> from[a] < from[b],
                forall|j: int| 0 <= j < from.len() ==> #[trigger] keys@[j] == self.keys@[from[j]],
                forall|j: int|
                    0 <= j < from.len() ==> (#[trigger] accounts@[j])@ == self.accounts@[from[j]]@,
                forall|j: int|
                    0 <= j < i ==> predicate.ensures(
                        (&(#[trigger] self.entries()[j]).0, &self.entries()[j].1),
                        flags[j],
                    ),
                forall|j: int|
                    0 <= j < i ==> (#[trigger] flags[j] <==> exists|a: int|
                        0 <= a < from.len() && from[a] == j),
            decreases self.keys@.len() - i,
        {
            let ghost entry = self.entries()[i as int];
            assert(entry.0 == self.keys@[i as int] && entry.1 == self.accounts@[i as int]);
            let accepted = predicate(&self.keys[i], &self.accounts[i]);
            let ghost from_before = from;
            let ghost keys_before = keys@;
            let ghost accounts_before = accounts@;
            if accepted {
                let key = self.keys[i];
                let account = self.accounts[i].clone();
                keys.push(key);
                accounts.push(account);
                proof {
                    from = from.push(i as int);
                    assert(keys@ == keys_before.push(key));
                    assert(accounts@ == accounts_before.push(account));
                    assert(account@ == self.accounts@[i as int]@);
                }
            }
            proof {
                assert forall|j: int| 0 <= j < from.len() implies #[trigger] keys@[j]
                    == self.keys@[from[j]] by {
                    if j < from_before.len() {
                        assert(keys@[j] == keys_before[j]);
                        assert(from[j] == from_before[j]);
                    }
                }
                assert forall|j: int| 0 <= j < from.len() implies (#[trigger] accounts@[j])@
                    == self.accounts@[from[j]]@ by {
                    if j < from_before.len() {
                        assert(accounts@[j] == accounts_before[j]);
                        assert(from[j] == from_before[j]);
                    }
                }
                assert forall|j: int| 0 <= j < from.len() implies 0 <= #[trigger] from[j] < i + 1 by {
                    if j < from_before.len() {
                        assert(from[j] == from_before[j]);
                    }
                }
                assert forall|a: int, b: int| 0 <= a < b < from.len() implies from[a] < from[b] by {
                    if b < from_before.len() {
                        assert(from_before[a] < from_before[b]);
                    } else {
                        assert(from[a] == from_before[a]);
                    }
                }
            }
            proof {
                flags = flags.push(accepted);
                assert forall|j: int| 0 <= j < i + 1 implies (#[trigger] flags[j] <==> exists|
                    a: int,
                | 0 <= a < from.len() && from[a] == j) by {
                    if j < i {
                        if exists|a: int| 0 <= a < from_before.len() && from_before[a] == j {
                            let a = choose|a: int|
                                0 <= a < from_before.len() && from_before[a] == j;
                            assert(from[a] == j);
                        }
                        if exists|a: int| 0 <= a < from.len() && from[a] == j {
                            let a = choose|a: int| 0 <= a < from.len() && from[a] == j;
                            assert(from_before[a] == j);
                        }
                    } else if accepted {
                        assert(from[from.len() - 1] == j);
                    } else {
                        if exists|a: int| 0 <= a < from.len() && from[a] == j {
                            let a = choose|a: int| 0 <= a < from.len() && from[a] == j;
                            assert(from_before[a] < i);
                        }
                    }
                }
            }
            i += 1;
        }
        proof {
            assert(distinct(keys@)) by {
                assert forall|a: int, b: int| 0 <= a < b < keys@.len() implies keys@[a]@
                    != keys@[b]@ by {
                    assert(from[a] < from[b]);
                    assert(self.keys@[from[a]]@ != self.keys@[from[b]]@);
                }
            }
            lemma_pairs_distinct(keys@, accounts@);
            lemma_map_of_pairs(pairs(keys@, accounts@));
            let source = pairs(self.keys@, self.accounts@);
            let result = pairs(keys@, accounts@);
            assert forall|key: Seq<u8>| #[trigger]
                map_of_pairs(result).contains_key(key) implies map_of_pairs(source).contains_key(
                key,
            ) && map_of_pairs(result)[key] == map_of_pairs(source)[key] by {
                let a = choose|a: int| 0 <= a < result.len() && (#[trigger] result[a]).0 == key;
                assert(source[from[a]].0 == key);
                assert(source[from[a]].1 == result[a].1);
            }
            assert forall|j: int| 0 <= j < self.entries().len() implies predicate.ensures(
                (&(#[trigger] self.entries()[j]).0, &self.entries()[j].1),
                map_of_pairs(result).contains_key(self.entries()[j].0@),
            ) by {
                let key = self.entries()[j].0@;
                assert(source[j].0 == key);
                if flags[j] {
                    let a = choose|a: int| 0 <= a < from.len() && from[a] == j;
                    assert(result[a].0 == key);
                }
                if map_of_pairs(result).contains_key(key) {
                    let a = choose|a: int| 0 <= a < result.len() && (#[trigger] result[a]).0 == key;
                    let j0 = from[a];
                    assert(self.keys@[j0]@ == self.keys@[j]@);
                    if j0 < j {
                        assert(self.keys@[j0]@ != self.keys@[j]@);
                    } else if j < j0 {
                        assert(self.keys@[j]@ != self.keys@[j0]@);
                    }
                    assert(from[a] == j);
                }
                assert(flags[j] == map_of_pairs(result).contains_key(key));
            }
        }
        AccountMap { keys, accounts }
    }

    /// Returns the number of accounts in the collection.
    pub fn len(&self) -> (count: usize)
        ensures
            count == self@.len(),
            count == self.entries().len(),
    {
        proof {
            use_type_invariant(self);
            lemma_pairs_distinct(self.keys@, self.accounts@);
            lemma_map_of_pairs(pairs(self.keys@, self.accounts@));
        }
        self.keys.len()
    }

    /// Returns true if the collection holds no account.
    pub fn is_empty(&self) -> (empty: bool)
        ensures
            empty <==> self@ == Map::<Seq<u8>, AccountView>::empty(),
            empty <==> self@.len() == 0,
    {
        proof {
            use_type_invariant(self);
            lemma_pairs_distinct(self.keys@, self.accounts@);
            lemma_map_of_pairs(pairs(self.keys@, self.accounts@));
            if self.keys@.len() == 0 {
                assert(self@ =~= Map::<Seq<u8>, AccountView>::empty());
            } else {
                assert(self@.contains_key(pairs(self.keys@, self.accounts@)[0].0));
            }
        }
        self.keys.is_empty()
    }
}

} // verus!
