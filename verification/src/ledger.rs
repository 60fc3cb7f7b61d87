//! The ledger: the one owner of all accounts.

use vstd::prelude::*;
use crate::account::Account;
use crate::model::{answer, outcome_of, step, Balances};
use crate::outcome::{LedgerError, Outcome};
use crate::transaction::Transaction;

verus! {

/// The ids of `accounts`, in their order.
pub open spec fn ids_of(accounts: Seq<Account>) -> Seq<u32> {
    Seq::new(accounts.len(), |i: int| accounts[i].id())
}

/// The balances of `accounts` by id. Where an id occurs more than once, the
/// map holds the balance of one of its accounts.
pub open spec fn balances_of(accounts: Seq<Account>) -> Balances {
    Map::new(
        |id: u32| ids_of(accounts).contains(id),
        |id: u32| accounts[ids_of(accounts).index_of(id)].balance() as int,
    )
}

/// Two accounts were given the same id.
#[derive(Clone, Copy, Debug, PartialEq, Eq, Structural)]
pub struct DuplicateAccount {
    /// The id of the first account that repeats the id of an earlier one.
    pub id: u32,
}

/// The id at `j` occurs before `j`, and no id before `j` occurs twice: `j`
/// is the first place where `ids` repeats itself.
pub open spec fn first_repeat(ids: Seq<u32>, j: int) -> bool {
    &&& 0 <= j < ids.len()
    &&& ids.take(j).no_duplicates()
    &&& ids.take(j).contains(ids[j])
}

/// Whether one of the first `end` accounts has the id `id`.
fn occurs_before(accounts: &Vec<Account>, end: usize, id: u32) -> (found: bool)
    requires
        end <= accounts@.len(),
    ensures
        found == ids_of(accounts@).take(end as int).contains(id),
{
    let ghost seen = ids_of(accounts@).take(end as int);
    let mut i: usize = 0;
    while i < end
        invariant
            i <= end <= accounts@.len(),
            seen == ids_of(accounts@).take(end as int),
            forall|k: int| 0 <= k < i ==> seen[k] != id,
        decreases end - i,
    {
        if accounts[i].id() == id {
            assert(seen[i as int] == id);
            return true;
        }
        i = i + 1;
    }
    false
}

/// The authoritative store of accounts. Each id occurs once; accounts are
/// set up when the ledger is made and are neither added nor removed later.
/// Balances change only through the operations of the ledger. Each
/// operation takes the ledger exclusively for its whole duration, so no
/// other operation can observe it half done.
pub struct Ledger {
    accounts: Vec<Account>,
}

impl View for Ledger {
    type V = Balances;

    /// The balances by account id.
    open spec fn view(&self) -> Balances {
        balances_of(self.accounts())
    }
}

impl Ledger {
    #[verifier::type_invariant]
    spec fn unique_ids(&self) -> bool {
        ids_of(self.accounts@).no_duplicates()
    }

    /// The accounts in the order in which they were set up.
    pub closed spec fn accounts(&self) -> Seq<Account> {
        self.accounts@
    }

    /// The account ids in the order in which the accounts were set up.
    pub open spec fn ids(&self) -> Seq<u32> {
        ids_of(self.accounts())
    }

    /// How many accounts the ledger holds.
    pub fn len(&self) -> (len: usize)
        ensures
            len == self.accounts().len(),
    {
        self.accounts.len()
    }

    /// The account at position `index` in the order of set-up, if there are
    /// that many accounts.
    pub fn account_at(&self, index: usize) -> (account: Option<Account>)
        ensures
            account == (if index < self.accounts().len() {
                Some(self.accounts()[index as int])
            } else {
                None
            }),
    {
        if index < self.accounts.len() {
            Some(self.accounts[index])
        } else {
            None
        }
    }

    /// The position of the account `id`, if there is one.
    fn find(&self, id: u32) -> (found: Option<usize>)
        ensures
            match found {
                Some(i) => i < self.accounts@.len() && self.accounts@[i as int].id() == id,
                None => !ids_of(self.accounts@).contains(id),
            },
    {
        let mut i: usize = 0;
        while i < self.accounts.len()
            invariant
                i <= self.accounts@.len(),
                forall|j: int| 0 <= j < i ==> self.accounts@[j].id() != id,
            decreases self.accounts@.len() - i,
        {
            if self.accounts[i].id() == id {
                return Some(i);
            }
            i = i + 1;
        }
        None
    }

    /// Puts `account` in the place of the account at `i`, whose id it has.
    fn replace(&mut self, i: usize, account: Account)
        requires
            i < old(self).accounts@.len(),
            account.id() == old(self).accounts@[i as int].id(),
        ensures
            final(self).accounts@ == old(self).accounts@.update(i as int, account),
            final(self).ids() == old(self).ids(),
            final(self)@ == old(self)@.insert(account.id(), account.balance() as int),
    {
        proof {
            use_type_invariant(&*self);
            lemma_update_balance(self.accounts@, self.accounts@.update(i as int, account), i as int);
        }
        // The list is taken out of the ledger while it is written to and put
        // back whole, so that the ledger holds a list without repeated ids at
        // every moment.
        let mut accounts: Vec<Account> = Vec::new();
        core::mem::swap(&mut self.accounts, &mut accounts);
        accounts.set(i, account);
        core::mem::swap(&mut self.accounts, &mut accounts);
    }

    /// The balance of the account `id`, if the ledger has such an account.
    pub fn balance(&self, id: u32) -> (balance: Option<u64>)
        ensures
            balance == (if self@.contains_key(id) {
                Some(self@[id] as u64)
            } else {
                None
            }),
            self@.contains_key(id) ==> 0 <= self@[id] <= u64::MAX,
    {
        proof {
            use_type_invariant(self);
        }
        match self.find(id) {
            Some(i) => {
                proof {
                    lemma_balance_at(self.accounts@, i as int);
                }
                Some(self.accounts[i].balance())
            },
            None => None,
        }
    }

    /// Credits `amount` to the account `id`.
    ///
    /// Fails if there is no such account, if `amount` is zero, or if the
    /// balance would pass `u64::MAX`; a failure changes nothing.
    pub fn deposit(&mut self, id: u32, amount: u64) -> (result: Result<(), LedgerError>)
        ensures
            result == answer(old(self)@, Transaction::Deposit { account_id: id, amount }),
            final(self)@ == step(old(self)@, Transaction::Deposit { account_id: id, amount }),
            final(self).ids() == old(self).ids(),
    {
        proof {
            use_type_invariant(&*self);
        }
        match self.find(id) {
            None => Err(LedgerError::AccountNotFound { id }),
            Some(i) => {
                proof {
                    lemma_balance_at(self.accounts@, i as int);
                }
                let mut account = self.accounts[i];
                let result = account.deposit(amount);
                if result.is_ok() {
                    self.replace(i, account);
                }
                result
            },
        }
    }

    /// Debits `amount` from the account `id`.
    ///
    /// Fails if there is no such account, if `amount` is zero, or if the
    /// account holds less than `amount`; a failure changes nothing.
    pub fn withdraw(&mut self, id: u32, amount: u64) -> (result: Result<(), LedgerError>)
        ensures
            result == answer(old(self)@, Transaction::Withdraw { account_id: id, amount }),
            final(self)@ == step(old(self)@, Transaction::Withdraw { account_id: id, amount }),
            final(self).ids() == old(self).ids(),
    {
        proof {
            use_type_invariant(&*self);
        }
        match self.find(id) {
            None => Err(LedgerError::AccountNotFound { id }),
            Some(i) => {
                proof {
                    lemma_balance_at(self.accounts@, i as int);
                }
                let mut account = self.accounts[i];
                let result = account.withdraw(amount);
                if result.is_ok() {
                    self.replace(i, account);
                }
                result
            },
        }
    }

    /// Moves `amount` from the account `from_id` to the account `to_id`, as
    /// one indivisible operation: either both balances change, or neither.
    ///
    /// Fails if either account is missing, if `amount` is zero or the two
    /// ids are the same, if `from_id` holds less than `amount`, or if the
    /// balance of `to_id` would pass `u64::MAX`. Both legs are worked out on
    /// copies first, and nothing is written to the ledger unless both have
    /// succeeded.
    pub fn transfer(&mut self, from_id: u32, to_id: u32, amount: u64) -> (result: Result<
        (),
        LedgerError,
    >)
        ensures
            result == answer(old(self)@, Transaction::Transfer { from_id, to_id, amount }),
            final(self)@ == step(old(self)@, Transaction::Transfer { from_id, to_id, amount }),
            final(self).ids() == old(self).ids(),
    {
        proof {
            use_type_invariant(&*self);
        }
        let from: usize = match self.find(from_id) {
            Some(i) => i,
            None => {
                return Err(LedgerError::AccountNotFound { id: from_id });
            },
        };
        proof {
            lemma_balance_at(self.accounts@, from as int);
        }
        let to: usize = match self.find(to_id) {
            Some(i) => i,
            None => {
                return Err(LedgerError::AccountNotFound { id: to_id });
            },
        };
        proof {
            lemma_balance_at(self.accounts@, to as int);
        }
        if from_id == to_id {
            return Err(LedgerError::InvalidTransaction);
        }
        let mut debited = self.accounts[from];
        let mut credited = self.accounts[to];
        debited.withdraw(amount)?;
        credited.deposit(amount)?;
        self.replace(from, debited);
        self.replace(to, credited);
        Ok(())
    }

    /// Applies one transaction and reports what became of it.
    ///
    /// The whole transaction takes effect, or none of it does.
    pub fn apply(&mut self, txn: Transaction) -> (outcome: Outcome)
        ensures
            outcome == outcome_of(old(self)@, txn),
            final(self)@ == step(old(self)@, txn),
            final(self).ids() == old(self).ids(),
    {
        let result = match txn {
            Transaction::Deposit { account_id, amount } => self.deposit(account_id, amount),
            Transaction::Withdraw { account_id, amount } => self.withdraw(account_id, amount),
            Transaction::Transfer { from_id, to_id, amount } => self.transfer(
                from_id,
                to_id,
                amount,
            ),
        };
        Outcome::from_result(result)
    }
}

/// A ledger that holds `accounts`, provided that no two of them share an
/// id. Otherwise the id of the first account that repeats an earlier id
/// is reported.
pub fn new_ledger(accounts: Vec<Account>) -> (result: Result<Ledger, DuplicateAccount>)
    ensures
        match result {
            Ok(ledger) => {
                &&& ids_of(accounts@).no_duplicates()
                &&& ledger.accounts() == accounts@
                &&& forall|i: int|
                    0 <= i < accounts@.len() ==> {
                        &&& ledger@.contains_key(#[trigger] accounts@[i].id())
                        &&& ledger@[accounts@[i].id()] == accounts@[i].balance()
                    }
            },
            Err(duplicate) => exists|j: int|
                {
                    &&& #[trigger] first_repeat(ids_of(accounts@), j)
                    &&& duplicate.id == ids_of(accounts@)[j]
                },
        },
{
    let ghost ids = ids_of(accounts@);
    let mut j: usize = 0;
    while j < accounts.len()
        invariant
            j <= accounts@.len(),
            ids == ids_of(accounts@),
            ids.take(j as int).no_duplicates(),
        decreases accounts@.len() - j,
    {
        let id: u32 = accounts[j].id();
        if occurs_before(&accounts, j, id) {
            assert(first_repeat(ids, j as int));
            return Err(DuplicateAccount { id });
        }
        proof {
            let seen = ids.take(j as int);
            let next = ids.take(j + 1);
            assert forall|a: int, b: int| 0 <= a < next.len() && 0 <= b < next.len() && a != b
                implies next[a] != next[b] by {
                if a < j && b < j {
                    assert(seen[a] != seen[b]);
                } else if a < j {
                    assert(seen.contains(next[a]));
                } else {
                    assert(seen.contains(next[b]));
                }
            }
        }
        j = j + 1;
    }
    proof {
        assert(ids.take(accounts@.len() as int) =~= ids);
        assert forall|i: int| 0 <= i < accounts@.len() implies {
            &&& balances_of(accounts@).contains_key(#[trigger] accounts@[i].id())
            &&& balances_of(accounts@)[accounts@[i].id()] == accounts@[i].balance()
        } by {
            lemma_balance_at(accounts@, i);
        }
    }
    Ok(Ledger { accounts })
}

/// In a sequence without repeated ids, the balance recorded for the id of
/// the account at `i` is the balance of that account.
pub proof fn lemma_balance_at(accounts: Seq<Account>, i: int)
    requires
        ids_of(accounts).no_duplicates(),
        0 <= i < accounts.len(),
    ensures
        balances_of(accounts).contains_key(accounts[i].id()),
        balances_of(accounts)[accounts[i].id()] == accounts[i].balance(),
{
    let ids = ids_of(accounts);
    assert(ids[i] == accounts[i].id());
}

/// Changing the balance of the account at `i`, and nothing else, changes
/// the recorded balances at the id of that account, and nowhere else.
proof fn lemma_update_balance(before: Seq<Account>, after: Seq<Account>, i: int)
    requires
        ids_of(before).no_duplicates(),
        0 <= i < before.len(),
        after.len() == before.len(),
        after[i].id() == before[i].id(),
        forall|j: int| 0 <= j < before.len() && j != i ==> after[j] == before[j],
    ensures
        ids_of(after) == ids_of(before),
        balances_of(after) == balances_of(before).insert(
            before[i].id(),
            after[i].balance() as int,
        ),
{
    assert(ids_of(after) =~= ids_of(before));
    let ids = ids_of(before);
    let id = before[i].id();
    assert(ids[i] == id);
    assert forall|other: u32| ids.contains(other) implies #[trigger] balances_of(after)[other]
        == balances_of(before).insert(id, after[i].balance() as int)[other] by {
        let k = ids.index_of(other);
        assert(ids[k] == other);
        assert(k == i <==> other == id);
    }
}

} // verus!
