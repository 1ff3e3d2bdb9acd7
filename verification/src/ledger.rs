//! An in-memory store that realizes the storage collaborator's contract:
//! idempotent user creation, lookup by exact name, transactions created with a
//! caller-supplied timestamp and returned in insertion order, and removal by
//! filter. It backs the tests and any use of the library without a database.

use vstd::prelude::*;
use crate::filter::{matches_all, matches_model, models_of, FilterModel, TransactionFilter};
use crate::storage::{StorageRunError, Transaction, TransactionModel, TransactionType, User};
use crate::strutil::str_eq;

verus! {

/// The models of a list of transactions, in order.
pub open spec fn txs_model(s: Seq<Transaction>) -> Seq<TransactionModel> {
    s.map_values(|t: Transaction| t@)
}

/// The predicate "satisfies every filter of the list".
pub open spec fn keeps(fs: Seq<FilterModel>) -> spec_fn(TransactionModel) -> bool {
    |t: TransactionModel| matches_all(fs, t)
}

/// The predicate "does not satisfy the filter".
pub open spec fn survives(f: FilterModel) -> spec_fn(TransactionModel) -> bool {
    |t: TransactionModel| !matches_model(f, t)
}

/// An in-memory ledger of users and transactions.
pub struct Ledger {
    users: Vec<User>,
    transactions: Vec<Transaction>,
    next_user_id: i32,
    next_transaction_id: i32,
}

impl Ledger {
    /// User names are unique, and identifiers already handed out stay below the
    /// next free one.
    pub closed spec fn wf(&self) -> bool {
        &&& forall|i: int, j: int|
            0 <= i < j < self.users@.len() ==> self.users@[i].name_spec()
                != self.users@[j].name_spec()
        &&& forall|i: int|
            0 <= i < self.users@.len() ==> (#[trigger] self.users@[i].id_spec())
                < self.next_user_id
        &&& forall|i: int|
            0 <= i < self.transactions@.len() ==> (#[trigger] self.transactions@[i]@.trans_id)
                < self.next_transaction_id
    }

    /// The names of the stored users, in insertion order.
    pub closed spec fn user_names(&self) -> Seq<Seq<char>> {
        self.users@.map_values(|u: User| u.name_spec())
    }

    /// The identifier of the stored user with the given name.
    pub closed spec fn user_id_of(&self, name: Seq<char>) -> i32 {
        self.users@[choose|i: int|
            0 <= i < self.users@.len() && self.users@[i].name_spec() == name].id_spec()
    }

    /// The identifier the next new user will get.
    pub closed spec fn next_uid(&self) -> i32 {
        self.next_user_id
    }

    /// The identifier the next new transaction will get.
    pub closed spec fn next_tx_id(&self) -> i32 {
        self.next_transaction_id
    }

    /// The stored transactions, in insertion order.
    pub closed spec fn txs(&self) -> Seq<TransactionModel> {
        txs_model(self.transactions@)
    }

    /// An empty ledger.
    pub fn new() -> (r: Self)
        ensures
            r.wf(),
            r.user_names() == Seq::<Seq<char>>::empty(),
            r.txs() == Seq::<TransactionModel>::empty(),
    {
        let r = Ledger {
            users: Vec::new(),
            transactions: Vec::new(),
            next_user_id: 1,
            next_transaction_id: 1,
        };
        proof {
            assert(r.user_names() =~= Seq::<Seq<char>>::empty());
            assert(r.txs() =~= Seq::<TransactionModel>::empty());
        }
        r
    }

    fn find_user(&self, name: &str) -> (r: Option<usize>)
        ensures
            r matches Some(i) ==> i < self.users@.len() && self.users@[i as int].name_spec()
                == name@,
            r is None ==> !self.user_names().contains(name@),
    {
        let mut i: usize = 0;
        while i < self.users.len()
            invariant
                i <= self.users@.len(),
                forall|j: int| 0 <= j < i ==> self.users@[j].name_spec() != name@,
            decreases self.users@.len() - i,
        {
            if str_eq(self.users[i].get_name(), name) {
                return Some(i);
            }
            i = i + 1;
        }
        proof {
            assert(forall|j: int|
                0 <= j < self.user_names().len() ==> self.user_names()[j] != name@);
        }
        None
    }

    /// Creates a new user, doing nothing if one already exists with the same
    /// name. Succeeds whenever the name exists or an identifier remains; fails
    /// exactly when a fresh name finds the identifier space exhausted.
    pub fn create_user(&mut self, name: &str) -> (r: Result<(), StorageRunError>)
        requires
            old(self).wf(),
        ensures
            final(self).wf(),
            final(self).txs() == old(self).txs(),
            old(self).user_names().contains(name@) ==> r is Ok && final(self).user_names() == old(
                self).user_names(),
            !old(self).user_names().contains(name@) && old(self).next_uid() < i32::MAX ==> r
                is Ok,
            !old(self).user_names().contains(name@) && r is Ok ==> final(self).user_names()
                == old(self).user_names().push(name@) && final(self).user_id_of(name@) == old(
                self).next_uid(),
            r is Err ==> r == Err::<(), StorageRunError>(StorageRunError::StorageFailure)
                && final(self).user_names() == old(self).user_names(),
    {
        if let Some(_) = self.find_user(name) {
            proof {
                let i = choose|i: int|
                    0 <= i < self.users@.len() && self.users@[i].name_spec() == name@;
                assert(self.user_names()[i] == name@);
            }
            return Ok(());
        }
        if self.next_user_id == i32::MAX {
            return Err(StorageRunError::StorageFailure);
        }
        let user = User::new(self.next_user_id, name.to_owned());
        self.users.push(user);
        self.next_user_id = self.next_user_id + 1;
        proof {
            assert(self.user_names() =~= old(self).user_names().push(name@));
            assert(self.txs() =~= old(self).txs());
            let n = self.users@.len() - 1;
            let names_old = old(self).user_names();
            assert(forall|j: int| 0 <= j < n ==> self.users@[j] == old(self).users@[j]);
            assert(forall|j: int|
                0 <= j < n ==> (#[trigger] old(self).users@[j].name_spec()) == names_old[j]);
            assert(forall|j: int| 0 <= j < n ==> !(names_old[j] == name@));
            assert(forall|j: int| 0 <= j < n ==> self.users@[j].name_spec() != name@);
            assert(self.users@[n].name_spec() == name@);
            let w = choose|w: int|
                0 <= w < self.users@.len() && self.users@[w].name_spec() == name@;
            assert(w == n);
        }
        Ok(())
    }

    /// Gets a user if one with exactly this name exists, otherwise reports
    /// `RecordMissing`. (Lookup is case-sensitive; callers lowercase first.)
    pub fn get_user(&self, name: &str) -> (r: Result<User, StorageRunError>)
        requires
            self.wf(),
        ensures
            self.user_names().contains(name@) <==> r is Ok,
            r matches Ok(u) ==> u.name_spec() == name@ && u.id_spec() == self.user_id_of(name@),
            r is Err ==> r == Err::<User, StorageRunError>(StorageRunError::RecordMissing),
    {
        match self.find_user(name) {
            Some(i) => {
                let u = self.users[i].clone();
                proof {
                    assert(self.user_names()[i as int] == name@);
                    assert(self.users@[i as int].name_spec() == name@);
                    let w = choose|w: int|
                        0 <= w < self.users@.len() && self.users@[w].name_spec() == name@;
                    assert(w == i as int);
                }
                Ok(u)
            },
            None => Err(StorageRunError::RecordMissing),
        }
    }

    /// Adds a new transaction for a user, with the caller-supplied timestamp.
    /// Succeeds whenever an identifier remains; fails exactly when the
    /// identifier space is exhausted.
    pub fn add_transaction(
        &mut self,
        user: i32,
        amount: i32,
        transaction_type: TransactionType,
        msg: &str,
        timestamp: i64,
    ) -> (r: Result<(), StorageRunError>)
        requires
            old(self).wf(),
        ensures
            final(self).wf(),
            final(self).user_names() == old(self).user_names(),
            old(self).next_tx_id() < i32::MAX ==> r is Ok,
            r is Ok ==> final(self).txs() == old(self).txs().push(
                TransactionModel {
                    trans_id: old(self).next_tx_id(),
                    datetime: timestamp,
                    user_id: user,
                    value: amount,
                    transaction_type,
                    msg: msg@,
                },
            ),
            r is Err ==> r == Err::<(), StorageRunError>(StorageRunError::StorageFailure)
                && final(self).txs() == old(self).txs(),
    {
        if self.next_transaction_id == i32::MAX {
            return Err(StorageRunError::StorageFailure);
        }
        let t = Transaction {
            trans_id: self.next_transaction_id,
            datetime: timestamp,
            user_id: user,
            value: amount,
            transaction_type,
            msg: msg.to_owned(),
        };
        self.transactions.push(t);
        self.next_transaction_id = self.next_transaction_id + 1;
        proof {
            assert(self.txs() =~= old(self).txs().push(
                TransactionModel {
                    trans_id: old(self).next_tx_id(),
                    datetime: timestamp,
                    user_id: user,
                    value: amount,
                    transaction_type,
                    msg: msg@,
                },
            ));
            assert(self.user_names() =~= old(self).user_names());
        }
        Ok(())
    }

    /// The transactions satisfying every filter of the list, in insertion
    /// order; an empty list matches everything.
    pub fn get_transactions(&self, filters: &Vec<TransactionFilter>) -> (r: Vec<Transaction>)
        ensures
            txs_model(r@) == self.txs().filter(keeps(models_of(filters@))),
    {
        let ghost pred = keeps(models_of(filters@));
        let mut out: Vec<Transaction> = Vec::new();
        let mut i: usize = 0;
        proof {
            reveal(Seq::filter);
            assert(txs_model(out@) =~= txs_model(self.transactions@.subrange(0, 0)).filter(pred));
        }
        while i < self.transactions.len()
            invariant
                i <= self.transactions@.len(),
                pred == keeps(models_of(filters@)),
                txs_model(out@) == txs_model(self.transactions@.subrange(0, i as int)).filter(
                    pred),
            decreases self.transactions@.len() - i,
        {
            let keep = matches_all_filters(filters, &self.transactions[i]);
            proof {
                lemma_txs_filter_step(self.transactions@, pred, i as int);
            }
            if keep {
                let ghost before = out@;
                out.push(self.transactions[i].clone());
                proof {
                    assert(txs_model(out@) =~= txs_model(before).push(
                        self.transactions@[i as int]@));
                }
            }
            i = i + 1;
        }
        proof {
            assert(self.transactions@.subrange(0, self.transactions@.len() as int)
                =~= self.transactions@);
        }
        out
    }

    /// Removes every transaction matching the filter; the rest keep their order.
    pub fn remove_transactions(&mut self, filter: &TransactionFilter)
        requires
            old(self).wf(),
        ensures
            final(self).wf(),
            final(self).user_names() == old(self).user_names(),
            final(self).txs() == old(self).txs().filter(survives(filter.model())),
    {
        let ghost pred = survives(filter.model());
        let mut out: Vec<Transaction> = Vec::new();
        let mut i: usize = 0;
        proof {
            reveal(Seq::filter);
            assert(txs_model(out@) =~= txs_model(self.transactions@.subrange(0, 0)).filter(pred));
        }
        while i < self.transactions.len()
            invariant
                i <= self.transactions@.len(),
                pred == survives(filter.model()),
                txs_model(out@) == txs_model(self.transactions@.subrange(0, i as int)).filter(
                    pred),
                old(self).wf(),
                self == old(self),
                forall|k: int|
                    0 <= k < out@.len() ==> (#[trigger] out@[k]@.trans_id)
                        < self.next_transaction_id,
            decreases self.transactions@.len() - i,
        {
            let keep = !filter.matches(&self.transactions[i]);
            proof {
                lemma_txs_filter_step(self.transactions@, pred, i as int);
            }
            if keep {
                let ghost before = out@;
                proof {
                    assert(self.transactions@[i as int]@.trans_id < self.next_transaction_id);
                }
                out.push(self.transactions[i].clone());
                proof {
                    assert(txs_model(out@) =~= txs_model(before).push(
                        self.transactions@[i as int]@));
                }
            }
            i = i + 1;
        }
        proof {
            assert(self.transactions@.subrange(0, self.transactions@.len() as int)
                =~= self.transactions@);
        }
        self.transactions = out;
        proof {
            assert(self.user_names() =~= old(self).user_names());
        }
    }
}

/// Whether a transaction satisfies every filter of the list.
pub fn matches_all_filters(filters: &Vec<TransactionFilter>, t: &Transaction) -> (r: bool)
    ensures
        r == matches_all(models_of(filters@), t@),
{
    let mut i: usize = 0;
    while i < filters.len()
        invariant
            i <= filters@.len(),
            forall|j: int| 0 <= j < i ==> matches_model(#[trigger] models_of(filters@)[j], t@),
        decreases filters@.len() - i,
    {
        if !filters[i].matches(t) {
            proof {
                assert(models_of(filters@)[i as int] == filters@[i as int].model());
                assert(!matches_model(models_of(filters@)[i as int], t@));
            }
            return false;
        }
        proof {
            assert(models_of(filters@)[i as int] == filters@[i as int].model());
        }
        i = i + 1;
    }
    true
}

/// Adding a transaction that belongs to the queried user grows the filtered
/// view of the ledger by exactly that entry: the cache refreshed after a
/// submission is one longer than before, and ends with the new transaction.
pub proof fn lemma_added_transaction_grows_view(txs: Seq<TransactionModel>, t: TransactionModel,
    uid: i32)
    requires
        t.user_id == uid,
    ensures
        txs.push(t).filter(keeps(seq![FilterModel::UserId(seq![uid])])) == txs.filter(
            keeps(seq![FilterModel::UserId(seq![uid])])).push(t),
        txs.push(t).filter(keeps(seq![FilterModel::UserId(seq![uid])])).len() == txs.filter(
            keeps(seq![FilterModel::UserId(seq![uid])])).len() + 1,
{
    reveal(Seq::filter);
    let fs = seq![FilterModel::UserId(seq![uid])];
    let pred = keeps(fs);
    assert(seq![uid][0] == t.user_id);
    assert(seq![uid].contains(t.user_id));
    assert(matches_model(fs[0], t));
    assert(pred(t));
    let whole = txs.push(t);
    assert(whole.drop_last() =~= txs);
    assert(whole.last() == t);
    assert(whole.filter(pred) == whole.drop_last().filter(pred).push(t));
}

proof fn lemma_txs_filter_step(
    txs: Seq<Transaction>,
    pred: spec_fn(TransactionModel) -> bool,
    i: int,
)
    requires
        0 <= i < txs.len(),
    ensures
        txs_model(txs.subrange(0, i + 1)).filter(pred) == if pred(txs[i]@) {
            txs_model(txs.subrange(0, i)).filter(pred).push(txs[i]@)
        } else {
            txs_model(txs.subrange(0, i)).filter(pred)
        },
{
    reveal(Seq::filter);
    let whole = txs_model(txs.subrange(0, i + 1));
    let prefix = txs_model(txs.subrange(0, i));
    assert(whole.drop_last() =~= prefix);
    assert(whole.last() == txs[i]@);
    assert(whole.len() == i + 1);
    if pred(txs[i]@) {
        assert(whole.filter(pred) =~= prefix.filter(pred).push(txs[i]@));
    } else {
        assert(whole.filter(pred) =~= prefix.filter(pred));
    }
}

} // verus!
