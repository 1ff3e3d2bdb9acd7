//! The data the ledger stores: users, transactions and their type, together
//! with the errors a storage collaborator can report.

use vstd::prelude::*;
use crate::decimal::{dec_str_int, i32_to_string};
use vstd::string::StringExecFns;

verus! {

/// The type of a transaction, used for filtering.
#[derive(Clone, Copy, PartialEq, Eq, Structural, Debug)]
pub enum TransactionType {
    Other,
    Character,
    MissionReward,
}

/// Error raised when an integer does not map to a `TransactionType` variant.
#[derive(Clone, Copy, PartialEq, Eq, Structural, Debug)]
pub struct MissingVariant {
    /// The integer that matched no variant.
    pub value: i32,
}

impl TransactionType {
    /// The integer representation of each variant, as the rows store it.
    pub open spec fn repr_spec(self) -> i32 {
        match self {
            TransactionType::Other => 0,
            TransactionType::Character => 1,
            TransactionType::MissionReward => 2,
        }
    }

    /// The variant a stored integer stands for, if any.
    pub open spec fn from_repr_spec(value: i32) -> Option<TransactionType> {
        if value == 0 {
            Some(TransactionType::Other)
        } else if value == 1 {
            Some(TransactionType::Character)
        } else if value == 2 {
            Some(TransactionType::MissionReward)
        } else {
            None
        }
    }

    /// The integer the variant is stored as.
    pub fn repr(self) -> (r: i32)
        ensures
            r == self.repr_spec(),
    {
        match self {
            TransactionType::Other => 0,
            TransactionType::Character => 1,
            TransactionType::MissionReward => 2,
        }
    }

    /// Reads a variant back from its stored integer; integers outside the
    /// enumeration give a `MissingVariant` error.
    pub fn try_from_repr(value: i32) -> (r: Result<TransactionType, MissingVariant>)
        ensures
            Self::from_repr_spec(value) matches Some(t) ==> r == Ok::<TransactionType,
                MissingVariant>(t),
            Self::from_repr_spec(value) is None ==> r == Err::<TransactionType, MissingVariant>(
                MissingVariant { value }),
    {
        if value == 0 {
            Ok(TransactionType::Other)
        } else if value == 1 {
            Ok(TransactionType::Character)
        } else if value == 2 {
            Ok(TransactionType::MissionReward)
        } else {
            Err(MissingVariant { value })
        }
    }

    /// The variant after this one, wrapping at the end.
    pub open spec fn next_spec(self) -> Self {
        match self {
            TransactionType::Other => TransactionType::Character,
            TransactionType::Character => TransactionType::MissionReward,
            TransactionType::MissionReward => TransactionType::Other,
        }
    }

    /// The variant before this one, wrapping at the start.
    pub open spec fn prev_spec(self) -> Self {
        match self {
            TransactionType::Other => TransactionType::MissionReward,
            TransactionType::Character => TransactionType::Other,
            TransactionType::MissionReward => TransactionType::Character,
        }
    }

    /// Returns the next type of transaction from the enumeration, wrapping
    /// around at the end.
    pub fn next(self) -> (r: Self)
        ensures
            r == self.next_spec(),
    {
        match self {
            TransactionType::Other => TransactionType::Character,
            TransactionType::Character => TransactionType::MissionReward,
            TransactionType::MissionReward => TransactionType::Other,
        }
    }

    /// Returns the previous type of transaction from the enumeration, wrapping
    /// around at the start.
    pub fn prev(self) -> (r: Self)
        ensures
            r == self.prev_spec(),
    {
        match self {
            TransactionType::Other => TransactionType::MissionReward,
            TransactionType::Character => TransactionType::Other,
            TransactionType::MissionReward => TransactionType::Character,
        }
    }

    /// The display name of the variant.
    pub fn name(self) -> (r: &'static str)
        ensures
            r@ == self.name_spec(),
    {
        match self {
            TransactionType::Other => "Other",
            TransactionType::Character => "Character",
            TransactionType::MissionReward => "MissionReward",
        }
    }

    /// The display name of each variant.
    pub open spec fn name_spec(self) -> Seq<char> {
        match self {
            TransactionType::Other => "Other"@,
            TransactionType::Character => "Character"@,
            TransactionType::MissionReward => "MissionReward"@,
        }
    }
}

impl MissingVariant {
    /// A short description of the error.
    pub fn message(&self) -> (r: String)
        ensures
            r@ == "Missing variant for: "@ + dec_str_int(self.value as int),
    {
        let mut s = String::from_str("Missing variant for: ");
        s.append(i32_to_string(self.value).as_str());
        s
    }
}

/// A map with one slot per `TransactionType` variant.
#[derive(Clone, Copy, PartialEq, Eq, Structural, Debug)]
pub struct TransactionTypeMap<T> {
    /// Slot for `TransactionType::Other`.
    pub other: T,
    /// Slot for `TransactionType::Character`.
    pub character: T,
    /// Slot for `TransactionType::MissionReward`.
    pub mission_reward: T,
}

impl<T> TransactionTypeMap<T> {
    /// The slot a key selects.
    pub open spec fn spec_get(self, key: TransactionType) -> T {
        match key {
            TransactionType::Other => self.other,
            TransactionType::Character => self.character,
            TransactionType::MissionReward => self.mission_reward,
        }
    }

    /// Builds a map from its three slots, in enumeration order.
    pub fn build(other: T, character: T, mission_reward: T) -> (r: Self)
        ensures
            r.other == other,
            r.character == character,
            r.mission_reward == mission_reward,
    {
        TransactionTypeMap { other, character, mission_reward }
    }

    /// Reads the slot of the given key.
    pub fn get(&self, key: TransactionType) -> (r: &T)
        ensures
            r == self.spec_get(key),
    {
        match key {
            TransactionType::Other => &self.other,
            TransactionType::Character => &self.character,
            TransactionType::MissionReward => &self.mission_reward,
        }
    }

    /// Replaces the slot of the given key.
    pub fn set(&mut self, key: TransactionType, value: T)
        ensures
            final(self).spec_get(key) == value,
            forall|k: TransactionType| k != key ==> final(self).spec_get(k) == old(
                self).spec_get(k),
    {
        match key {
            TransactionType::Other => self.other = value,
            TransactionType::Character => self.character = value,
            TransactionType::MissionReward => self.mission_reward = value,
        }
    }

    /// The slot values, in enumeration order.
    pub fn values(&self) -> (r: Vec<&T>)
        ensures
            r@.len() == 3,
            r@[0] == &self.other,
            r@[1] == &self.character,
            r@[2] == &self.mission_reward,
    {
        let mut v: Vec<&T> = Vec::new();
        v.push(&self.other);
        v.push(&self.character);
        v.push(&self.mission_reward);
        v
    }

    /// Key and slot value pairs, in enumeration order.
    pub fn kv_pairs(&self) -> (r: Vec<(TransactionType, &T)>)
        ensures
            r@.len() == 3,
            r@[0] == (TransactionType::Other, &self.other),
            r@[1] == (TransactionType::Character, &self.character),
            r@[2] == (TransactionType::MissionReward, &self.mission_reward),
    {
        let mut v: Vec<(TransactionType, &T)> = Vec::new();
        v.push((TransactionType::Other, &self.other));
        v.push((TransactionType::Character, &self.character));
        v.push((TransactionType::MissionReward, &self.mission_reward));
        v
    }
}

/// A valid user from the store.
pub struct User {
    id: i32,
    name: String,
}

/// The identifying attributes of a user.
#[verifier::ext_equal]
pub struct UserModel {
    /// The user's identifier.
    pub id: i32,
    /// The user's name, as a character sequence.
    pub name: Seq<char>,
}

impl View for User {
    type V = UserModel;

    closed spec fn view(&self) -> UserModel {
        UserModel { id: self.id, name: self.name@ }
    }
}

impl User {
    /// The user's identifier.
    pub open spec fn id_spec(&self) -> i32 {
        self@.id
    }

    /// The user's name, as a character sequence.
    pub open spec fn name_spec(&self) -> Seq<char> {
        self@.name
    }

    /// Builds a user record from its identifier and name.
    pub fn new(id: i32, name: String) -> (r: Self)
        ensures
            r.id_spec() == id,
            r.name_spec() == name@,
    {
        User { id, name }
    }

    /// Returns the stored id of the user.
    pub fn get_id(&self) -> (r: i32)
        ensures
            r == self.id_spec(),
    {
        self.id
    }

    /// Returns a string slice of the username.
    pub fn get_name(&self) -> (r: &str)
        ensures
            r@ == self.name_spec(),
    {
        self.name.as_str()
    }
}

impl Clone for User {
    /// The copy carries the same identifier and name.
    fn clone(&self) -> (r: Self)
        ensures
            r.id_spec() == self.id_spec(),
            r.name_spec() == self.name_spec(),
    {
        User { id: self.id, name: self.name.clone() }
    }
}

/// A transaction from the store. The timestamp is seconds since the Unix epoch.
pub struct Transaction {
    /// Row identifier.
    pub trans_id: i32,
    /// Seconds since the Unix epoch at creation time.
    pub datetime: i64,
    /// The user the transaction belongs to.
    pub user_id: i32,
    /// The signed amount.
    pub value: i32,
    /// The kind of transaction.
    pub transaction_type: TransactionType,
    /// A free-form note.
    pub msg: String,
}

/// The attributes of a transaction that filters and equality care about.
#[verifier::ext_equal]
pub struct TransactionModel {
    /// Row identifier.
    pub trans_id: i32,
    /// Seconds since the Unix epoch at creation time.
    pub datetime: i64,
    /// The user the transaction belongs to.
    pub user_id: i32,
    /// The signed amount.
    pub value: i32,
    /// The kind of transaction.
    pub transaction_type: TransactionType,
    /// The note, as a character sequence.
    pub msg: Seq<char>,
}

impl View for Transaction {
    type V = TransactionModel;

    open spec fn view(&self) -> TransactionModel {
        TransactionModel {
            trans_id: self.trans_id,
            datetime: self.datetime,
            user_id: self.user_id,
            value: self.value,
            transaction_type: self.transaction_type,
            msg: self.msg@,
        }
    }
}

impl Clone for Transaction {
    /// The copy carries the same attributes.
    fn clone(&self) -> (r: Self)
        ensures
            r@ == self@,
    {
        Transaction {
            trans_id: self.trans_id,
            datetime: self.datetime,
            user_id: self.user_id,
            value: self.value,
            transaction_type: self.transaction_type,
            msg: self.msg.clone(),
        }
    }
}

/// Errors a storage collaborator can report while the ledger is in use.
/// `RecordMissing` is expected and recoverable (it drives the create-user
/// flow); `StorageFailure` is fatal to the current interaction.
#[derive(Clone, Copy, PartialEq, Eq, Structural, Debug)]
pub enum StorageRunError {
    /// An expected record could not be found.
    RecordMissing,
    /// The underlying persistence layer failed.
    StorageFailure,
}

} // verus!
