//! The transactions of a database connection.
//!
//! The connection and its transactions are held apart: a transaction lives
//! in an arena under a number, and is looked up by that number wherever it
//! is used. A statement runs on the connection itself or on the transaction
//! of a given number.

use crate::text::{push_decimal, spec_decimal};
use std::collections::HashMap;
use vstd::prelude::*;

verus! {

broadcast use vstd::std_specs::hash::group_hash_axioms;

/// Why a statement cannot run.
#[derive(Clone, Copy, Debug, PartialEq, Eq, Structural)]
pub enum DbError {
    /// There is no transaction of that number: it was never begun, or it was
    /// committed or rolled back.
    TransactionNotFound(u32),
}

impl DbError {
    /// The error in words.
    pub open spec fn spec_message(self) -> Seq<char> {
        match self {
            DbError::TransactionNotFound(id) => "Transaction "@ + spec_decimal(id as nat)
                + " not found"@,
        }
    }

    /// The error in words.
    pub fn message(&self) -> (r: String)
        ensures
            r@ == self.spec_message(),
    {
        match self {
            DbError::TransactionNotFound(id) => {
                let mut r = String::from_str("Transaction ");
                push_decimal(&mut r, *id as u64);
                r.append(" not found");
                r
            },
        }
    }
}

/// On what a statement runs.
#[derive(Debug)]
pub enum Target<'a, T> {
    /// On the connection itself.
    Connection,
    /// On a transaction.
    Transaction(&'a T),
}

/// The transactions that are open, each under its number.
pub struct TransactionArena<T> {
    next_id: u32,
    transactions: HashMap<u32, T>,
}

impl<T> TransactionArena<T> {
    /// The transactions that are open, by number.
    pub closed spec fn spec_open(&self) -> Map<u32, T> {
        self.transactions@
    }

    /// The number of the transaction that was begun last; 0 where none was.
    pub closed spec fn spec_last_id(&self) -> u32 {
        self.next_id
    }

    /// Whether every open transaction has a number that was handed out.
    pub closed spec fn wf(&self) -> bool {
        forall|id: u32| self.transactions@.contains_key(id) ==> 0 < id <= self.next_id
    }

    /// An arena without transactions.
    pub fn new() -> (r: TransactionArena<T>)
        ensures
            r.wf(),
            r.spec_open() == Map::<u32, T>::empty(),
            r.spec_last_id() == 0,
    {
        TransactionArena { next_id: 0, transactions: HashMap::new() }
    }

    /// Whether another transaction can be begun: the numbers are not used
    /// up.
    pub fn can_create(&self) -> (r: bool)
        ensures
            r == (self.spec_last_id() < u32::MAX),
    {
        self.next_id < u32::MAX
    }

    /// Takes a transaction that was begun into the arena, under a number
    /// that no transaction had before.
    pub fn create_transaction(&mut self, transaction: T) -> (id: u32)
        requires
            old(self).wf(),
            old(self).spec_last_id() < u32::MAX,
        ensures
            final(self).wf(),
            id == old(self).spec_last_id() + 1,
            final(self).spec_last_id() == id,
            !old(self).spec_open().contains_key(id),
            final(self).spec_open() == old(self).spec_open().insert(id, transaction),
    {
        self.next_id = self.next_id + 1;
        let id = self.next_id;
        self.transactions.insert(id, transaction);
        id
    }

    /// On what a statement runs: on the connection itself where no
    /// transaction is named, else on the transaction of that number, which
    /// must be open.
    pub fn connection(&self, tx: Option<u32>) -> (r: Result<Target<'_, T>, DbError>)
        ensures
            match tx {
                None => r is Ok && r.unwrap() is Connection,
                Some(id) => if self.spec_open().contains_key(id) {
                    r is Ok && (r.unwrap() matches Target::Transaction(t) && *t
                        == self.spec_open()[id])
                } else {
                    r == Err::<Target<'_, T>, DbError>(DbError::TransactionNotFound(id))
                },
            },
    {
        match tx {
            None => Ok(Target::Connection),
            Some(id) => match self.transactions.get(&id) {
                Some(t) => Ok(Target::Transaction(t)),
                None => Err(DbError::TransactionNotFound(id)),
            },
        }
    }

    /// Takes a transaction out of the arena, to be committed or rolled back.
    /// Afterwards no statement runs on it.
    pub fn finish(&mut self, id: u32) -> (r: Result<T, DbError>)
        requires
            old(self).wf(),
        ensures
            final(self).wf(),
            final(self).spec_last_id() == old(self).spec_last_id(),
            final(self).spec_open() == old(self).spec_open().remove(id),
            match r {
                Ok(t) => old(self).spec_open().contains_key(id) && old(self).spec_open()[id] == t,
                Err(e) => !old(self).spec_open().contains_key(id) && e
                    == DbError::TransactionNotFound(id),
            },
    {
        match self.transactions.remove(&id) {
            Some(t) => Ok(t),
            None => Err(DbError::TransactionNotFound(id)),
        }
    }
}

/// A transaction that was finished runs no statement, and no transaction
/// that is begun later takes its number.
pub proof fn law_finished_transaction_stays_finished<T>(
    open: Map<u32, T>,
    last_id: u32,
    id: u32,
    next: T,
)
    requires
        forall|k: u32| open.contains_key(k) ==> 0 < k <= last_id,
        last_id < u32::MAX,
        0 < id <= last_id,
    ensures
        !open.remove(id).contains_key(id),
        !open.remove(id).insert((last_id + 1) as u32, next).contains_key(id),
{
}

} // verus!
