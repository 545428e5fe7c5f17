//! Account and transaction records. Money is held in whole cents.

use vstd::prelude::*;

verus! {

/// A bank account with balance and user information; `balance` is in cents.
#[derive(Debug, PartialEq)]
pub struct BankAccount {
    pub user_id: String,
    pub name: String,
    pub account_id: String,
    pub balance: u64,
    pub avatar_color: String,
}

impl Clone for BankAccount {
    fn clone(&self) -> (r: Self)
        ensures
            r == *self,
    {
        BankAccount {
            user_id: self.user_id.clone(),
            name: self.name.clone(),
            account_id: self.account_id.clone(),
            balance: self.balance,
            avatar_color: self.avatar_color.clone(),
        }
    }
}

/// A transaction record between two users (internal storage); `amount` is in cents.
#[derive(Debug, PartialEq)]
pub struct Transaction {
    pub tx_id: String,
    pub from_user: String,
    pub to_user: String,
    pub amount: u64,
    pub timestamp: String,
    pub description: String,
    pub from_name: String,
    pub to_name: String,
}

impl Clone for Transaction {
    fn clone(&self) -> (r: Self)
        ensures
            r == *self,
    {
        Transaction {
            tx_id: self.tx_id.clone(),
            from_user: self.from_user.clone(),
            to_user: self.to_user.clone(),
            amount: self.amount,
            timestamp: self.timestamp.clone(),
            description: self.description.clone(),
            from_name: self.from_name.clone(),
            to_name: self.to_name.clone(),
        }
    }
}

/// A transaction from the perspective of one user: `tx_type` is "debit" when
/// that user sent the funds and "credit" otherwise.
#[derive(Debug, PartialEq)]
pub struct TransactionView {
    pub tx_id: String,
    pub tx_type: String,
    pub counterparty_id: String,
    pub counterparty_name: String,
    pub amount: u64,
    pub description: String,
    pub timestamp: String,
}

/// A bank account together with its transactions as seen by its owner.
#[derive(Debug, PartialEq)]
pub struct BankAccountDetail {
    pub user_id: String,
    pub name: String,
    pub account_id: String,
    pub balance: u64,
    pub avatar_color: String,
    pub transactions: Vec<TransactionView>,
}

impl Transaction {
    /// Whether `user_id` sent the funds of this transaction.
    pub open spec fn is_debit_for(self, user_id: Seq<char>) -> bool {
        self.from_user@ == user_id
    }

    /// `v` is this transaction as seen by `user_id`.
    pub open spec fn is_viewed_as(self, user_id: Seq<char>, v: TransactionView) -> bool {
        let debit = self.is_debit_for(user_id);
        &&& v.tx_id == self.tx_id
        &&& v.tx_type@ == (if debit { "debit"@ } else { "credit"@ })
        &&& v.counterparty_id == (if debit { self.to_user } else { self.from_user })
        &&& v.counterparty_name == (if debit { self.to_name } else { self.from_name })
        &&& v.amount == self.amount
        &&& v.description == self.description
        &&& v.timestamp == self.timestamp
    }

    /// Convert to a user-perspective view (debit/credit, counterparty).
    pub fn to_view(&self, user_id: &str) -> (v: TransactionView)
        ensures
            self.is_viewed_as(user_id@, v),
    {
        let is_debit = crate::text::str_eq(self.from_user.as_str(), user_id);
        TransactionView {
            tx_id: self.tx_id.clone(),
            tx_type: if is_debit { "debit".to_owned() } else { "credit".to_owned() },
            counterparty_id: if is_debit { self.to_user.clone() } else { self.from_user.clone() },
            counterparty_name: if is_debit { self.to_name.clone() } else { self.from_name.clone() },
            amount: self.amount,
            description: self.description.clone(),
            timestamp: self.timestamp.clone(),
        }
    }
}

} // verus!
