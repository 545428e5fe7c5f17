//! In-memory bank ledger with the three demo accounts.

use vstd::prelude::*;

use crate::banking::models::{BankAccount, BankAccountDetail, Transaction, TransactionView};
use crate::text::{push_str, str_eq};

verus! {

/// Sum of all balances, in cents.
pub open spec fn total_balance(s: Seq<BankAccount>) -> int
    decreases s.len(),
{
    if s.len() == 0 {
        0
    } else {
        total_balance(s.drop_last()) + s.last().balance
    }
}

/// Some account belongs to `uid`.
pub open spec fn has_user(s: Seq<BankAccount>, uid: Seq<char>) -> bool {
    exists|i: int| 0 <= i < s.len() && s[i].user_id@ == uid
}

/// No two accounts share a user id.
pub open spec fn user_ids_unique(s: Seq<BankAccount>) -> bool {
    forall|i: int, j: int|
        0 <= i < s.len() && 0 <= j < s.len() && #[trigger] s[i].user_id@ == #[trigger] s[j].user_id@
            ==> i == j
}

/// The position of the account of `uid` (meaningful when `has_user`).
pub open spec fn user_index(s: Seq<BankAccount>, uid: Seq<char>) -> int {
    choose|i: int| 0 <= i < s.len() && s[i].user_id@ == uid
}

/// The account of `uid`, if there is one.
pub open spec fn account_of(s: Seq<BankAccount>, uid: Seq<char>) -> Option<BankAccount> {
    if has_user(s, uid) {
        Some(s[user_index(s, uid)])
    } else {
        None
    }
}

/// `a` with its balance replaced by `b`.
pub open spec fn with_balance(a: BankAccount, b: u64) -> BankAccount {
    BankAccount { balance: b, ..a }
}

/// `t` was sent or received by `uid`.
pub open spec fn involves(t: Transaction, uid: Seq<char>) -> bool {
    t.from_user@ == uid || t.to_user@ == uid
}

/// The abstract state of the ledger: the accounts and the transaction log, oldest first.
pub struct LedgerView {
    pub accounts: Seq<BankAccount>,
    pub transactions: Seq<Transaction>,
}

impl LedgerView {
    /// User ids are unique and the money in the bank fits in a `u64`.
    pub open spec fn wf(self) -> bool {
        &&& user_ids_unique(self.accounts)
        &&& total_balance(self.accounts) <= u64::MAX
    }

    /// The balance of `uid`, in cents.
    pub open spec fn balance_of(self, uid: Seq<char>) -> Option<u64> {
        match account_of(self.accounts, uid) {
            Some(a) => Some(a.balance),
            None => None,
        }
    }

    /// The transactions that `uid` sent or received, oldest first.
    pub open spec fn transactions_of(self, uid: Seq<char>) -> Seq<Transaction> {
        self.transactions.filter(|t: Transaction| involves(t, uid))
    }

    /// Why a transfer of `amount` cents from `from` to `to` is refused, if it is.
    pub open spec fn transfer_error(self, from: Seq<char>, to: Seq<char>, amount: u64) -> Option<
        Seq<char>,
    > {
        if amount == 0 {
            Some("Transfer amount must be positive"@)
        } else if !has_user(self.accounts, from) {
            Some("User "@ + from + " not found"@)
        } else if !has_user(self.accounts, to) {
            Some("User "@ + to + " not found"@)
        } else if self.accounts[user_index(self.accounts, from)].balance < amount {
            Some("Insufficient funds"@)
        } else {
            None
        }
    }

    /// The accounts after `amount` cents move from `from` to `to`.
    pub open spec fn transfer_accounts(self, from: Seq<char>, to: Seq<char>, amount: u64) -> Seq<
        BankAccount,
    > {
        let i = user_index(self.accounts, from);
        let j = user_index(self.accounts, to);
        let s1 = self.accounts.update(i, with_balance(self.accounts[i], (self.accounts[i].balance - amount) as u64));
        s1.update(j, with_balance(s1[j], (s1[j].balance + amount) as u64))
    }

    /// `tx` records a transfer of `amount` cents from `from` to `to` in this ledger.
    pub open spec fn records_transfer(self, from: Seq<char>, to: Seq<char>, amount: u64, tx: Transaction) -> bool {
        let fa = self.accounts[user_index(self.accounts, from)];
        let ta = self.accounts[user_index(self.accounts, to)];
        &&& tx.from_user@ == from
        &&& tx.to_user@ == to
        &&& tx.amount == amount
        &&& tx.from_name == fa.name
        &&& tx.to_name == ta.name
        &&& tx.description@ == "Transfer from "@ + fa.name@ + " to "@ + ta.name@
    }

    /// What a transfer request leaves behind: on refusal the ledger is unchanged and
    /// the error names the reason; on success the balances move and the transaction
    /// is appended to the log.
    pub open spec fn transfer_post(
        self,
        post: LedgerView,
        from: Seq<char>,
        to: Seq<char>,
        amount: u64,
        r: Result<Transaction, String>,
    ) -> bool {
        match self.transfer_error(from, to, amount) {
            Some(msg) => r matches Err(e) && e@ == msg && post == self,
            None => r matches Ok(tx) && self.records_transfer(from, to, amount, tx)
                && post.accounts == self.transfer_accounts(from, to, amount)
                && post.transactions == self.transactions.push(tx),
        }
    }
}

proof fn lemma_total_nonneg(s: Seq<BankAccount>)
    ensures
        total_balance(s) >= 0,
    decreases s.len(),
{
    if s.len() > 0 {
        lemma_total_nonneg(s.drop_last());
    }
}

proof fn lemma_total_update(s: Seq<BankAccount>, i: int, a: BankAccount)
    requires
        0 <= i < s.len(),
    ensures
        total_balance(s.update(i, a)) == total_balance(s) - s[i].balance + a.balance,
    decreases s.len(),
{
    if i == s.len() - 1 {
        assert(s.update(i, a).drop_last() =~= s.drop_last());
    } else {
        lemma_total_update(s.drop_last(), i, a);
        assert(s.update(i, a).drop_last() =~= s.drop_last().update(i, a));
    }
}

proof fn lemma_total_bounds(s: Seq<BankAccount>, i: int, j: int)
    requires
        0 <= i < s.len(),
        0 <= j < s.len(),
    ensures
        s[i].balance <= total_balance(s),
        i != j ==> s[i].balance + s[j].balance <= total_balance(s),
    decreases s.len(),
{
    lemma_total_nonneg(s.drop_last());
    if i == s.len() - 1 {
        if j != i {
            lemma_total_bounds(s.drop_last(), j, j);
        }
    } else if j == s.len() - 1 {
        lemma_total_bounds(s.drop_last(), i, i);
    } else {
        lemma_total_bounds(s.drop_last(), i, j);
    }
}

proof fn lemma_user_index(s: Seq<BankAccount>, i: int)
    requires
        user_ids_unique(s),
        0 <= i < s.len(),
    ensures
        has_user(s, s[i].user_id@),
        user_index(s, s[i].user_id@) == i,
{
    let k = user_index(s, s[i].user_id@);
    assert(0 <= k < s.len() && s[k].user_id@ == s[i].user_id@);
}

/// Two account lists with the same user ids at every position find users alike.
proof fn lemma_same_ids(s: Seq<BankAccount>, t: Seq<BankAccount>, uid: Seq<char>)
    requires
        user_ids_unique(s),
        s.len() == t.len(),
        forall|k: int| 0 <= k < s.len() ==> #[trigger] t[k].user_id@ == s[k].user_id@,
    ensures
        user_ids_unique(t),
        has_user(t, uid) == has_user(s, uid),
        has_user(s, uid) ==> user_index(t, uid) == user_index(s, uid),
{
    assert forall|i: int, j: int|
        0 <= i < t.len() && 0 <= j < t.len() && #[trigger] t[i].user_id@ == #[trigger] t[j].user_id@
        implies i == j by {
        assert(s[i].user_id@ == s[j].user_id@);
    }
    if has_user(s, uid) {
        let i = user_index(s, uid);
        assert(t[i].user_id@ == uid);
        lemma_user_index(t, i);
    }
    if has_user(t, uid) {
        let i = user_index(t, uid);
        assert(s[i].user_id@ == uid);
    }
}

/// A successful transfer of `amount` cents debits the sender and credits the
/// recipient by exactly that amount, leaves every other balance as it was, and a
/// transfer to oneself changes no balance.
pub proof fn lemma_transfer_balances(v: LedgerView, from: Seq<char>, to: Seq<char>, amount: u64, uid: Seq<char>)
    requires
        v.wf(),
        v.transfer_error(from, to, amount) is None,
    ensures
        ({
            let w = LedgerView { accounts: v.transfer_accounts(from, to, amount), transactions: v.transactions };
            &&& w.wf()
            &&& from != to ==> w.balance_of(from) == Some((v.balance_of(from).unwrap() - amount) as u64)
            &&& from != to ==> w.balance_of(to) == Some((v.balance_of(to).unwrap() + amount) as u64)
            &&& (uid != from && uid != to) ==> w.balance_of(uid) == v.balance_of(uid)
            &&& from == to ==> w.balance_of(uid) == v.balance_of(uid)
        }),
{
    let s0 = v.accounts;
    let i = user_index(s0, from);
    let j = user_index(s0, to);
    let t = v.transfer_accounts(from, to, amount);
    let s1 = s0.update(i, with_balance(s0[i], (s0[i].balance - amount) as u64));
    lemma_total_update(s0, i, with_balance(s0[i], (s0[i].balance - amount) as u64));
    lemma_total_nonneg(s0);
    lemma_total_bounds(s0, i, j);
    lemma_total_update(s1, j, with_balance(s1[j], (s1[j].balance + amount) as u64));
    assert forall|k: int| 0 <= k < s0.len() implies #[trigger] t[k].user_id@ == s0[k].user_id@ by {}
    lemma_same_ids(s0, t, from);
    lemma_same_ids(s0, t, to);
    lemma_same_ids(s0, t, uid);
    if has_user(s0, uid) {
        let k = user_index(s0, uid);
        if uid != from && uid != to {
            assert(k != i && k != j);
        }
    }
}

/// A lowercase hexadecimal digit.
pub open spec fn is_lower_hex(c: char) -> bool {
    ('0' <= c && c <= '9') || ('a' <= c && c <= 'f')
}

/// The hyphenated text of a version-4 UUID: 8-4-4-4-12 lowercase hex digits, the
/// version digit '4', and a variant digit among '8', '9', 'a', 'b'.
pub open spec fn is_uuid_v4_text(s: Seq<char>) -> bool {
    &&& s.len() == 36
    &&& forall|i: int| 0 <= i < 36 ==> if i == 8 || i == 13 || i == 18 || i == 23 {
        s[i] == '-'
    } else {
        is_lower_hex(#[trigger] s[i])
    }
    &&& s[14] == '4'
    &&& (s[19] == '8' || s[19] == '9' || s[19] == 'a' || s[19] == 'b')
}

/// Calls `uuid::Uuid::new_v4` and renders the identifier with `to_string`, the
/// hyphenated lowercase form. The value is random; only its form is claimed.
#[verifier::external_body]
pub(crate) fn new_uuid_v4() -> (s: String)
    ensures
        is_uuid_v4_text(s@),
{
    uuid::Uuid::new_v4().to_string()
}

/// Calls `chrono::Utc::now` and renders it with `to_rfc3339`. The value depends on
/// the clock: nothing is claimed of it.
#[verifier::external_body]
fn utc_now_rfc3339() -> String {
    chrono::Utc::now().to_rfc3339()
}

/// In-memory bank database with demo accounts.
pub struct BankDatabase {
    accounts: Vec<BankAccount>,
    transactions: Vec<Transaction>,
}

impl View for BankDatabase {
    type V = LedgerView;

    closed spec fn view(&self) -> LedgerView {
        LedgerView { accounts: self.accounts@, transactions: self.transactions@ }
    }
}

impl BankDatabase {
    #[verifier::type_invariant]
    spec fn inv(self) -> bool {
        self@.wf()
    }

    /// Create a new BankDatabase with the demo accounts of Alice, Bob and Charlie
    /// holding $5000.00, $3200.00 and $1800.00, and an empty transaction log.
    pub fn new() -> (db: Self)
        ensures
            db@.wf(),
            db@.accounts.len() == 3,
            db@.accounts[0].user_id@ == "alice"@,
            db@.accounts[0].name@ == "Alice"@,
            db@.accounts[0].account_id@ == "ACC001"@,
            db@.accounts[0].balance == 500000,
            db@.accounts[0].avatar_color@ == "#4CAF50"@,
            db@.accounts[1].user_id@ == "bob"@,
            db@.accounts[1].name@ == "Bob"@,
            db@.accounts[1].account_id@ == "ACC002"@,
            db@.accounts[1].balance == 320000,
            db@.accounts[1].avatar_color@ == "#2196F3"@,
            db@.accounts[2].user_id@ == "charlie"@,
            db@.accounts[2].name@ == "Charlie"@,
            db@.accounts[2].account_id@ == "ACC003"@,
            db@.accounts[2].balance == 180000,
            db@.accounts[2].avatar_color@ == "#FF9800"@,
            db@.transactions.len() == 0,
    {
        let mut accounts: Vec<BankAccount> = Vec::new();
        accounts.push(
            BankAccount {
                user_id: "alice".to_owned(),
                name: "Alice".to_owned(),
                account_id: "ACC001".to_owned(),
                balance: 500000,
                avatar_color: "#4CAF50".to_owned(),
            },
        );
        accounts.push(
            BankAccount {
                user_id: "bob".to_owned(),
                name: "Bob".to_owned(),
                account_id: "ACC002".to_owned(),
                balance: 320000,
                avatar_color: "#2196F3".to_owned(),
            },
        );
        accounts.push(
            BankAccount {
                user_id: "charlie".to_owned(),
                name: "Charlie".to_owned(),
                account_id: "ACC003".to_owned(),
                balance: 180000,
                avatar_color: "#FF9800".to_owned(),
            },
        );
        proof {
            reveal_strlit("alice");
            reveal_strlit("bob");
            reveal_strlit("charlie");
            let s = accounts@;
            assert(s[0].user_id@.len() == 5 && s[1].user_id@.len() == 3 && s[2].user_id@.len() == 7);
            assert(total_balance(s.drop_last().drop_last().drop_last()) == 0);
            assert(total_balance(s.drop_last().drop_last()) == 500000);
            assert(total_balance(s.drop_last()) == 820000);
            assert(total_balance(s) == 1000000);
            assert(user_ids_unique(s));
        }
        BankDatabase { accounts, transactions: Vec::new() }
    }

    /// The position of the account of `uid`.
    fn find(&self, uid: &str) -> (r: Option<usize>)
        ensures
            match r {
                Some(i) => i < self@.accounts.len() && self@.accounts[i as int].user_id@ == uid@
                    && i == user_index(self@.accounts, uid@),
                None => !has_user(self@.accounts, uid@),
            },
    {
        proof {
            use_type_invariant(self);
        }
        let mut i: usize = 0;
        while i < self.accounts.len()
            invariant
                i <= self.accounts@.len(),
                self@.wf(),
                forall|k: int| 0 <= k < i ==> self.accounts@[k].user_id@ != uid@,
            decreases self.accounts.len() - i,
        {
            if str_eq(self.accounts[i].user_id.as_str(), uid) {
                proof {
                    lemma_user_index(self@.accounts, i as int);
                }
                return Some(i);
            }
            i = i + 1;
        }
        None
    }

    /// Get the balance for a user, in cents.
    pub fn get_balance(&self, user_id: &str) -> (r: Option<u64>)
        ensures
            r == self@.balance_of(user_id@),
    {
        match self.find(user_id) {
            Some(i) => Some(self.accounts[i].balance),
            None => None,
        }
    }

    /// Get a specific account by user id.
    pub fn get_account(&self, user_id: &str) -> (r: Option<BankAccount>)
        ensures
            r == account_of(self@.accounts, user_id@),
    {
        match self.find(user_id) {
            Some(i) => Some(self.accounts[i].clone()),
            None => None,
        }
    }

    /// List all accounts.
    pub fn list_accounts(&self) -> (r: Vec<BankAccount>)
        ensures
            r@ == self@.accounts,
    {
        let mut r: Vec<BankAccount> = Vec::new();
        let mut i: usize = 0;
        while i < self.accounts.len()
            invariant
                i <= self.accounts@.len(),
                r@ == self.accounts@.take(i as int),
            decreases self.accounts.len() - i,
        {
            r.push(self.accounts[i].clone());
            assert(self.accounts@.take(i + 1) =~= self.accounts@.take(i as int).push(self.accounts@[i as int]));
            i = i + 1;
        }
        assert(self.accounts@.take(i as int) =~= self.accounts@);
        r
    }

    /// Get transactions for a user (both sent and received), oldest first.
    pub fn get_transactions(&self, user_id: &str) -> (r: Vec<Transaction>)
        ensures
            r@ == self@.transactions_of(user_id@),
    {
        let ghost pred = |t: Transaction| involves(t, user_id@);
        let mut r: Vec<Transaction> = Vec::new();
        let mut i: usize = 0;
        while i < self.transactions.len()
            invariant
                i <= self.transactions@.len(),
                pred == (|t: Transaction| involves(t, user_id@)),
                r@ == self.transactions@.take(i as int).filter(pred),
            decreases self.transactions.len() - i,
        {
            let t = &self.transactions[i];
            let hit = str_eq(t.from_user.as_str(), user_id) || str_eq(t.to_user.as_str(), user_id);
            proof {
                self.transactions@.take(i as int).lemma_filter_push(self.transactions@[i as int], pred);
                assert(self.transactions@.take(i + 1) =~= self.transactions@.take(i as int).push(self.transactions@[i as int]));
            }
            if hit {
                r.push(t.clone());
            }
            i = i + 1;
        }
        assert(self.transactions@.take(i as int) =~= self.transactions@);
        r
    }

    /// Validate a transfer without changing anything; on success return the
    /// positions of the two accounts.
    fn check_transfer(&self, from_user: &str, to_user: &str, amount: u64) -> (r: Result<(usize, usize), String>)
        ensures
            match self@.transfer_error(from_user@, to_user@, amount) {
                Some(msg) => r matches Err(e) && e@ == msg,
                None => r matches Ok(p) && p.0 == user_index(self@.accounts, from_user@)
                    && p.1 == user_index(self@.accounts, to_user@)
                    && p.0 < self@.accounts.len() && p.1 < self@.accounts.len(),
            },
    {
        if amount == 0 {
            return Err("Transfer amount must be positive".to_owned());
        }
        let i = match self.find(from_user) {
            Some(i) => i,
            None => {
                let mut e = String::new();
                push_str(&mut e, "User ");
                push_str(&mut e, from_user);
                push_str(&mut e, " not found");
                assert(e@ =~= "User "@ + from_user@ + " not found"@);
                return Err(e);
            },
        };
        let j = match self.find(to_user) {
            Some(j) => j,
            None => {
                let mut e = String::new();
                push_str(&mut e, "User ");
                push_str(&mut e, to_user);
                push_str(&mut e, " not found");
                assert(e@ =~= "User "@ + to_user@ + " not found"@);
                return Err(e);
            },
        };
        if self.accounts[i].balance < amount {
            return Err("Insufficient funds".to_owned());
        }
        Ok((i, j))
    }

    fn apply_transfer(
        &mut self,
        i: usize,
        j: usize,
        from_user: &str,
        to_user: &str,
        amount: u64,
        tx_id: String,
        timestamp: String,
    ) -> (tx: Transaction)
        requires
            old(self)@.transfer_error(from_user@, to_user@, amount) is None,
            i == user_index(old(self)@.accounts, from_user@),
            j == user_index(old(self)@.accounts, to_user@),
            i < old(self)@.accounts.len(),
            j < old(self)@.accounts.len(),
        ensures
            old(self)@.records_transfer(from_user@, to_user@, amount, tx),
            tx.tx_id == tx_id && tx.timestamp == timestamp,
            final(self)@.accounts == old(self)@.transfer_accounts(from_user@, to_user@, amount),
            final(self)@.transactions == old(self)@.transactions.push(tx),
            final(self)@.wf(),
            total_balance(final(self)@.accounts) == total_balance(old(self)@.accounts),
    {
        proof {
            use_type_invariant(&*self);
        }
        let ghost s0 = self@.accounts;
        let from_name = self.accounts[i].name.clone();
        let to_name = self.accounts[j].name.clone();
        let mut description = String::new();
        push_str(&mut description, "Transfer from ");
        push_str(&mut description, from_name.as_str());
        push_str(&mut description, " to ");
        push_str(&mut description, to_name.as_str());
        assert(description@ =~= "Transfer from "@ + from_name@ + " to "@ + to_name@);

        let mut accounts: Vec<BankAccount> = Vec::new();
        std::mem::swap(&mut accounts, &mut self.accounts);
        assert(accounts@ == s0);
        let mut a = accounts[i].clone();
        a.balance = a.balance - amount;
        proof {
            lemma_total_update(s0, i as int, a);
            lemma_total_nonneg(s0);
        }
        accounts.set(i, a);
        let ghost s1 = accounts@;
        proof {
            if i != j {
                lemma_total_bounds(s0, i as int, j as int);
            } else {
                lemma_total_bounds(s0, i as int, i as int);
            }
        }
        let mut b = accounts[j].clone();
        b.balance = b.balance + amount;
        proof {
            lemma_total_update(s1, j as int, b);
        }
        accounts.set(j, b);
        proof {
            assert forall|k: int| 0 <= k < s0.len() implies #[trigger] accounts@[k].user_id@ == s0[k].user_id@ by {}
            lemma_same_ids(s0, accounts@, from_user@);
            assert(accounts@ =~= old(self)@.transfer_accounts(from_user@, to_user@, amount));
        }
        self.accounts = accounts;

        let tx = Transaction {
            tx_id,
            from_user: from_user.to_owned(),
            to_user: to_user.to_owned(),
            amount,
            timestamp,
            description,
            from_name,
            to_name,
        };
        let mut log: Vec<Transaction> = Vec::new();
        std::mem::swap(&mut log, &mut self.transactions);
        log.push(tx.clone());
        self.transactions = log;
        tx
    }

    /// Transfer `amount` cents from one user to another; an amount that is not
    /// positive is refused. The transaction id is "TX-" followed by a random UUID
    /// and the timestamp is the current UTC time.
    pub fn transfer(&mut self, from_user: &str, to_user: &str, amount: i64) -> (r: Result<Transaction, String>)
        ensures
            amount <= 0 ==> (r matches Err(e) && e@ == "Transfer amount must be positive"@ && final(self)@ == old(self)@),
            amount > 0 ==> old(self)@.transfer_post(final(self)@, from_user@, to_user@, amount as u64, r),
            r matches Ok(tx) ==> tx.tx_id@.len() == 39 && tx.tx_id@.subrange(0, 3) == "TX-"@
                && is_uuid_v4_text(tx.tx_id@.skip(3)),
            r is Ok ==> final(self)@.balance_of(from_user@) is Some && final(self)@.balance_of(to_user@) is Some,
            final(self)@.wf(),
            total_balance(final(self)@.accounts) == total_balance(old(self)@.accounts),
    {
        proof {
            use_type_invariant(&*self);
        }
        if amount <= 0 {
            return Err("Transfer amount must be positive".to_owned());
        }
        let amount = amount as u64;
        match self.check_transfer(from_user, to_user, amount) {
            Err(e) => Err(e),
            Ok((i, j)) => {
                let mut tx_id = String::new();
                push_str(&mut tx_id, "TX-");
                let id = new_uuid_v4();
                push_str(&mut tx_id, id.as_str());
                proof {
                    reveal_strlit("TX-");
                    assert(tx_id@.subrange(0, 3) =~= "TX-"@);
                    assert(tx_id@.skip(3) =~= id@);
                }
                let timestamp = utc_now_rfc3339();
                let tx = self.apply_transfer(i, j, from_user, to_user, amount, tx_id, timestamp);
                proof {
                    lemma_transfer_balances(old(self)@, from_user@, to_user@, amount, from_user@);
                    lemma_transfer_balances(old(self)@, from_user@, to_user@, amount, to_user@);
                }
                Ok(tx)
            },
        }
    }

    /// The account of `user_id` with its transactions as that user sees them.
    pub fn account_detail(&self, user_id: &str) -> (r: Option<BankAccountDetail>)
        ensures
            match account_of(self@.accounts, user_id@) {
                None => r is None,
                Some(a) => r matches Some(d) && d.user_id == a.user_id && d.name == a.name
                    && d.account_id == a.account_id && d.balance == a.balance
                    && d.avatar_color == a.avatar_color
                    && d.transactions@.len() == self@.transactions_of(user_id@).len()
                    && forall|k: int| 0 <= k < d.transactions@.len()
                        ==> #[trigger] self@.transactions_of(user_id@)[k].is_viewed_as(user_id@, d.transactions@[k]),
            },
    {
        let account = match self.get_account(user_id) {
            Some(a) => a,
            None => return None,
        };
        let txs = self.get_transactions(user_id);
        let mut views: Vec<TransactionView> = Vec::new();
        let mut k: usize = 0;
        while k < txs.len()
            invariant
                k <= txs@.len(),
                views@.len() == k,
                forall|m: int| 0 <= m < k ==> #[trigger] txs@[m].is_viewed_as(user_id@, views@[m]),
            decreases txs.len() - k,
        {
            views.push(txs[k].to_view(user_id));
            k = k + 1;
        }
        Some(
            BankAccountDetail {
                user_id: account.user_id,
                name: account.name,
                account_id: account.account_id,
                balance: account.balance,
                avatar_color: account.avatar_color,
                transactions: views,
            },
        )
    }
}

impl Default for BankDatabase {
    /// The demo database, as `new` builds it.
    fn default() -> (db: Self)
        ensures
            db@.wf(),
            db@.accounts.len() == 3,
            db@.accounts[0].user_id@ == "alice"@,
            db@.accounts[0].balance == 500000,
            db@.accounts[1].user_id@ == "bob"@,
            db@.accounts[1].balance == 320000,
            db@.accounts[2].user_id@ == "charlie"@,
            db@.accounts[2].balance == 180000,
            db@.transactions.len() == 0,
    {
        Self::new()
    }
}

} // verus!
