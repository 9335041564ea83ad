//! The ledger: accounts, transactions and their audit trail, held as one
//! store with a single well-formedness invariant.
//!
//! Rows are append-only and identified by their position: the account,
//! transaction and event with identifier `i` sit at index `i` of their
//! vector. Every committed transaction is `Completed` and owns exactly
//! two audit events, its creation entry followed by its completion
//! entry; nothing in the crate ever leaves a transaction pending.

use vstd::prelude::*;

use crate::account::Account;
use crate::transaction::EventAction;
use crate::transaction::EventPayload;
use crate::transaction::Transaction;
use crate::transaction::TransactionEvent;
use crate::transaction::TransactionStatus;

verus! {

/// Identifiers equal positions, and no user holds two accounts in one
/// currency.
pub open spec fn accounts_wf(accounts: Seq<Account>) -> bool {
    &&& forall|i: int| 0 <= i < accounts.len() ==> (#[trigger] accounts[i]).id == i as u64
    &&& forall|i: int, j: int|
        #![trigger accounts[i], accounts[j]]
        0 <= i < j < accounts.len() ==> !(accounts[i].user_id == accounts[j].user_id
            && accounts[i].currency@ == accounts[j].currency@)
}

/// A committed transaction row: terminal status, resolvable account
/// references, and the account fields its type requires.
pub open spec fn tx_wf(accounts: Seq<Account>, t: Transaction) -> bool {
    &&& t.status is Completed
    &&& (t.source_account_id matches Some(s) ==> s < accounts.len())
    &&& (t.destination_account_id matches Some(d) ==> d < accounts.len())
    &&& (t.transaction_type is Deposit ==> t.destination_account_id is Some)
    &&& (t.transaction_type is Withdrawal ==> t.source_account_id is Some)
    &&& (t.transaction_type is Transfer ==> t.source_account_id is Some
        && t.destination_account_id is Some)
}

/// The first audit entry of transaction `tid`: its creation in `Pending`
/// status, with no previous status.
pub open spec fn creation_event(eid: u64, tid: u64, user_id: u64, now: i64) -> TransactionEvent {
    TransactionEvent {
        id: eid,
        transaction_id: tid,
        previous_status: None,
        new_status: TransactionStatus::Pending,
        event_data: EventPayload { user_id, action: EventAction::Created },
        created_at: now,
    }
}

/// The second audit entry of transaction `tid`: its transition from
/// `Pending` to `Completed`.
pub open spec fn completion_event(eid: u64, tid: u64, user_id: u64, now: i64) -> TransactionEvent {
    TransactionEvent {
        id: eid,
        transaction_id: tid,
        previous_status: Some(TransactionStatus::Pending),
        new_status: TransactionStatus::Completed,
        event_data: EventPayload { user_id, action: EventAction::Processed },
        created_at: now,
    }
}

/// The shape of the audit entry at index `idx`: entries come in pairs,
/// a creation entry at each even index and the matching completion entry
/// right after it.
pub open spec fn event_shape_wf(e: TransactionEvent, idx: int) -> bool {
    &&& e.id == idx as u64
    &&& e.transaction_id == (idx / 2) as u64
    &&& if idx % 2 == 0 {
        &&& e.previous_status is None
        &&& e.new_status is Pending
        &&& e.event_data.action is Created
    } else {
        &&& e.previous_status == Some(TransactionStatus::Pending)
        &&& e.new_status is Completed
        &&& e.event_data.action is Processed
    }
}

/// Each transaction owns exactly one creation and one completion entry,
/// in that order.
pub open spec fn events_wf(transactions: Seq<Transaction>, events: Seq<TransactionEvent>) -> bool {
    &&& events.len() == transactions.len() * 2
    &&& forall|e: int| 0 <= e < events.len() ==> event_shape_wf(#[trigger] events[e], e)
}

/// The whole store invariant.
pub open spec fn ledger_inv(
    accounts: Seq<Account>,
    transactions: Seq<Transaction>,
    events: Seq<TransactionEvent>,
) -> bool {
    &&& accounts_wf(accounts)
    &&& forall|i: int|
        0 <= i < transactions.len() ==> (#[trigger] transactions[i]).id == i as u64
            && tx_wf(accounts, transactions[i])
    &&& events_wf(transactions, events)
}

/// The in-memory store behind every operation of this crate.
pub struct Ledger {
    pub(crate) accounts: Vec<Account>,
    pub(crate) transactions: Vec<Transaction>,
    pub(crate) events: Vec<TransactionEvent>,
}

impl Ledger {
    /// The stored accounts, in creation order.
    pub closed spec fn spec_accounts(&self) -> Seq<Account> {
        self.accounts@
    }

    /// The stored transactions, in creation order.
    pub closed spec fn spec_transactions(&self) -> Seq<Transaction> {
        self.transactions@
    }

    /// The audit trail, in creation order.
    pub closed spec fn spec_events(&self) -> Seq<TransactionEvent> {
        self.events@
    }

    /// Store well-formedness; established by [`Ledger::new`] and kept by
    /// every operation of the crate.
    pub open spec fn wf(&self) -> bool {
        ledger_inv(self.spec_accounts(), self.spec_transactions(), self.spec_events())
    }

    /// The stores are backed by vectors, so their lengths fit the
    /// machine's size type.
    pub proof fn lemma_len_bounds(&self)
        ensures
            self.spec_accounts().len() <= usize::MAX,
            self.spec_transactions().len() <= usize::MAX,
            self.spec_events().len() <= usize::MAX,
    {
        assert(self.accounts.len() == self.accounts@.len());
        assert(self.transactions.len() == self.transactions@.len());
        assert(self.events.len() == self.events@.len());
    }

    /// An empty ledger.
    pub fn new() -> (l: Ledger)
        ensures
            l.wf(),
            l.spec_accounts() == Seq::<Account>::empty(),
            l.spec_transactions() == Seq::<Transaction>::empty(),
            l.spec_events() == Seq::<TransactionEvent>::empty(),
    {
        Ledger { accounts: Vec::new(), transactions: Vec::new(), events: Vec::new() }
    }

    /// Read access to the audit trail.
    pub fn event_trail(&self) -> (r: &Vec<TransactionEvent>)
        ensures
            r@ == self.spec_events(),
    {
        &self.events
    }

    /// How many accounts the store holds.
    pub(crate) fn accounts_len(&self) -> (n: usize)
        ensures
            n == self.spec_accounts().len(),
    {
        self.accounts.len()
    }

    /// The stored account at position `i`.
    pub(crate) fn account_at(&self, i: usize) -> (a: &Account)
        requires
            i < self.spec_accounts().len(),
        ensures
            *a == self.spec_accounts()[i as int],
    {
        &self.accounts[i]
    }

    /// Appends one account row.
    pub(crate) fn push_account(&mut self, a: Account)
        ensures
            final(self).spec_accounts() == old(self).spec_accounts().push(a),
            final(self).spec_transactions() == old(self).spec_transactions(),
            final(self).spec_events() == old(self).spec_events(),
    {
        self.accounts.push(a);
    }

    /// Writes a new balance into account `i` and refreshes its update
    /// time, touching nothing else: the single atomic read-modify-write
    /// every balance change goes through.
    pub(crate) fn set_balance(&mut self, i: usize, balance: i64, now: i64)
        requires
            i < old(self).spec_accounts().len(),
        ensures
            final(self).spec_accounts() == old(self).spec_accounts().update(
                i as int,
                Account { balance, updated_at: now, ..old(self).spec_accounts()[i as int] },
            ),
            final(self).spec_transactions() == old(self).spec_transactions(),
            final(self).spec_events() == old(self).spec_events(),
    {
        let a = &mut self.accounts[i];
        a.balance = balance;
        a.updated_at = now;
    }

    /// How many transactions the store holds.
    pub(crate) fn transactions_len(&self) -> (n: usize)
        ensures
            n == self.spec_transactions().len(),
    {
        self.transactions.len()
    }

    /// The stored transaction at position `i`.
    pub(crate) fn transaction_at(&self, i: usize) -> (t: &Transaction)
        requires
            i < self.spec_transactions().len(),
        ensures
            *t == self.spec_transactions()[i as int],
    {
        &self.transactions[i]
    }

    /// Appends one transaction row.
    pub(crate) fn push_transaction(&mut self, t: Transaction)
        ensures
            final(self).spec_transactions() == old(self).spec_transactions().push(t),
            final(self).spec_accounts() == old(self).spec_accounts(),
            final(self).spec_events() == old(self).spec_events(),
    {
        self.transactions.push(t);
    }

    /// Moves transaction `i` to `Completed` and refreshes its update
    /// time, touching nothing else.
    pub(crate) fn complete_transaction(&mut self, i: usize, now: i64)
        requires
            i < old(self).spec_transactions().len(),
        ensures
            final(self).spec_transactions() == old(self).spec_transactions().update(
                i as int,
                Transaction {
                    status: TransactionStatus::Completed,
                    updated_at: now,
                    ..old(self).spec_transactions()[i as int]
                },
            ),
            final(self).spec_accounts() == old(self).spec_accounts(),
            final(self).spec_events() == old(self).spec_events(),
    {
        let t = &mut self.transactions[i];
        t.status = TransactionStatus::Completed;
        t.updated_at = now;
    }

    /// How many audit entries the store holds.
    pub(crate) fn events_len(&self) -> (n: usize)
        ensures
            n == self.spec_events().len(),
    {
        self.events.len()
    }

    /// Appends one audit entry.
    pub(crate) fn push_event(&mut self, e: TransactionEvent)
        ensures
            final(self).spec_events() == old(self).spec_events().push(e),
            final(self).spec_accounts() == old(self).spec_accounts(),
            final(self).spec_transactions() == old(self).spec_transactions(),
    {
        self.events.push(e);
    }
}

} // verus!
