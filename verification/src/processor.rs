//! The batching ingestion engine: three row buffers, one per event kind,
//! filled by decoded messages and flushed to the sink in batches.
//!
//! The engine itself never talks to the sink.  A flush hands the rows
//! out as a value; the unverified shell performs the insert.  Rows are
//! moved out before any insert is attempted, so a buffer is cleared by
//! every flush whatever the insert's outcome, and a failed insert can
//! never stall the other buffers.

use crate::codec::{decode_event, spec_decode_event};
use crate::events::{EventMessage, EventMessageGhost};
use crate::rows::{
    now_seconds, spec_account_row, spec_slot_row, spec_transaction_row, AccountRow,
    AccountRowGhost, SlotRow, SlotRowGhost, TransactionRow, TransactionRowGhost,
};
use vstd::prelude::*;

verus! {

/// The element-wise mathematical view of a sequence of rows.
pub open spec fn seq_view<T: View>(s: Seq<T>) -> Seq<T::V> {
    Seq::new(s.len(), |i: int| s[i]@)
}

/// One batch of rows handed to the sink, all of one kind.
pub enum SinkBatch {
    Accounts(Vec<AccountRow>),
    Slots(Vec<SlotRow>),
    Transactions(Vec<TransactionRow>),
}

/// Mathematical model of one sink batch.
#[verifier::ext_equal]
pub enum SinkBatchGhost {
    Accounts(Seq<AccountRowGhost>),
    Slots(Seq<SlotRowGhost>),
    Transactions(Seq<TransactionRowGhost>),
}

impl View for SinkBatch {
    type V = SinkBatchGhost;

    open spec fn view(&self) -> SinkBatchGhost {
        match self {
            SinkBatch::Accounts(rows) => SinkBatchGhost::Accounts(seq_view(rows@)),
            SinkBatch::Slots(rows) => SinkBatchGhost::Slots(seq_view(rows@)),
            SinkBatch::Transactions(rows) => SinkBatchGhost::Transactions(seq_view(rows@)),
        }
    }
}

/// What one received message led to: whether it decoded, and the batch
/// flushed by a buffer that reached its threshold, if any.
pub struct ProcessOutcome {
    pub decoded: bool,
    pub flush: Option<SinkBatch>,
}

/// Mathematical model of a process outcome.
#[verifier::ext_equal]
pub struct ProcessOutcomeGhost {
    pub decoded: bool,
    pub flush: Option<SinkBatchGhost>,
}

impl View for ProcessOutcome {
    type V = ProcessOutcomeGhost;

    open spec fn view(&self) -> ProcessOutcomeGhost {
        ProcessOutcomeGhost {
            decoded: self.decoded,
            flush: match &self.flush {
                Some(b) => Some(b@),
                None => None,
            },
        }
    }
}

/// The batches produced by flushing every non-empty buffer, in the fixed
/// order accounts, slots, transactions.  `None` means that buffer was
/// empty and no sink call is made for it.
pub struct FlushOutcome {
    pub accounts: Option<Vec<AccountRow>>,
    pub slots: Option<Vec<SlotRow>>,
    pub transactions: Option<Vec<TransactionRow>>,
}

/// Mathematical model of a full flush.
#[verifier::ext_equal]
pub struct FlushOutcomeGhost {
    pub accounts: Option<Seq<AccountRowGhost>>,
    pub slots: Option<Seq<SlotRowGhost>>,
    pub transactions: Option<Seq<TransactionRowGhost>>,
}

impl View for FlushOutcome {
    type V = FlushOutcomeGhost;

    open spec fn view(&self) -> FlushOutcomeGhost {
        FlushOutcomeGhost {
            accounts: match &self.accounts {
                Some(rows) => Some(seq_view(rows@)),
                None => None,
            },
            slots: match &self.slots {
                Some(rows) => Some(seq_view(rows@)),
                None => None,
            },
            transactions: match &self.transactions {
                Some(rows) => Some(seq_view(rows@)),
                None => None,
            },
        }
    }
}

/// Mathematical model of the engine: the three buffers and the
/// configured threshold.
#[verifier::ext_equal]
pub struct ProcessorGhost {
    pub accounts: Seq<AccountRowGhost>,
    pub slots: Seq<SlotRowGhost>,
    pub transactions: Seq<TransactionRowGhost>,
    pub batch_size: usize,
}

/// The batching ingestion engine.
pub struct Processor {
    account_batch: Vec<AccountRow>,
    slot_batch: Vec<SlotRow>,
    transaction_batch: Vec<TransactionRow>,
    batch_size: usize,
}

impl View for Processor {
    type V = ProcessorGhost;

    closed spec fn view(&self) -> ProcessorGhost {
        ProcessorGhost {
            accounts: seq_view(self.account_batch@),
            slots: seq_view(self.slot_batch@),
            transactions: seq_view(self.transaction_batch@),
            batch_size: self.batch_size,
        }
    }
}

/// A buffer never holds `batch_size` rows between calls: the append that
/// reaches the threshold flushes before returning.
pub open spec fn buffer_bounded(len: nat, batch_size: usize) -> bool {
    len < batch_size || (batch_size == 0 && len == 0)
}

// ---------------------------------------------------------------------
// The spec-level step functions that the engine's contracts quote.
// ---------------------------------------------------------------------
/// Appending one account row: when the buffer reaches the threshold it
/// is flushed whole and left empty, else the row stays buffered.
pub open spec fn spec_append_account(pre: ProcessorGhost, row: AccountRowGhost) -> (
    ProcessorGhost,
    Option<SinkBatchGhost>,
) {
    let appended = pre.accounts.push(row);
    if appended.len() >= pre.batch_size {
        (
            ProcessorGhost { accounts: Seq::empty(), ..pre },
            Some(SinkBatchGhost::Accounts(appended)),
        )
    } else {
        (ProcessorGhost { accounts: appended, ..pre }, None)
    }
}

/// The same for slot rows.
pub open spec fn spec_append_slot(pre: ProcessorGhost, row: SlotRowGhost) -> (
    ProcessorGhost,
    Option<SinkBatchGhost>,
) {
    let appended = pre.slots.push(row);
    if appended.len() >= pre.batch_size {
        (ProcessorGhost { slots: Seq::empty(), ..pre }, Some(SinkBatchGhost::Slots(appended)))
    } else {
        (ProcessorGhost { slots: appended, ..pre }, None)
    }
}

/// The same for transaction rows.
pub open spec fn spec_append_transaction(pre: ProcessorGhost, row: TransactionRowGhost) -> (
    ProcessorGhost,
    Option<SinkBatchGhost>,
) {
    let appended = pre.transactions.push(row);
    if appended.len() >= pre.batch_size {
        (
            ProcessorGhost { transactions: Seq::empty(), ..pre },
            Some(SinkBatchGhost::Transactions(appended)),
        )
    } else {
        (ProcessorGhost { transactions: appended, ..pre }, None)
    }
}

/// One received message: decode it, derive the row stamped `now`, and
/// append it to the buffer of its kind.  An undecodable message changes
/// nothing.
pub open spec fn spec_process(
    pre: ProcessorGhost,
    topic: Seq<char>,
    payload: Seq<u8>,
    now: i64,
) -> (ProcessorGhost, ProcessOutcomeGhost) {
    match spec_decode_event(topic, payload) {
        None => (pre, ProcessOutcomeGhost { decoded: false, flush: None }),
        Some(EventMessageGhost::Account(v)) => {
            let step = spec_append_account(pre, spec_account_row(v, now));
            (step.0, ProcessOutcomeGhost { decoded: true, flush: step.1 })
        },
        Some(EventMessageGhost::Slot(v)) => {
            let step = spec_append_slot(pre, spec_slot_row(v, now));
            (step.0, ProcessOutcomeGhost { decoded: true, flush: step.1 })
        },
        Some(EventMessageGhost::Transaction(v)) => {
            let step = spec_append_transaction(pre, spec_transaction_row(v, now));
            (step.0, ProcessOutcomeGhost { decoded: true, flush: step.1 })
        },
    }
}

/// A full flush: every non-empty buffer is handed out whole and every
/// buffer is left empty.
pub open spec fn spec_flush_all(pre: ProcessorGhost) -> (ProcessorGhost, FlushOutcomeGhost) {
    (
        ProcessorGhost {
            accounts: Seq::empty(),
            slots: Seq::empty(),
            transactions: Seq::empty(),
            batch_size: pre.batch_size,
        },
        FlushOutcomeGhost {
            accounts: if pre.accounts.len() == 0 {
                None
            } else {
                Some(pre.accounts)
            },
            slots: if pre.slots.len() == 0 {
                None
            } else {
                Some(pre.slots)
            },
            transactions: if pre.transactions.len() == 0 {
                None
            } else {
                Some(pre.transactions)
            },
        },
    )
}

impl Processor {
    /// Every buffer stays strictly under the threshold between calls.
    pub open spec fn wf(&self) -> bool {
        &&& buffer_bounded(self@.accounts.len(), self@.batch_size)
        &&& buffer_bounded(self@.slots.len(), self@.batch_size)
        &&& buffer_bounded(self@.transactions.len(), self@.batch_size)
    }

    /// A fresh engine with empty buffers and the given threshold.
    pub fn new(batch_size: usize) -> (r: Processor)
        ensures
            r.wf(),
            r@.accounts.len() == 0,
            r@.slots.len() == 0,
            r@.transactions.len() == 0,
            r@.batch_size == batch_size,
    {
        let r = Processor {
            account_batch: Vec::with_capacity(batch_size),
            slot_batch: Vec::with_capacity(batch_size),
            transaction_batch: Vec::with_capacity(batch_size),
            batch_size,
        };
        proof {
            assert(r@.accounts =~= Seq::<AccountRowGhost>::empty());
            assert(r@.slots =~= Seq::<SlotRowGhost>::empty());
            assert(r@.transactions =~= Seq::<TransactionRowGhost>::empty());
        }
        r
    }

    /// Rows currently buffered, per kind, in the fixed order.
    pub fn buffered_counts(&self) -> (r: (usize, usize, usize))
        ensures
            r.0 == self@.accounts.len(),
            r.1 == self@.slots.len(),
            r.2 == self@.transactions.len(),
    {
        (self.account_batch.len(), self.slot_batch.len(), self.transaction_batch.len())
    }

    /// The configured threshold.
    pub fn batch_size(&self) -> (r: usize)
        ensures
            r == self@.batch_size,
    {
        self.batch_size
    }

    /// Handle one received message with an explicit decode-time stamp.
    pub fn process_message_at(&mut self, topic: &str, payload: &[u8], now: i64) -> (r:
        ProcessOutcome)
        requires
            old(self).wf(),
        ensures
            final(self).wf(),
            (final(self)@, r@) == spec_process(old(self)@, topic@, payload@, now),
    {
        match decode_event(topic, payload) {
            None => {
                let r = ProcessOutcome { decoded: false, flush: None };
                proof {
                    assert(r@ =~= spec_process(old(self)@, topic@, payload@, now).1);
                }
                r
            },
            Some(EventMessage::Account(ev)) => {
                let ghost pre = self@;
                let row = AccountRow::from_event(&ev, now);
                let ghost row_g = row@;
                self.account_batch.push(row);
                proof {
                    assert(self@.accounts =~= pre.accounts.push(row_g));
                    assert(self@.slots =~= pre.slots);
                    assert(self@.transactions =~= pre.transactions);
                }
                if self.account_batch.len() >= self.batch_size {
                    let ghost mid = self@;
                    let rows = self.account_batch.split_off(0);
                    let r = ProcessOutcome {
                        decoded: true,
                        flush: Some(SinkBatch::Accounts(rows)),
                    };
                    proof {
                        assert(seq_view(rows@) =~= mid.accounts);
                        assert(self@.accounts =~= Seq::<AccountRowGhost>::empty());
                        assert(self@.slots =~= pre.slots);
                        assert(self@.transactions =~= pre.transactions);
                        assert(self@ =~= spec_process(pre, topic@, payload@, now).0);
                        assert(r@ =~= spec_process(pre, topic@, payload@, now).1);
                    }
                    r
                } else {
                    let r = ProcessOutcome { decoded: true, flush: None };
                    proof {
                        assert(self@ =~= spec_process(pre, topic@, payload@, now).0);
                        assert(r@ =~= spec_process(pre, topic@, payload@, now).1);
                    }
                    r
                }
            },
            Some(EventMessage::Slot(ev)) => {
                let ghost pre = self@;
                let row = SlotRow::from_event(&ev, now);
                let ghost row_g = row@;
                self.slot_batch.push(row);
                proof {
                    assert(self@.slots =~= pre.slots.push(row_g));
                    assert(self@.accounts =~= pre.accounts);
                    assert(self@.transactions =~= pre.transactions);
                }
                if self.slot_batch.len() >= self.batch_size {
                    let ghost mid = self@;
                    let rows = self.slot_batch.split_off(0);
                    let r = ProcessOutcome { decoded: true, flush: Some(SinkBatch::Slots(rows)) };
                    proof {
                        assert(seq_view(rows@) =~= mid.slots);
                        assert(self@.slots =~= Seq::<SlotRowGhost>::empty());
                        assert(self@.accounts =~= pre.accounts);
                        assert(self@.transactions =~= pre.transactions);
                        assert(self@ =~= spec_process(pre, topic@, payload@, now).0);
                        assert(r@ =~= spec_process(pre, topic@, payload@, now).1);
                    }
                    r
                } else {
                    let r = ProcessOutcome { decoded: true, flush: None };
                    proof {
                        assert(self@ =~= spec_process(pre, topic@, payload@, now).0);
                        assert(r@ =~= spec_process(pre, topic@, payload@, now).1);
                    }
                    r
                }
            },
            Some(EventMessage::Transaction(ev)) => {
                let ghost pre = self@;
                let row = TransactionRow::from_event(&ev, now);
                let ghost row_g = row@;
                self.transaction_batch.push(row);
                proof {
                    assert(self@.transactions =~= pre.transactions.push(row_g));
                    assert(self@.accounts =~= pre.accounts);
                    assert(self@.slots =~= pre.slots);
                }
                if self.transaction_batch.len() >= self.batch_size {
                    let ghost mid = self@;
                    let rows = self.transaction_batch.split_off(0);
                    let r = ProcessOutcome {
                        decoded: true,
                        flush: Some(SinkBatch::Transactions(rows)),
                    };
                    proof {
                        assert(seq_view(rows@) =~= mid.transactions);
                        assert(self@.transactions =~= Seq::<TransactionRowGhost>::empty());
                        assert(self@.accounts =~= pre.accounts);
                        assert(self@.slots =~= pre.slots);
                        assert(self@ =~= spec_process(pre, topic@, payload@, now).0);
                        assert(r@ =~= spec_process(pre, topic@, payload@, now).1);
                    }
                    r
                } else {
                    let r = ProcessOutcome { decoded: true, flush: None };
                    proof {
                        assert(self@ =~= spec_process(pre, topic@, payload@, now).0);
                        assert(r@ =~= spec_process(pre, topic@, payload@, now).1);
                    }
                    r
                }
            },
        }
    }

    /// Handle one received message, stamping rows with the clock.
    pub fn process_message(&mut self, topic: &str, payload: &[u8]) -> (r: ProcessOutcome)
        requires
            old(self).wf(),
        ensures
            final(self).wf(),
            exists|now: i64| (final(self)@, r@) == #[trigger] spec_process(
                old(self)@,
                topic@,
                payload@,
                now,
            ),
    {
        let now = now_seconds();
        let r = self.process_message_at(topic, payload, now);
        proof {
            assert((self@, r@) == spec_process(old(self)@, topic@, payload@, now));
        }
        r
    }

    /// Flush every non-empty buffer, in the fixed order accounts, slots,
    /// transactions, and leave all three empty.
    pub fn flush_all(&mut self) -> (r: FlushOutcome)
        requires
            old(self).wf(),
        ensures
            final(self).wf(),
            (final(self)@, r@) == spec_flush_all(old(self)@),
    {
        let ghost pre = self@;
        let accounts = if self.account_batch.len() > 0 {
            Some(self.account_batch.split_off(0))
        } else {
            None
        };
        let slots = if self.slot_batch.len() > 0 {
            Some(self.slot_batch.split_off(0))
        } else {
            None
        };
        let transactions = if self.transaction_batch.len() > 0 {
            Some(self.transaction_batch.split_off(0))
        } else {
            None
        };
        let r = FlushOutcome { accounts, slots, transactions };
        proof {
            assert(self@.accounts =~= Seq::<AccountRowGhost>::empty());
            assert(self@.slots =~= Seq::<SlotRowGhost>::empty());
            assert(self@.transactions =~= Seq::<TransactionRowGhost>::empty());
            assert(self@ =~= spec_flush_all(pre).0);
            match &r.accounts {
                Some(rows) => {
                    assert(seq_view(rows@) =~= pre.accounts);
                },
                None => {},
            }
            match &r.slots {
                Some(rows) => {
                    assert(seq_view(rows@) =~= pre.slots);
                },
                None => {},
            }
            match &r.transactions {
                Some(rows) => {
                    assert(seq_view(rows@) =~= pre.transactions);
                },
                None => {},
            }
            assert(r@ =~= spec_flush_all(pre).1);
        }
        r
    }
}

// ---------------------------------------------------------------------
// Laws.
// ---------------------------------------------------------------------
/// Law: a full flush on all-empty buffers issues zero sink calls.
pub proof fn lemma_flush_all_empty_issues_no_calls(pre: ProcessorGhost)
    requires
        pre.accounts.len() == 0,
        pre.slots.len() == 0,
        pre.transactions.len() == 0,
    ensures
        spec_flush_all(pre).1.accounts is None,
        spec_flush_all(pre).1.slots is None,
        spec_flush_all(pre).1.transactions is None,
{
}

/// Law: the append that reaches the threshold flushes exactly that
/// buffer, with every buffered row followed by the new one, and leaves
/// it empty; the other buffers are untouched.  The flush happens whether
/// or not the sink call that receives the rows later succeeds: the rows
/// are already moved out.
pub proof fn lemma_threshold_append_flushes_accounts(pre: ProcessorGhost, row: AccountRowGhost)
    requires
        pre.accounts.len() + 1 >= pre.batch_size,
    ensures
        spec_append_account(pre, row).0.accounts.len() == 0,
        spec_append_account(pre, row).1 == Some(SinkBatchGhost::Accounts(pre.accounts.push(row))),
        spec_append_account(pre, row).0.slots == pre.slots,
        spec_append_account(pre, row).0.transactions == pre.transactions,
{
}

/// The same law for the slot buffer.
pub proof fn lemma_threshold_append_flushes_slots(pre: ProcessorGhost, row: SlotRowGhost)
    requires
        pre.slots.len() + 1 >= pre.batch_size,
    ensures
        spec_append_slot(pre, row).0.slots.len() == 0,
        spec_append_slot(pre, row).1 == Some(SinkBatchGhost::Slots(pre.slots.push(row))),
        spec_append_slot(pre, row).0.accounts == pre.accounts,
        spec_append_slot(pre, row).0.transactions == pre.transactions,
{
}

/// The same law for the transaction buffer.
pub proof fn lemma_threshold_append_flushes_transactions(
    pre: ProcessorGhost,
    row: TransactionRowGhost,
)
    requires
        pre.transactions.len() + 1 >= pre.batch_size,
    ensures
        spec_append_transaction(pre, row).0.transactions.len() == 0,
        spec_append_transaction(pre, row).1 == Some(
            SinkBatchGhost::Transactions(pre.transactions.push(row)),
        ),
        spec_append_transaction(pre, row).0.accounts == pre.accounts,
        spec_append_transaction(pre, row).0.slots == pre.slots,
{
}

/// Law: an append below the threshold only buffers the row; nothing is
/// flushed.
pub proof fn lemma_below_threshold_append_buffers(pre: ProcessorGhost, row: AccountRowGhost)
    requires
        pre.accounts.len() + 1 < pre.batch_size,
    ensures
        spec_append_account(pre, row).0.accounts == pre.accounts.push(row),
        spec_append_account(pre, row).1 is None,
{
}

/// Law: a message that decodes under neither wire path changes no
/// buffer and flushes nothing.
pub proof fn lemma_undecodable_message_changes_nothing(
    pre: ProcessorGhost,
    topic: Seq<char>,
    payload: Seq<u8>,
    now: i64,
)
    requires
        spec_decode_event(topic, payload) is None,
    ensures
        spec_process(pre, topic, payload, now).0 == pre,
        spec_process(pre, topic, payload, now).1.flush is None,
        !spec_process(pre, topic, payload, now).1.decoded,
{
}

} // verus!
