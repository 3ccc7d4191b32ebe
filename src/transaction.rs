//! Pending transactions of the host's wallet and the suspension of
//! applications whose hosting invoices are overdue.
use vstd::prelude::*;
use crate::unique::{id_views, dedup_first, unique_ids};
use crate::clock::{now_millis, spec_millis_of};

verus! {

#[derive(Clone, Copy, Debug, PartialEq, Eq, Structural)]
pub enum AcceptedBy {
    ByMe,
    ByCounterParty,
}

#[derive(Clone, Copy, Debug, PartialEq, Eq, Structural)]
pub enum TransactionStatus {
    /// Created by this side, waiting for the counterparty.
    Actionable,
    /// Created by both sides.
    Pending,
    /// Accepted by the counterparty, not yet countersigned.
    Accepted(AcceptedBy),
    Completed,
    Declined,
    Expired,
}

#[derive(Clone, Copy, Debug, PartialEq, Eq, Structural)]
pub enum TransactionDirection {
    Outgoing,
    Incoming,
}

#[derive(Clone, Copy, Debug, PartialEq, Eq, Structural)]
pub enum TransactionType {
    /// An invoice.
    Request,
    /// A promise.
    Offer,
}

/// Proof of service attached to a transaction.
#[derive(Clone, Debug)]
pub enum POS {
    /// Hosting, with the capability secret of the hosting agreement.
    Hosting(Vec<u8>),
    /// A redemption, with the wallet address.
    Redemption(String),
}

/// One transaction; timestamps are milliseconds since the Unix epoch.
#[derive(Clone, Debug)]
pub struct Transaction {
    pub id: String,
    pub amount: String,
    pub fee: String,
    pub created_date: i64,
    pub completed_date: Option<i64>,
    pub transaction_type: TransactionType,
    pub counterparty: String,
    pub direction: TransactionDirection,
    pub status: TransactionStatus,
    /// YAML text; on a hosting invoice it holds an `InvoiceNote`.
    pub note: Option<String>,
    pub proof_of_service: Option<POS>,
    pub url: Option<String>,
    pub expiration_date: Option<i64>,
}

#[derive(Clone, Debug)]
pub struct PendingTransaction {
    pub invoice_pending: Vec<Transaction>,
    pub promise_pending: Vec<Transaction>,
    pub invoice_declined: Vec<Transaction>,
    pub promise_declined: Vec<Transaction>,
    pub accepted: Vec<Transaction>,
}

/// Invoiced quantities and prices, each as YAML text.
#[derive(Clone, Debug)]
pub struct InvoicedItems {
    pub quantity: String,
    pub prices: String,
}

/// The decoded note of a hosting invoice: the invoiced application and the
/// billing period (milliseconds since the Unix epoch).
#[derive(Clone, Debug)]
pub struct InvoiceNote {
    pub hha_id: String,
    pub invoice_period_start: i64,
    pub invoice_period_end: i64,
    pub invoiced_items: InvoicedItems,
}

/// The application that an invoice suspends at time `now_millis`, given
/// what its note decoded to: a hosting invoice, expired strictly before
/// `now_millis`, with a note that decoded. Any other invoice suspends none.
pub open spec fn spec_suspension_target(
    invoice: Transaction,
    decoded_note: Option<InvoiceNote>,
    now_millis: i64,
) -> Option<Seq<char>> {
    match (invoice.proof_of_service, invoice.expiration_date, invoice.note, decoded_note) {
        (Some(POS::Hosting(_)), Some(expiration), Some(_), Some(n)) => if expiration < now_millis {
            Some(n.hha_id@)
        } else {
            None
        },
        _ => None,
    }
}

/// The application that `invoice` suspends at time `now_millis`, if any.
/// `decoded_note` is what the invoice's note decoded to, `None` where it
/// did not decode.
pub fn suspension_target(
    invoice: &Transaction,
    decoded_note: &Option<InvoiceNote>,
    now_millis: i64,
) -> (r: Option<String>)
    ensures
        r.is_some() == spec_suspension_target(*invoice, *decoded_note, now_millis).is_some(),
        r.is_some() ==> Some(r.unwrap()@) == spec_suspension_target(
            *invoice,
            *decoded_note,
            now_millis,
        ),
{
    match (&invoice.proof_of_service, &invoice.expiration_date, &invoice.note, decoded_note) {
        (Some(POS::Hosting(_)), Some(expiration), Some(_), Some(n)) => {
            if *expiration < now_millis {
                Some(n.hha_id.clone())
            } else {
                None
            }
        },
        _ => None,
    }
}

/// The suspension targets of the first `k` invoices, in order.
pub open spec fn targets_upto(
    invoices: Seq<Transaction>,
    decoded_notes: Seq<Option<InvoiceNote>>,
    now_millis: i64,
    k: int,
) -> Seq<Seq<char>>
    decreases k,
{
    if k <= 0 {
        Seq::empty()
    } else {
        let prev = targets_upto(invoices, decoded_notes, now_millis, k - 1);
        let note = if k - 1 < decoded_notes.len() {
            decoded_notes[k - 1]
        } else {
            None
        };
        match spec_suspension_target(invoices[k - 1], note, now_millis) {
            Some(id) => prev.push(id),
            None => prev,
        }
    }
}

/// The applications to suspend: for each pending invoice in turn, its
/// suspension target, without repeats.
pub open spec fn spec_suspended_happs(
    pending_transactions: PendingTransaction,
    decoded_notes: Seq<Option<InvoiceNote>>,
    now_millis: i64,
) -> Seq<Seq<char>> {
    dedup_first(
        targets_upto(
            pending_transactions.invoice_pending@,
            decoded_notes,
            now_millis,
            pending_transactions.invoice_pending@.len() as int,
        ),
    )
}

/// The applications whose hosting invoices are overdue at `now_millis`.
/// `decoded_notes[i]` is what the note of the `i`-th pending invoice decoded
/// to; an invoice without a decoded note suspends nothing.
pub fn get_suspended_happs(
    pending_transactions: &PendingTransaction,
    decoded_notes: &Vec<Option<InvoiceNote>>,
    now_millis: i64,
) -> (r: Vec<String>)
    ensures
        id_views(r@) == spec_suspended_happs(*pending_transactions, decoded_notes@, now_millis),
        id_views(r@).no_duplicates(),
{
    let invoices = &pending_transactions.invoice_pending;
    let mut targets: Vec<String> = Vec::new();
    let mut i: usize = 0;
    while i < invoices.len()
        invariant
            i <= invoices@.len(),
            id_views(targets@) == targets_upto(invoices@, decoded_notes@, now_millis, i as int),
        decreases invoices@.len() - i,
    {
        let none: Option<InvoiceNote> = None;
        let note = if i < decoded_notes.len() {
            &decoded_notes[i]
        } else {
            &none
        };
        let t = suspension_target(&invoices[i], note, now_millis);
        match t {
            Some(id) => {
                targets.push(id);
                assert(id_views(targets@) =~= targets_upto(
                    invoices@,
                    decoded_notes@,
                    now_millis,
                    i + 1,
                ));
            },
            None => {},
        }
        i = i + 1;
    }
    unique_ids(&targets)
}

/// The applications whose hosting invoices are overdue now, by the system
/// clock; none when the clock cannot be read (it reads before the Unix
/// epoch).
pub fn suspended_happs_now(
    pending_transactions: &PendingTransaction,
    decoded_notes: &Vec<Option<InvoiceNote>>,
) -> (r: Option<Vec<String>>)
    ensures
        r matches Some(v) ==> exists|s: u64, n: u32, t: i64|
            n < 1_000_000_000 && spec_millis_of(Some((s, n))) == Some(t) && id_views(v@)
                == spec_suspended_happs(*pending_transactions, decoded_notes@, t),
{
    match now_millis() {
        Some(now) => Some(get_suspended_happs(pending_transactions, decoded_notes, now)),
        None => None,
    }
}

} // verus!
