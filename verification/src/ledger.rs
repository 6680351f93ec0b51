//! What the library asks of the ledger and what the ledger answers. The library
//! decides; its caller talks to the ledger and hands the answers back.

use crate::address::Address;
use crate::error::{ClientError, ClientErrorView};
use crate::transaction::{TransactionPlan, TransactionPlanView};
use vstd::prelude::*;

verus! {

/// One piece of work for the caller to carry out on the ledger.
#[derive(Debug)]
pub enum LedgerRequest {
    /// Ask the rent oracle, now, for the rent-exempt minimum of an account of `len`
    /// bytes.
    MinimumBalance { len: usize },
    /// Fetch the most recent block reference, sign the plan with its signers, submit
    /// it and wait until the ledger confirms or rejects it.
    Submit { plan: TransactionPlan },
}

/// A `LedgerRequest` with its plan as sequences.
pub enum LedgerRequestView {
    MinimumBalance { len: usize },
    Submit { plan: TransactionPlanView },
}

impl View for LedgerRequest {
    type V = LedgerRequestView;

    open spec fn view(&self) -> LedgerRequestView {
        match self {
            LedgerRequest::MinimumBalance { len } => LedgerRequestView::MinimumBalance {
                len: *len,
            },
            LedgerRequest::Submit { plan } => LedgerRequestView::Submit { plan: plan@ },
        }
    }
}

/// The rent-exempt minimum that the oracle gave for accounts of `len` bytes.
#[derive(Clone, Copy, Debug)]
pub struct RentQuote {
    pub len: usize,
    pub lamports: u64,
}

/// An account that is about to be created: the address of the key pair made for it,
/// and the rent that the oracle gave for its length.
#[derive(Clone, Copy, Debug)]
pub struct FundedAccount {
    pub address: Address,
    pub rent: RentQuote,
}

/// What the ledger answered.
#[derive(Debug)]
pub enum LedgerReply {
    /// The answer to `MinimumBalance`.
    Balance(RentQuote),
    /// The transaction landed; `signature` identifies it.
    Confirmed { signature: String },
    /// The ledger declined the request, for the reason it gives.
    Rejected { reason: String },
}

/// A `LedgerReply` with its texts as sequences of characters.
pub enum LedgerReplyView {
    Balance(RentQuote),
    Confirmed { signature: Seq<char> },
    Rejected { reason: Seq<char> },
}

impl View for LedgerReply {
    type V = LedgerReplyView;

    open spec fn view(&self) -> LedgerReplyView {
        match self {
            LedgerReply::Balance(quote) => LedgerReplyView::Balance(*quote),
            LedgerReply::Confirmed { signature } => LedgerReplyView::Confirmed {
                signature: signature@,
            },
            LedgerReply::Rejected { reason } => LedgerReplyView::Rejected { reason: reason@ },
        }
    }
}

/// What the reply to a submitted transaction means: its identity, or the ledger's
/// reason for declining it.
pub open spec fn spec_submission_outcome(reply: LedgerReplyView) -> Result<
    Seq<char>,
    ClientErrorView,
> {
    match reply {
        LedgerReplyView::Confirmed { signature } => Ok(signature),
        LedgerReplyView::Rejected { reason } => Err(ClientErrorView::SubmissionRejected(reason)),
        LedgerReplyView::Balance(_) => Err(ClientErrorView::UnexpectedReply),
    }
}

/// Reads the reply to a submitted transaction: the confirmed transaction's identity, or
/// `SubmissionRejected` with the ledger's reason. A rejected transaction has changed
/// nothing on the ledger.
pub fn submission_outcome(reply: LedgerReply) -> (outcome: Result<String, ClientError>)
    ensures
        match outcome {
            Ok(signature) => spec_submission_outcome(reply@) == Ok::<Seq<char>, ClientErrorView>(
                signature@,
            ),
            Err(e) => spec_submission_outcome(reply@) == Err::<Seq<char>, ClientErrorView>(e@),
        },
{
    match reply {
        LedgerReply::Confirmed { signature } => Ok(signature),
        LedgerReply::Rejected { reason } => Err(ClientError::SubmissionRejected(reason)),
        LedgerReply::Balance(_) => Err(ClientError::UnexpectedReply),
    }
}

} // verus!
