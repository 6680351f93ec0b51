//! The failures that an operation reports to its caller.

use vstd::prelude::*;

verus! {

/// Why an operation could not be carried out.
#[derive(Debug)]
pub enum ClientError {
    /// A required persisted record is absent: setup has to run first.
    ConfigMissing,
    /// No nonce below the search bound derives a valid vault signer.
    DerivationExhausted,
    /// On-chain bytes fail the padding, layout or self-reference checks.
    MalformedAccount,
    /// The ledger declined a request; the reason is the ledger's.
    SubmissionRejected(String),
    /// A local record could not be written; the cause is attached.
    StoreWriteConflict(String),
    /// The driver handed over a reply that does not answer the pending request.
    UnexpectedReply,
}

/// A `ClientError` with its texts as sequences of characters.
pub enum ClientErrorView {
    ConfigMissing,
    DerivationExhausted,
    MalformedAccount,
    SubmissionRejected(Seq<char>),
    StoreWriteConflict(Seq<char>),
    UnexpectedReply,
}

impl View for ClientError {
    type V = ClientErrorView;

    open spec fn view(&self) -> ClientErrorView {
        match self {
            ClientError::ConfigMissing => ClientErrorView::ConfigMissing,
            ClientError::DerivationExhausted => ClientErrorView::DerivationExhausted,
            ClientError::MalformedAccount => ClientErrorView::MalformedAccount,
            ClientError::SubmissionRejected(reason) => ClientErrorView::SubmissionRejected(reason@),
            ClientError::StoreWriteConflict(cause) => ClientErrorView::StoreWriteConflict(cause@),
            ClientError::UnexpectedReply => ClientErrorView::UnexpectedReply,
        }
    }
}

} // verus!
