//! The dispute taxonomy: why a customer files one, where it stands, and
//! how it ends.

use vstd::prelude::*;

verus! {

/// All of the dispute reasons a customer could file.
#[derive(Clone, Copy, Debug, PartialEq, Eq, Structural)]
pub enum DisputeReason {
    /// The customer did not receive the merchandise or service.
    MerchandiseOrServiceNotReached,
    /// The customer reports that the merchandise or service is not as described.
    MerchandiseOrServiceNotAsDescribed,
    /// The customer did not authorize purchase of the merchandise or service.
    Unauthorised,
    /// The refund or credit was not processed for the customer.
    CreditNotProcessed,
    /// The transaction was a duplicate.
    DuplicateTransaction,
    /// The customer was charged an incorrect amount.
    IncorrectAmount,
    /// The customer paid for the transaction through other means.
    PaymentByOtherMeans,
    /// The customer was being charged for a subscription or a recurring transaction that was canceled.
    CanceledRecurringBilling,
    /// A problem occurred with the remittance.
    ProblemWithRemittance,
    /// Other.
    Other,
}

/// The status of a Dispute.
#[derive(Clone, Copy, Debug, PartialEq, Eq, Structural)]
pub enum DisputeStatus {
    /// The dispute is open.
    Open,
    /// The dispute is waiting for a response from the customer.
    WaitingForBuyerResponse,
    /// The dispute is waiting for a response from the merchant.
    WaitingForSellerResponse,
    /// The dispute is under review with PayPal.
    UnderReview,
    /// The dispute is resolved.
    Resolved,
    /// The default status if the dispute does not have one of the other statuses.
    Other,
}

/// The outcome of a Dispute.
#[derive(Clone, Copy, Debug, PartialEq, Eq, Structural)]
pub enum DisputeOutcome {
    /// The dispute was resolved in the customer's favor.
    ResolvedBuyerFavour,
    /// The dispute was resolved in the merchant's favor.
    ResolvedSellerFavour,
    /// PayPal provided the merchant or customer with protection and the case is resolved.
    ResolvedWithPayout,
    /// The customer canceled the dispute.
    CanceledByBuyer,
    /// PayPal accepted the dispute.
    Accepted,
    /// PayPal denied the dispute.
    Denied,
    /// A dispute was created for the same transaction ID, and the previous
    /// dispute was closed without any decision.
    NoDecision,
}

/// The current life cycle state of a Dispute.
#[derive(Clone, Copy, Debug, PartialEq, Eq, Structural)]
pub enum DisputeStage {
    /// A customer and merchant interact in an attempt to resolve a dispute
    /// without escalation to PayPal.
    Inquiry,
    /// A customer or merchant escalates an inquiry to a claim, which
    /// authorizes PayPal to investigate the case and make a determination.
    Chargeback,
    /// The first appeal stage for merchants: a merchant can appeal a
    /// chargeback if PayPal's decision is not in the merchant's favor.
    PreArbitration,
    /// The second appeal stage for merchants, after pre-arbitration.
    Arbitration,
}

/// Describes who posted a message within the dispute.
#[derive(Clone, Copy, Debug, PartialEq, Eq, Structural)]
pub enum DisputeMessage {
    /// The customer posted the message.
    Buyer,
    /// The merchant posted the message.
    Seller,
    /// The arbiter of the dispute posted the message.
    Arbiter,
}

} // verus!
