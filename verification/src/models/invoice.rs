//! The invoice status taxonomy.

use vstd::prelude::*;

verus! {

/// Represents the current status of an invoice.
#[derive(Clone, Copy, Debug, PartialEq, Eq, Structural)]
pub enum InvoiceStatus {
    Pending,
    Completed,
    Voided,
    WaitingForConfirmations,
    Partial,
    CustomerDisputeOngoing,
    Reversed,
    Refunded,
    WaitingShopAction,
    Processing,
}

/// Adds more information onto [`InvoiceStatus`].
#[derive(Clone, Copy, Debug, PartialEq, Eq, Structural)]
pub enum InvoiceStatusDetails {
    CartPartialOutOfStock,
}

/// Adds more information onto [`InvoiceStatus`], if it was voided.
#[derive(Clone, Copy, Debug, PartialEq, Eq, Structural)]
pub enum InvoiceVoidDetails {
    CartProductsOutOfStock,
}

} // verus!
