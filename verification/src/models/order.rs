//! The order resource's companion types. The full order record carries
//! monetary amounts with fractions, which this library does not model; the
//! companion types here are the ones whose values are plain.

use vstd::prelude::*;

verus! {

/// The types of order.
#[derive(Clone, Copy, Debug, PartialEq, Eq, Structural)]
pub enum OrderType {
    Product,
    Subscription,
    PublicRestApi,
    MonthlyBill,
    ShoppingCart,
}

/// The history of the order.
#[derive(Clone, Copy, Debug, PartialEq, Eq, Structural)]
pub enum OrderHistoryStatus {
    Refunded,
    PaymentCaptureCompleted,
    PaymentCaptureDenied,
    Partial,
    CustomerDisputeResolved,
    Completed,
    PaymentCaptureReversed,
    Voided,
    PaymentCapturePending,
    WaitingForConfirmations,
    PaymentAuthorizationCreated,
    CustomerDisputeOngoing,
}

/// What the fraud shield learned about the paying customer's address.
#[derive(Clone, Debug)]
pub struct IpInfo {
    pub success: bool,
    pub message: String,
    pub fraud_score: u64,
    pub country_code: String,
    pub region: String,
    pub city: String,
    pub isp: String,
    pub asn: u64,
    pub operating_system: String,
    pub browser: String,
    pub organization: String,
    pub is_crawler: bool,
}

/// A file attached to an order. Timestamps are held as seconds since the
/// epoch.
#[derive(Clone, Debug)]
pub struct File {
    pub id: u64,
    pub uniqid: String,
    pub cloudflare_image_id: String,
    pub storage: Option<String>,
    pub name: String,
    pub original_name: String,
    pub extension: String,
    pub shop_id: u64,
    pub size: u64,
    pub created_at: u64,
}

/// One webhook delivery attempt recorded on an order.
#[derive(Clone, Debug)]
pub struct Webhook {
    pub uniqid: String,
    pub url: String,
    pub event: String,
    pub retries: u64,
    pub response_code: u64,
    pub created_at: u64,
    pub payload: String,
    pub response: String,
}

/// A PayPal dispute attached to an order. Timestamps are held as seconds
/// since the epoch.
#[derive(Clone, Debug)]
pub struct PaypalDispute {
    pub id: String,
    pub invoice_id: String,
    pub shop_id: u64,
    pub reason: String,
    pub status: String,
    pub outcome: Option<String>,
    pub messages: Vec<Message>,
    pub life_cycle_stage: String,
    pub seller_response_due_date: u64,
    pub created_at: u64,
}

/// One message within a PayPal dispute.
#[derive(Clone, Debug)]
pub struct Message {
    pub posted_by: String,
    pub content: String,
    pub created_at: u64,
}

/// One entry of an order's status history.
#[derive(Clone, Debug)]
pub struct StatusHistory {
    pub id: u64,
    pub invoice_id: String,
    pub status: String,
    pub details: String,
    pub created_at: u64,
}

/// A volume discount tier as carried on an order.
#[derive(Clone, Debug)]
pub struct VolumeDiscount {
    pub type_field: String,
    pub value: u64,
    pub quantity: u64,
}

} // verus!
