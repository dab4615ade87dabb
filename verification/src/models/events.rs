//! The webhook event names, as typed variants. Each event arrives as a
//! text name such as the ones the API documentation lists; these enums
//! and their readers map the names to variants.

use vstd::prelude::*;
use vstd::pervasive::unreached;
use crate::json::str_eq;

verus! {

/// Represents all of the order events.
#[derive(Clone, Copy, Debug, PartialEq, Eq, Structural)]
pub enum Order {
    Created,
    Updated,
    Partial,
    Paid,
    Cancelled,
    Disputed,
    PaidProduct,
    CancelledProduct,
    DisputedProduct,
    CreatedProduct,
    PartialProduct,
    UpdatedProduct,
}

/// The order event a webhook name stands for, if it is one.
pub open spec fn spec_order_event(s: Seq<char>) -> Option<Order> {
    if s == "order:created"@ {
        Some(Order::Created)
    } else if s == "order:updated"@ {
        Some(Order::Updated)
    } else if s == "order:partial"@ {
        Some(Order::Partial)
    } else if s == "order:paid"@ {
        Some(Order::Paid)
    } else if s == "order:cancelled"@ {
        Some(Order::Cancelled)
    } else if s == "order:disputed"@ {
        Some(Order::Disputed)
    } else if s == "order:paid:product"@ {
        Some(Order::PaidProduct)
    } else if s == "order:cancelled:product"@ {
        Some(Order::CancelledProduct)
    } else if s == "order:disputed:product"@ {
        Some(Order::DisputedProduct)
    } else if s == "order:created:product"@ {
        Some(Order::CreatedProduct)
    } else if s == "order:partial:product"@ {
        Some(Order::PartialProduct)
    } else if s == "order:updated:product"@ {
        Some(Order::UpdatedProduct)
    } else {
        None
    }
}

impl Order {
    /// Reads a webhook event name. The caller owes a name that stands for
    /// one of the order events; any other text is outside this
    /// function's domain.
    pub fn from_str(x: &str) -> (r: Order)
        requires
            spec_order_event(x@) is Some,
        ensures
            Some(r) == spec_order_event(x@),
    {
        if str_eq(x, "order:created") {
            Order::Created
        } else if str_eq(x, "order:updated") {
            Order::Updated
        } else if str_eq(x, "order:partial") {
            Order::Partial
        } else if str_eq(x, "order:paid") {
            Order::Paid
        } else if str_eq(x, "order:cancelled") {
            Order::Cancelled
        } else if str_eq(x, "order:disputed") {
            Order::Disputed
        } else if str_eq(x, "order:paid:product") {
            Order::PaidProduct
        } else if str_eq(x, "order:cancelled:product") {
            Order::CancelledProduct
        } else if str_eq(x, "order:disputed:product") {
            Order::DisputedProduct
        } else if str_eq(x, "order:created:product") {
            Order::CreatedProduct
        } else if str_eq(x, "order:partial:product") {
            Order::PartialProduct
        } else if str_eq(x, "order:updated:product") {
            Order::UpdatedProduct
        } else {
            unreached()
        }
    }
}

/// Represents all of the query events.
#[derive(Clone, Copy, Debug, PartialEq, Eq, Structural)]
pub enum Query {
    Created,
    Replied,
}

/// The query event a webhook name stands for, if it is one.
pub open spec fn spec_query_event(s: Seq<char>) -> Option<Query> {
    if s == "query:created"@ {
        Some(Query::Created)
    } else if s == "query:replied"@ {
        Some(Query::Replied)
    } else {
        None
    }
}

impl Query {
    /// Reads a webhook event name. The caller owes a name that stands for
    /// one of the query events; any other text is outside this
    /// function's domain.
    pub fn from_str(x: &str) -> (r: Query)
        requires
            spec_query_event(x@) is Some,
        ensures
            Some(r) == spec_query_event(x@),
    {
        if str_eq(x, "query:created") {
            Query::Created
        } else if str_eq(x, "query:replied") {
            Query::Replied
        } else {
            unreached()
        }
    }
}

/// Represents all of the feedback events.
#[derive(Clone, Copy, Debug, PartialEq, Eq, Structural)]
pub enum Feedback {
    Created,
}

/// The feedback event a webhook name stands for, if it is one.
pub open spec fn spec_feedback_event(s: Seq<char>) -> Option<Feedback> {
    if s == "feedback:created"@ {
        Some(Feedback::Created)
    } else {
        None
    }
}

impl Feedback {
    /// Reads a webhook event name. The caller owes a name that stands for
    /// one of the feedback events; any other text is outside this
    /// function's domain.
    pub fn from_str(x: &str) -> (r: Feedback)
        requires
            spec_feedback_event(x@) is Some,
        ensures
            Some(r) == spec_feedback_event(x@),
    {
        if str_eq(x, "feedback:created") {
            Feedback::Created
        } else {
            unreached()
        }
    }
}

/// Represents all of the product events.
#[derive(Clone, Copy, Debug, PartialEq, Eq, Structural)]
pub enum Product {
    Created,
    Edited,
    Stock,
    Dynamic,
}

/// The product event a webhook name stands for, if it is one.
pub open spec fn spec_product_event(s: Seq<char>) -> Option<Product> {
    if s == "product:created"@ {
        Some(Product::Created)
    } else if s == "product:edited"@ {
        Some(Product::Edited)
    } else if s == "product:stock"@ {
        Some(Product::Stock)
    } else if s == "product:dynamic"@ {
        Some(Product::Dynamic)
    } else {
        None
    }
}

impl Product {
    /// Reads a webhook event name. The caller owes a name that stands for
    /// one of the product events; any other text is outside this
    /// function's domain.
    pub fn from_str(x: &str) -> (r: Product)
        requires
            spec_product_event(x@) is Some,
        ensures
            Some(r) == spec_product_event(x@),
    {
        if str_eq(x, "product:created") {
            Product::Created
        } else if str_eq(x, "product:edited") {
            Product::Edited
        } else if str_eq(x, "product:stock") {
            Product::Stock
        } else if str_eq(x, "product:dynamic") {
            Product::Dynamic
        } else {
            unreached()
        }
    }
}

/// Represents all of the subscription events.
#[derive(Clone, Copy, Debug, PartialEq, Eq, Structural)]
pub enum Subscription {
    Created,
    Updated,
    Renewed,
    Cancelled,
    Upcoming,
    TrialStarted,
    TrialEnded,
    TrialStartedProduct,
    TrialEndedProduct,
    CreatedProduct,
    UpdatedProduct,
    RenewedProduct,
    CancelledProduct,
    UpcomingProduct,
}

/// The subscription event a webhook name stands for, if it is one.
pub open spec fn spec_subscription_event(s: Seq<char>) -> Option<Subscription> {
    if s == "subscription:created"@ {
        Some(Subscription::Created)
    } else if s == "subscription:updated"@ {
        Some(Subscription::Updated)
    } else if s == "subscription:renewed"@ {
        Some(Subscription::Renewed)
    } else if s == "subscription:cancelled"@ {
        Some(Subscription::Cancelled)
    } else if s == "subscription:upcoming"@ {
        Some(Subscription::Upcoming)
    } else if s == "subscription:trial:started"@ {
        Some(Subscription::TrialStarted)
    } else if s == "subscription:trial:ended"@ {
        Some(Subscription::TrialEnded)
    } else if s == "subscription:trial:started:product"@ {
        Some(Subscription::TrialStartedProduct)
    } else if s == "subscription:trial:ended:product"@ {
        Some(Subscription::TrialEndedProduct)
    } else if s == "subscription:created:product"@ {
        Some(Subscription::CreatedProduct)
    } else if s == "subscription:updated:product"@ {
        Some(Subscription::UpdatedProduct)
    } else if s == "subscription:renewed:product"@ {
        Some(Subscription::RenewedProduct)
    } else if s == "subscription:cancelled:product"@ {
        Some(Subscription::CancelledProduct)
    } else if s == "subscription:upcoming:product"@ {
        Some(Subscription::UpcomingProduct)
    } else {
        None
    }
}

impl Subscription {
    /// Reads a webhook event name. The caller owes a name that stands for
    /// one of the subscription events; any other text is outside this
    /// function's domain.
    pub fn from_str(x: &str) -> (r: Subscription)
        requires
            spec_subscription_event(x@) is Some,
        ensures
            Some(r) == spec_subscription_event(x@),
    {
        if str_eq(x, "subscription:created") {
            Subscription::Created
        } else if str_eq(x, "subscription:updated") {
            Subscription::Updated
        } else if str_eq(x, "subscription:renewed") {
            Subscription::Renewed
        } else if str_eq(x, "subscription:cancelled") {
            Subscription::Cancelled
        } else if str_eq(x, "subscription:upcoming") {
            Subscription::Upcoming
        } else if str_eq(x, "subscription:trial:started") {
            Subscription::TrialStarted
        } else if str_eq(x, "subscription:trial:ended") {
            Subscription::TrialEnded
        } else if str_eq(x, "subscription:trial:started:product") {
            Subscription::TrialStartedProduct
        } else if str_eq(x, "subscription:trial:ended:product") {
            Subscription::TrialEndedProduct
        } else if str_eq(x, "subscription:created:product") {
            Subscription::CreatedProduct
        } else if str_eq(x, "subscription:updated:product") {
            Subscription::UpdatedProduct
        } else if str_eq(x, "subscription:renewed:product") {
            Subscription::RenewedProduct
        } else if str_eq(x, "subscription:cancelled:product") {
            Subscription::CancelledProduct
        } else if str_eq(x, "subscription:upcoming:product") {
            Subscription::UpcomingProduct
        } else {
            unreached()
        }
    }
}

/// Represents all events combined.
#[derive(Clone, Copy, Debug, PartialEq, Eq, Structural)]
pub enum Event {
    OrderCreated,
    OrderUpdated,
    OrderPartial,
    OrderPaid,
    OrderCancelled,
    OrderDisputed,
    OrderPaidProduct,
    OrderCancelledProduct,
    OrderDisputedProduct,
    OrderCreatedProduct,
    OrderPartialProduct,
    OrderUpdatedProduct,
    QueryCreated,
    QueryReplied,
    FeedbackCreated,
    ProductCreated,
    ProductEdited,
    ProductStock,
    ProductDynamic,
    SubscriptionCreated,
    SubscriptionUpdated,
    SubscriptionRenewed,
    SubscriptionCancelled,
    SubscriptionUpcoming,
    SubscriptionTrialStarted,
    SubscriptionTrialEnded,
    SubscriptionTrialStartedProduct,
    SubscriptionTrialEndedProduct,
    SubscriptionCreatedProduct,
    SubscriptionUpdatedProduct,
    SubscriptionRenewedProduct,
    SubscriptionCancelledProduct,
    SubscriptionUpcomingProduct,
}

} // verus!
