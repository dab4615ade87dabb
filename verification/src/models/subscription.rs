//! The subscription resource: recurring bills on a product.

use vstd::prelude::*;
use crate::json::spec_get;
use crate::json::lemma_obj_get_at;
use crate::json::pairs_to_json_object;
use crate::json::spec_is_string_object;
use crate::json::JsonValue;
use crate::models::RawAPIResponse;
use crate::models::UniqidDict;
use crate::models::payment::PaymentGateway;

verus! {

/// All of the possible intervals subscriptions can be billed within.
#[derive(Clone, Copy, Debug, PartialEq, Eq, Structural)]
pub enum RecurringBillingIntervals {
    Daily,
    Weekly,
    Monthly,
    Yearly,
}

/// All of the possible statuses a subscription can be in.
#[derive(Clone, Copy, Debug, PartialEq, Eq, Structural)]
pub enum SubscriptionStatus {
    Pending,
    Cancelled,
    Trialing,
    Active,
}

/// Represents the possible customer details from an API object.
#[derive(Clone, Debug)]
pub struct CustomerData {
    /// Customer name.
    pub name: String,
    /// Customer surname.
    pub surname: String,
    /// Customer phone.
    pub phone: Option<String>,
    /// Customer phone country code.
    pub phone_country_code: Option<String>,
    /// Customer country code.
    pub country_code: Option<String>,
    /// Customer street address.
    pub address: Option<String>,
    /// Customer street address additional info.
    pub additional_address_info: Option<String>,
    /// Customer city.
    pub city: Option<String>,
    /// Customer postal code.
    pub postal_code: Option<String>,
    /// Customer state.
    pub state: Option<String>,
    /// Customer email.
    pub email: String,
}

/// Represents the raw API response for a subscription object. Timestamps
/// are held as seconds since the epoch; custom fields keep their
/// insertion order as key-value pairs; the linked invoices ride along as
/// plain JSON values.
#[derive(Debug)]
pub struct SubscriptionRaw {
    /// ID of the subscription (recurring bill).
    pub id: String,
    /// ID of the shop this resource is assigned to.
    pub shop_id: u64,
    /// ID of the product this subscription bills.
    pub product_id: String,
    /// The subscription's status.
    pub status: SubscriptionStatus,
    /// The subscription's gateway chosen by the customer.
    pub gateway: PaymentGateway,
    /// Custom fields passed, as required by the product configuration.
    pub custom_fields: Vec<(String, String)>,
    /// ID of the customer for which this subscription was created.
    pub customer_id: String,
    /// ID of the customer (created by Stripe) for this subscription.
    pub stripe_customer_id: String,
    /// The merchant's Stripe account ID.
    pub stripe_account: String,
    /// ID of the Stripe subscription created for this product subscription.
    pub stripe_subscription_id: String,
    /// ID of the coupon used on this subscription.
    pub coupon_id: Option<String>,
    /// When this subscription period will end, in seconds since the epoch.
    pub current_period_end: u64,
    /// Whether the one-week-ahead renewal email has been sent.
    pub upcoming_email_1_week_sent: bool,
    /// Email sent notifying the customer of an ending trial.
    pub trial_period_ending_email_sent: bool,
    /// Whether a new invoice has already been created for the new period.
    pub renewal_invoice_created: bool,
    /// When this subscription was created, in seconds since the epoch.
    pub created_at: u64,
    /// When this subscription was last updated.
    pub updated_at: u64,
    /// When this subscription was canceled.
    pub canceled_at: Option<String>,
    /// Title of the product this subscription bills.
    pub product_title: String,
    /// Customer name.
    pub customer_name: String,
    /// Customer surname.
    pub customer_surname: String,
    /// Customer phone.
    pub customer_phone: Option<String>,
    /// Customer phone country code.
    pub customer_phone_country_code: Option<String>,
    /// Customer country code.
    pub customer_country_code: Option<String>,
    /// Customer street address.
    pub customer_street_address: Option<String>,
    /// Customer street address additional info.
    pub customer_additional_address_info: Option<String>,
    /// Customer city.
    pub customer_city: Option<String>,
    /// Customer postal code.
    pub customer_postal_code: Option<String>,
    /// Customer state.
    pub customer_state: Option<String>,
    /// Customer email.
    pub customer_email: String,
    /// Array of invoice objects linked to this subscription.
    pub invoices: Vec<JsonValue>,
}

/// The one-record wrapper a get reply carries the subscription in.
#[derive(Debug)]
pub struct SubscriptionOneRaw {
    pub subscription: SubscriptionRaw,
}

/// The reply envelope of a subscription get.
pub type SubscriptionGetResponseRaw = RawAPIResponse<SubscriptionOneRaw>;

/// The array wrapper a list reply carries the subscriptions in.
#[derive(Debug)]
pub struct SubscriptionArray {
    pub subscriptions: Vec<SubscriptionRaw>,
}

/// The reply envelope of a subscription list.
pub type SubscriptionListResponseRaw = RawAPIResponse<SubscriptionArray>;

/// Represents the payload for creating a subscription. Custom fields keep
/// their insertion order as key-value pairs.
#[derive(Clone, Debug)]
pub struct SubscriptionCreatePayload {
    /// ID of the subscription product.
    pub product_id: String,
    /// Coupon code to apply on the subscription.
    pub coupon_code: Option<String>,
    /// Key-value pairs having as key the custom field name and as value
    /// the custom field value inserted by the customer.
    pub custom_fields: Vec<(String, String)>,
    /// ID of the store customer.
    pub customer_id: String,
    pub gateway: PaymentGateway,
}

/// The reply envelope of a subscription create.
pub type SubscriptionCreateResponseRaw = RawAPIResponse<UniqidDict>;

} // verus!

verus! {

impl SubscriptionCreatePayload {
    /// Encodes this payload as the JSON object the create and update
    /// endpoints take: one field per documented key, with an absent
    /// optional sent as `null`.
    pub fn to_json(&self) -> (r: JsonValue)
        ensures
            r is Obj,
            spec_get(r, "product_id"@) matches Some(v) && v.spec_as_str() == Some(self.product_id@),
            match self.coupon_code {
                Some(x) => spec_get(r, "coupon_code"@) matches Some(v) && v.spec_as_str() == Some(x@),
                None => spec_get(r, "coupon_code"@) == Some(JsonValue::Null),
            },
            spec_get(r, "custom_fields"@) matches Some(v) && spec_is_string_object(v, self.custom_fields@),
            spec_get(r, "customer_id"@) matches Some(v) && v.spec_as_str() == Some(self.customer_id@),
            spec_get(r, "gateway"@) matches Some(v) && v.spec_as_str() == Some(self.gateway.spec_as_str()),
    {
        let mut fields: Vec<(String, JsonValue)> = Vec::new();
        fields.push(("product_id".to_owned(), JsonValue::Str(self.product_id.clone())));
        let coupon_code_value = match &self.coupon_code {
            Some(x) => JsonValue::Str(x.clone()),
            None => JsonValue::Null,
        };
        fields.push(("coupon_code".to_owned(), coupon_code_value));
        fields.push(("custom_fields".to_owned(), pairs_to_json_object(&self.custom_fields)));
        fields.push(("customer_id".to_owned(), JsonValue::Str(self.customer_id.clone())));
        fields.push(("gateway".to_owned(), JsonValue::Str(self.gateway.as_str().to_owned())));
        let r = JsonValue::Obj(fields);
        proof {
            reveal_strlit("product_id");
            reveal_strlit("coupon_code");
            reveal_strlit("custom_fields");
            reveal_strlit("customer_id");
            reveal_strlit("gateway");
            assert("product_id"@.len() == 10 && "product_id"@[0] == 'p' && "product_id"@[1] == 'r');
            assert("coupon_code"@.len() == 11 && "coupon_code"@[0] == 'c' && "coupon_code"@[1] == 'o');
            assert("custom_fields"@.len() == 13 && "custom_fields"@[0] == 'c' && "custom_fields"@[1] == 'u');
            assert("customer_id"@.len() == 11 && "customer_id"@[0] == 'c' && "customer_id"@[1] == 'u');
            assert("gateway"@.len() == 7 && "gateway"@[0] == 'g' && "gateway"@[1] == 'a');
            lemma_obj_get_at(fields@, 0);
            lemma_obj_get_at(fields@, 1);
            lemma_obj_get_at(fields@, 2);
            lemma_obj_get_at(fields@, 3);
            lemma_obj_get_at(fields@, 4);
            assert(spec_get(r, "product_id"@) == Some(fields@[0].1));
            assert(spec_get(r, "coupon_code"@) == Some(fields@[1].1));
            assert(spec_get(r, "custom_fields"@) == Some(fields@[2].1));
            assert(spec_get(r, "customer_id"@) == Some(fields@[3].1));
            assert(spec_get(r, "gateway"@) == Some(fields@[4].1));
        }
        r
    }
}

} // verus!
