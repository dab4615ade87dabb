//! The coupon resource: discounts over products.

use vstd::prelude::*;
use crate::json::JsonValue;
use crate::json::spec_get;
use crate::json::lemma_obj_get_at;
use crate::json::spec_is_string_array;
use crate::json::strings_to_json_array;
use crate::models::Currencies;
use crate::models::RawAPIResponse;
use crate::models::UniqidDict;
use crate::models::payment::DiscountType;

verus! {

/// Possible coupon types.
#[derive(Clone, Copy, Debug, PartialEq, Eq, Structural)]
pub enum CouponType {
    Product,
    Subscription,
}

/// Describes how many times the coupon can be used.
#[derive(Clone, Copy, Debug, PartialEq, Eq, Structural)]
pub enum CouponUseType {
    Limited,
    Any,
}

/// Represents the raw API response for a coupon object. Timestamps are
/// held as seconds since the epoch.
#[derive(Clone, Debug)]
pub struct CouponRaw {
    /// ID of the resource.
    pub id: u64,
    /// Unique ID of the resource, used as reference across the API.
    pub uniqid: String,
    /// The shop ID to which this coupon belongs.
    pub shop_id: u64,
    /// Coupon type, whether it's for a product or subscription.
    pub type_field: CouponType,
    /// Coupon code to be used during the checkout phase.
    pub code: String,
    /// If limited, an array of products must be specified as this coupon
    /// will be used only with them.
    pub use_type: CouponUseType,
    /// Discount value for this coupon.
    pub discount: u64,
    /// Deprecated.
    pub currency: Option<Currencies>,
    /// How many times this coupon has been used.
    pub used: u64,
    /// Whether or not this coupon is valid if a volume discount is applied.
    pub disabled_with_volume_discounts: bool,
    /// Whether or not this coupon should be applied for each subscription renewal.
    pub all_recurring_bill_invoices: bool,
    /// Maximum usage for this coupon.
    pub max_uses: i64,
    /// If set, the coupon will expire at that date, in seconds since the epoch.
    pub expire_at: Option<u64>,
    /// Array of product uniqids.
    pub products_bound: Option<Vec<String>>,
    /// How many products are present in the products_bound array.
    pub products_count: u64,
    /// Creation date of the coupon, in seconds since the epoch.
    pub created_at: u64,
    /// Date, available if the coupon has been edited.
    pub updated_at: u64,
    /// User ID, available if the coupon has been edited.
    pub updated_by: u64,
}

/// The one-record wrapper a get reply carries the coupon in.
#[derive(Clone, Debug)]
pub struct CouponOneRaw {
    pub coupon: CouponRaw,
}

/// The reply envelope of a coupon get.
pub type CouponGetResponseRaw = RawAPIResponse<CouponOneRaw>;

/// The array wrapper a list reply carries the coupons in.
#[derive(Clone, Debug)]
pub struct CouponArray {
    pub coupons: Vec<CouponRaw>,
}

/// The reply envelope of a coupon list.
pub type CouponListResponseRaw = RawAPIResponse<CouponArray>;

/// Represents the payload for creating (or updating) a coupon.
#[derive(Clone, Debug)]
pub struct CouponCreatePayload {
    /// Code of the coupon.
    pub code: String,
    /// Percentage amount of the discount.
    pub discount_value: u64,
    /// How many times can the coupon be used; unlimited when absent.
    pub max_uses: Option<i32>,
    /// Array of product uniqids the coupon will be bound to.
    pub products_bound: Option<Vec<String>>,
    pub discount_type: Option<DiscountType>,
    /// Deprecated.
    pub discount_order_type: Option<String>,
    /// Whether or not this coupon is valid if a volume discount is applied.
    pub disabled_with_volume_discounts: Option<bool>,
    /// Whether or not this coupon should be applied for each subscription renewal.
    pub all_recurring_bill_invoices: Option<bool>,
    /// Expiry date, in seconds since the epoch.
    pub expire_at: Option<u64>,
}

/// The reply envelope of a coupon create.
pub type CouponCreateResponseRaw = RawAPIResponse<UniqidDict>;

} // verus!

verus! {

impl CouponCreatePayload {
    /// Encodes this payload as the JSON object the create and update
    /// endpoints take: one field per documented key, with an absent
    /// optional sent as `null`.
    pub fn to_json(&self) -> (r: JsonValue)
        ensures
            r is Obj,
            spec_get(r, "code"@) matches Some(v) && v.spec_as_str() == Some(self.code@),
            spec_get(r, "discount_value"@) == Some(JsonValue::UInt(self.discount_value)),
            match self.max_uses {
                Some(x) => spec_get(r, "max_uses"@) == Some(JsonValue::Int(x as i64)),
                None => spec_get(r, "max_uses"@) == Some(JsonValue::Null),
            },
            match self.products_bound {
                Some(items) => spec_get(r, "products_bound"@) matches Some(v) && spec_is_string_array(v, items@),
                None => spec_get(r, "products_bound"@) == Some(JsonValue::Null),
            },
            match self.discount_type {
                Some(x) => spec_get(r, "discount_type"@) matches Some(v) && v.spec_as_str() == Some(x.spec_as_str()),
                None => spec_get(r, "discount_type"@) == Some(JsonValue::Null),
            },
            match self.discount_order_type {
                Some(x) => spec_get(r, "discount_order_type"@) matches Some(v) && v.spec_as_str() == Some(x@),
                None => spec_get(r, "discount_order_type"@) == Some(JsonValue::Null),
            },
            match self.disabled_with_volume_discounts {
                Some(b) => spec_get(r, "disabled_with_volume_discounts"@) == Some(JsonValue::Bool(b)),
                None => spec_get(r, "disabled_with_volume_discounts"@) == Some(JsonValue::Null),
            },
            match self.all_recurring_bill_invoices {
                Some(b) => spec_get(r, "all_recurring_bill_invoices"@) == Some(JsonValue::Bool(b)),
                None => spec_get(r, "all_recurring_bill_invoices"@) == Some(JsonValue::Null),
            },
            match self.expire_at {
                Some(x) => spec_get(r, "expire_at"@) == Some(JsonValue::UInt(x)),
                None => spec_get(r, "expire_at"@) == Some(JsonValue::Null),
            },
    {
        let mut fields: Vec<(String, JsonValue)> = Vec::new();
        fields.push(("code".to_owned(), JsonValue::Str(self.code.clone())));
        fields.push(("discount_value".to_owned(), JsonValue::UInt(self.discount_value)));
        let max_uses_value = match self.max_uses {
            Some(x) => JsonValue::Int(x as i64),
            None => JsonValue::Null,
        };
        fields.push(("max_uses".to_owned(), max_uses_value));
        let products_bound_value = match &self.products_bound {
            Some(items) => strings_to_json_array(items),
            None => JsonValue::Null,
        };
        fields.push(("products_bound".to_owned(), products_bound_value));
        let discount_type_value = match &self.discount_type {
            Some(x) => JsonValue::Str(x.as_str().to_owned()),
            None => JsonValue::Null,
        };
        fields.push(("discount_type".to_owned(), discount_type_value));
        let discount_order_type_value = match &self.discount_order_type {
            Some(x) => JsonValue::Str(x.clone()),
            None => JsonValue::Null,
        };
        fields.push(("discount_order_type".to_owned(), discount_order_type_value));
        let disabled_with_volume_discounts_value = match self.disabled_with_volume_discounts {
            Some(b) => JsonValue::Bool(b),
            None => JsonValue::Null,
        };
        fields.push(("disabled_with_volume_discounts".to_owned(), disabled_with_volume_discounts_value));
        let all_recurring_bill_invoices_value = match self.all_recurring_bill_invoices {
            Some(b) => JsonValue::Bool(b),
            None => JsonValue::Null,
        };
        fields.push(("all_recurring_bill_invoices".to_owned(), all_recurring_bill_invoices_value));
        let expire_at_value = match self.expire_at {
            Some(x) => JsonValue::UInt(x),
            None => JsonValue::Null,
        };
        fields.push(("expire_at".to_owned(), expire_at_value));
        let r = JsonValue::Obj(fields);
        proof {
            reveal_strlit("code");
            reveal_strlit("discount_value");
            reveal_strlit("max_uses");
            reveal_strlit("products_bound");
            reveal_strlit("discount_type");
            reveal_strlit("discount_order_type");
            reveal_strlit("disabled_with_volume_discounts");
            reveal_strlit("all_recurring_bill_invoices");
            reveal_strlit("expire_at");
            assert("code"@.len() == 4 && "code"@[0] == 'c' && "code"@[1] == 'o');
            assert("discount_value"@.len() == 14 && "discount_value"@[0] == 'd' && "discount_value"@[1] == 'i');
            assert("max_uses"@.len() == 8 && "max_uses"@[0] == 'm' && "max_uses"@[1] == 'a');
            assert("products_bound"@.len() == 14 && "products_bound"@[0] == 'p' && "products_bound"@[1] == 'r');
            assert("discount_type"@.len() == 13 && "discount_type"@[0] == 'd' && "discount_type"@[1] == 'i');
            assert("discount_order_type"@.len() == 19 && "discount_order_type"@[0] == 'd' && "discount_order_type"@[1] == 'i');
            assert("disabled_with_volume_discounts"@.len() == 30 && "disabled_with_volume_discounts"@[0] == 'd' && "disabled_with_volume_discounts"@[1] == 'i');
            assert("all_recurring_bill_invoices"@.len() == 27 && "all_recurring_bill_invoices"@[0] == 'a' && "all_recurring_bill_invoices"@[1] == 'l');
            assert("expire_at"@.len() == 9 && "expire_at"@[0] == 'e' && "expire_at"@[1] == 'x');
            lemma_obj_get_at(fields@, 0);
            lemma_obj_get_at(fields@, 1);
            lemma_obj_get_at(fields@, 2);
            lemma_obj_get_at(fields@, 3);
            lemma_obj_get_at(fields@, 4);
            lemma_obj_get_at(fields@, 5);
            lemma_obj_get_at(fields@, 6);
            lemma_obj_get_at(fields@, 7);
            lemma_obj_get_at(fields@, 8);
            assert(spec_get(r, "code"@) == Some(fields@[0].1));
            assert(spec_get(r, "discount_value"@) == Some(fields@[1].1));
            assert(spec_get(r, "max_uses"@) == Some(fields@[2].1));
            assert(spec_get(r, "products_bound"@) == Some(fields@[3].1));
            assert(spec_get(r, "discount_type"@) == Some(fields@[4].1));
            assert(spec_get(r, "discount_order_type"@) == Some(fields@[5].1));
            assert(spec_get(r, "disabled_with_volume_discounts"@) == Some(fields@[6].1));
            assert(spec_get(r, "all_recurring_bill_invoices"@) == Some(fields@[7].1));
            assert(spec_get(r, "expire_at"@) == Some(fields@[8].1));
        }
        r
    }
}

} // verus!
