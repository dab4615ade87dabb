//! The aggregate client: one instance of each per-resource client, all
//! under the same credentials.

use vstd::prelude::*;
use crate::api::Blacklist;
use crate::api::Category;
use crate::api::Coupon;
use crate::api::Customer;
use crate::api::Feedback;
use crate::api::Group;
use crate::api::Order;
use crate::api::Query;
use crate::api::Subscription;
use crate::api::Whitelist;
use crate::api::spec_merchant_view;
use crate::api::spec_opt_str_view;

verus! {

/// Contains each "sub-API" within one struct.
#[derive(Clone, Debug)]
pub struct Client {
    pub blacklist: Blacklist,
    pub whitelist: Whitelist,
    pub category: Category,
    pub coupon: Coupon,
    pub feedback: Feedback,
    pub order: Order,
    pub group: Group,
    pub customer: Customer,
    pub subscription: Subscription,
    pub query: Query,
}

impl Client {
    /// Create an instance of the struct: every sub-client under the same
    /// API key and merchant scope.
    pub fn new(api_key: &str, merchant: Option<&str>) -> (r: Self)
        ensures
            r.blacklist.api_key@ == api_key@,
            r.whitelist.api_key@ == api_key@,
            r.category.api_key@ == api_key@,
            r.coupon.api_key@ == api_key@,
            r.feedback.api_key@ == api_key@,
            r.order.api_key@ == api_key@,
            r.group.api_key@ == api_key@,
            r.customer.api_key@ == api_key@,
            r.subscription.api_key@ == api_key@,
            r.query.api_key@ == api_key@,
            spec_merchant_view(r.blacklist.merchant) == spec_opt_str_view(merchant),
            spec_merchant_view(r.whitelist.merchant) == spec_opt_str_view(merchant),
            spec_merchant_view(r.category.merchant) == spec_opt_str_view(merchant),
            spec_merchant_view(r.coupon.merchant) == spec_opt_str_view(merchant),
            spec_merchant_view(r.feedback.merchant) == spec_opt_str_view(merchant),
            spec_merchant_view(r.order.merchant) == spec_opt_str_view(merchant),
            spec_merchant_view(r.group.merchant) == spec_opt_str_view(merchant),
            spec_merchant_view(r.customer.merchant) == spec_opt_str_view(merchant),
            spec_merchant_view(r.subscription.merchant) == spec_opt_str_view(merchant),
            spec_merchant_view(r.query.merchant) == spec_opt_str_view(merchant),
    {
        Self {
            blacklist: Blacklist::client(api_key, merchant),
            whitelist: Whitelist::client(api_key, merchant),
            category: Category::client(api_key, merchant),
            coupon: Coupon::client(api_key, merchant),
            feedback: Feedback::client(api_key, merchant),
            order: Order::client(api_key, merchant),
            group: Group::client(api_key, merchant),
            customer: Customer::client(api_key, merchant),
            subscription: Subscription::client(api_key, merchant),
            query: Query::client(api_key, merchant),
        }
    }
}

} // verus!
