//! The per-resource clients and the request planner.
//!
//! Each resource client carries the credentials and plans the CRUD
//! requests its resource offers: picking the path template, substituting
//! the identifier or page, and attaching the authorization and
//! merchant-scope header values. Sending the plan over the network is the
//! caller's part; interpreting the reply body is `envelope`'s.

use vstd::prelude::*;
use crate::json::JsonValue;
use crate::json::spec_get;
use crate::models::feedback::FeedbackReplyPayload;
use crate::request::HttpMethod;
use crate::request::Operation;
use crate::request::RequestType;
use crate::request::ResourceKind;
use crate::request::spec_substitution;
use crate::request::request_type_for;
use crate::request::spec_api_methods;
use crate::request::spec_request_type_for;

verus! {

/// The fixed origin every relative path is joined to.
pub const API_BASE: &'static str = "https://dev.sellix.io/v1";

/// Ensures that the API key exists within trait: every implementation
/// says, through its two views, that the getters return exactly the
/// stored credentials.
pub trait WithAPIKey {
    /// The stored API key, as this implementation views it.
    spec fn spec_api_key(&self) -> Seq<char>;

    /// The stored merchant scope, as this implementation views it.
    spec fn spec_merchant(&self) -> Option<Seq<char>>;

    fn api_key(&self) -> (r: String)
        ensures
            r@ == self.spec_api_key(),
    ;

    fn merchant(&self) -> (r: Option<String>)
        ensures
            spec_merchant_view(r) == self.spec_merchant(),
    ;
}

/// One planned request: everything the transport needs to perform the
/// exchange, with no network side of its own.
#[derive(Debug)]
pub struct RequestPlan {
    /// The HTTP verb.
    pub method: HttpMethod,
    /// The path relative to the API origin, placeholders substituted.
    pub path: String,
    /// The value of the `Authorization` header.
    pub authorization: String,
    /// The value of the `X-Sellix-Merchant` header; deliberately sent
    /// empty rather than omitted when no merchant scope was configured.
    pub merchant: String,
    /// The JSON body to send, if the operation carries one.
    pub body: Option<JsonValue>,
}

impl RequestPlan {
    /// Joins this plan's path to an origin, the mock server's or the real
    /// one's.
    pub fn url(&self, base: &str) -> (r: String)
        ensures
            r@ == base@ + self.path@,
    {
        let mut out = base.to_owned();
        out.append(self.path.as_str());
        out
    }
}

/// The value of the `Authorization` header for an API key.
pub open spec fn spec_bearer(api_key: Seq<char>) -> Seq<char> {
    "Bearer "@ + api_key
}

/// Renders the bearer authorization header value for an API key.
pub fn bearer(api_key: &str) -> (r: String)
    ensures
        r@ == spec_bearer(api_key@),
{
    let mut out = "Bearer ".to_owned();
    out.append(api_key);
    out
}

/// The merchant header value: the configured merchant, or empty when the
/// client is unscoped.
pub open spec fn spec_merchant_text(merchant: Option<Seq<char>>) -> Seq<char> {
    match merchant {
        Some(m) => m,
        None => Seq::<char>::empty(),
    }
}

/// The merchant scope as a view, for speaking of a client's credentials.
pub open spec fn spec_merchant_view(merchant: Option<String>) -> Option<Seq<char>> {
    match merchant {
        Some(m) => Some(m@),
        None => None,
    }
}

/// Plans one operation on one resource kind: picks the template out of
/// the request table, substitutes the identifier or the page, and attaches
/// the credential headers. Yields a plan exactly when the resource's
/// configuration offers the operation, so no method beyond the configured
/// ones can be dispatched.
pub fn plan_request(
    kind: ResourceKind,
    op: Operation,
    api_key: &str,
    merchant: &Option<String>,
    uniqid: &str,
    page: Option<u64>,
    body: Option<JsonValue>,
) -> (r: Option<RequestPlan>)
    ensures
        r is Some <==> spec_api_methods(kind).spec_allows(op),
        r matches Some(plan) ==> {
            &&& spec_request_type_for(kind, op) matches Some(rt) && plan.method
                == rt.spec_method() && plan.path@ == rt.spec_prefix() + spec_substitution(
                rt.spec_param(),
                uniqid@,
                page,
            )
            &&& plan.authorization@ == spec_bearer(api_key@)
            &&& plan.merchant@ == spec_merchant_text(spec_merchant_view(*merchant))
            &&& plan.body == body
        },
{
    let rt = match request_type_for(kind, op) {
        Some(rt) => rt,
        None => {
            return None;
        },
    };
    Some(plan_request_type(rt, api_key, merchant, uniqid, page, body))
}

/// Plans the request `rt` stands for, whatever resource and operation it
/// serves; `Feedback::reply` goes through here with its own request type.
pub fn plan_request_type(
    rt: RequestType,
    api_key: &str,
    merchant: &Option<String>,
    uniqid: &str,
    page: Option<u64>,
    body: Option<JsonValue>,
) -> (plan: RequestPlan)
    ensures
        plan.method == rt.spec_method(),
        plan.path@ == rt.spec_prefix() + spec_substitution(rt.spec_param(), uniqid@, page),
        plan.authorization@ == spec_bearer(api_key@),
        plan.merchant@ == spec_merchant_text(spec_merchant_view(*merchant)),
        plan.body == body,
{
    let (method, template) = rt.request_details();
    let path = template.render(uniqid, page);
    let merchant_text = match merchant {
        Some(m) => m.clone(),
        None => String::new(),
    };
    RequestPlan { method, path, authorization: bearer(api_key), merchant: merchant_text, body }
}

} // verus!

verus! {

/// The merchant argument as a view.
pub open spec fn spec_opt_str_view(merchant: Option<&str>) -> Option<Seq<char>> {
    match merchant {
        Some(m) => Some(m@),
        None => None,
    }
}

/// Clones an optional merchant argument into an owned scope.
fn owned_merchant(merchant: Option<&str>) -> (r: Option<String>)
    ensures
        spec_merchant_view(r) == spec_opt_str_view(merchant),
{
    match merchant {
        Some(m) => Some(m.to_owned()),
        None => None,
    }
}

/// Disallow certain people from accessing your shop.
#[derive(Clone, Debug)]
pub struct Blacklist {
    pub api_key: String,
    pub merchant: Option<String>,
}

impl WithAPIKey for Blacklist {
    open spec fn spec_api_key(&self) -> Seq<char> {
        self.api_key@
    }

    open spec fn spec_merchant(&self) -> Option<Seq<char>> {
        spec_merchant_view(self.merchant)
    }

    fn api_key(&self) -> (r: String) {
        self.api_key.clone()
    }

    fn merchant(&self) -> (r: Option<String>) {
        match &self.merchant {
            Some(m) => Some(m.clone()),
            None => None,
        }
    }
}

impl Blacklist {
    /// Creates a new instance client.
    pub fn client(api_key: &str, merchant: Option<&str>) -> (r: Self)
        ensures
            r.api_key@ == api_key@,
            spec_merchant_view(r.merchant) == spec_opt_str_view(merchant),
    {
        Self { api_key: api_key.to_owned(), merchant: owned_merchant(merchant) }
    }

    /// The resource kind this client serves.
    pub fn kind(&self) -> (r: ResourceKind)
        ensures
            r == ResourceKind::Blacklist,
    {
        ResourceKind::Blacklist
    }

    /// Plans `op` on this resource under this client's credentials: a plan
    /// comes back exactly when the resource's configuration offers the
    /// operation.
    pub fn plan(&self, op: Operation, uniqid: &str, page: Option<u64>, body: Option<JsonValue>)
        -> (r: Option<RequestPlan>)
        ensures
            r is Some <==> spec_api_methods(ResourceKind::Blacklist).spec_allows(op),
            r matches Some(plan) ==> {
                &&& spec_request_type_for(ResourceKind::Blacklist, op) matches Some(rt)
                    && plan.method == rt.spec_method() && plan.path@ == rt.spec_prefix()
                    + spec_substitution(rt.spec_param(), uniqid@, page)
                &&& plan.authorization@ == spec_bearer(self.api_key@)
                &&& plan.merchant@ == spec_merchant_text(spec_merchant_view(self.merchant))
                &&& plan.body == body
            },
    {
        plan_request(ResourceKind::Blacklist, op, self.api_key.as_str(), &self.merchant, uniqid, page, body)
    }
}

/// Allow certain people to access your shop.
#[derive(Clone, Debug)]
pub struct Whitelist {
    pub api_key: String,
    pub merchant: Option<String>,
}

impl WithAPIKey for Whitelist {
    open spec fn spec_api_key(&self) -> Seq<char> {
        self.api_key@
    }

    open spec fn spec_merchant(&self) -> Option<Seq<char>> {
        spec_merchant_view(self.merchant)
    }

    fn api_key(&self) -> (r: String) {
        self.api_key.clone()
    }

    fn merchant(&self) -> (r: Option<String>) {
        match &self.merchant {
            Some(m) => Some(m.clone()),
            None => None,
        }
    }
}

impl Whitelist {
    /// Creates a new instance client.
    pub fn client(api_key: &str, merchant: Option<&str>) -> (r: Self)
        ensures
            r.api_key@ == api_key@,
            spec_merchant_view(r.merchant) == spec_opt_str_view(merchant),
    {
        Self { api_key: api_key.to_owned(), merchant: owned_merchant(merchant) }
    }

    /// The resource kind this client serves.
    pub fn kind(&self) -> (r: ResourceKind)
        ensures
            r == ResourceKind::Whitelist,
    {
        ResourceKind::Whitelist
    }

    /// Plans `op` on this resource under this client's credentials: a plan
    /// comes back exactly when the resource's configuration offers the
    /// operation.
    pub fn plan(&self, op: Operation, uniqid: &str, page: Option<u64>, body: Option<JsonValue>)
        -> (r: Option<RequestPlan>)
        ensures
            r is Some <==> spec_api_methods(ResourceKind::Whitelist).spec_allows(op),
            r matches Some(plan) ==> {
                &&& spec_request_type_for(ResourceKind::Whitelist, op) matches Some(rt)
                    && plan.method == rt.spec_method() && plan.path@ == rt.spec_prefix()
                    + spec_substitution(rt.spec_param(), uniqid@, page)
                &&& plan.authorization@ == spec_bearer(self.api_key@)
                &&& plan.merchant@ == spec_merchant_text(spec_merchant_view(self.merchant))
                &&& plan.body == body
            },
    {
        plan_request(ResourceKind::Whitelist, op, self.api_key.as_str(), &self.merchant, uniqid, page, body)
    }
}

/// Categories.
#[derive(Clone, Debug)]
pub struct Category {
    pub api_key: String,
    pub merchant: Option<String>,
}

impl WithAPIKey for Category {
    open spec fn spec_api_key(&self) -> Seq<char> {
        self.api_key@
    }

    open spec fn spec_merchant(&self) -> Option<Seq<char>> {
        spec_merchant_view(self.merchant)
    }

    fn api_key(&self) -> (r: String) {
        self.api_key.clone()
    }

    fn merchant(&self) -> (r: Option<String>) {
        match &self.merchant {
            Some(m) => Some(m.clone()),
            None => None,
        }
    }
}

impl Category {
    /// Creates a new instance client.
    pub fn client(api_key: &str, merchant: Option<&str>) -> (r: Self)
        ensures
            r.api_key@ == api_key@,
            spec_merchant_view(r.merchant) == spec_opt_str_view(merchant),
    {
        Self { api_key: api_key.to_owned(), merchant: owned_merchant(merchant) }
    }

    /// The resource kind this client serves.
    pub fn kind(&self) -> (r: ResourceKind)
        ensures
            r == ResourceKind::Category,
    {
        ResourceKind::Category
    }

    /// Plans `op` on this resource under this client's credentials: a plan
    /// comes back exactly when the resource's configuration offers the
    /// operation.
    pub fn plan(&self, op: Operation, uniqid: &str, page: Option<u64>, body: Option<JsonValue>)
        -> (r: Option<RequestPlan>)
        ensures
            r is Some <==> spec_api_methods(ResourceKind::Category).spec_allows(op),
            r matches Some(plan) ==> {
                &&& spec_request_type_for(ResourceKind::Category, op) matches Some(rt)
                    && plan.method == rt.spec_method() && plan.path@ == rt.spec_prefix()
                    + spec_substitution(rt.spec_param(), uniqid@, page)
                &&& plan.authorization@ == spec_bearer(self.api_key@)
                &&& plan.merchant@ == spec_merchant_text(spec_merchant_view(self.merchant))
                &&& plan.body == body
            },
    {
        plan_request(ResourceKind::Category, op, self.api_key.as_str(), &self.merchant, uniqid, page, body)
    }
}

/// Provide a discount to your products.
#[derive(Clone, Debug)]
pub struct Coupon {
    pub api_key: String,
    pub merchant: Option<String>,
}

impl WithAPIKey for Coupon {
    open spec fn spec_api_key(&self) -> Seq<char> {
        self.api_key@
    }

    open spec fn spec_merchant(&self) -> Option<Seq<char>> {
        spec_merchant_view(self.merchant)
    }

    fn api_key(&self) -> (r: String) {
        self.api_key.clone()
    }

    fn merchant(&self) -> (r: Option<String>) {
        match &self.merchant {
            Some(m) => Some(m.clone()),
            None => None,
        }
    }
}

impl Coupon {
    /// Creates a new instance client.
    pub fn client(api_key: &str, merchant: Option<&str>) -> (r: Self)
        ensures
            r.api_key@ == api_key@,
            spec_merchant_view(r.merchant) == spec_opt_str_view(merchant),
    {
        Self { api_key: api_key.to_owned(), merchant: owned_merchant(merchant) }
    }

    /// The resource kind this client serves.
    pub fn kind(&self) -> (r: ResourceKind)
        ensures
            r == ResourceKind::Coupon,
    {
        ResourceKind::Coupon
    }

    /// Plans `op` on this resource under this client's credentials: a plan
    /// comes back exactly when the resource's configuration offers the
    /// operation.
    pub fn plan(&self, op: Operation, uniqid: &str, page: Option<u64>, body: Option<JsonValue>)
        -> (r: Option<RequestPlan>)
        ensures
            r is Some <==> spec_api_methods(ResourceKind::Coupon).spec_allows(op),
            r matches Some(plan) ==> {
                &&& spec_request_type_for(ResourceKind::Coupon, op) matches Some(rt)
                    && plan.method == rt.spec_method() && plan.path@ == rt.spec_prefix()
                    + spec_substitution(rt.spec_param(), uniqid@, page)
                &&& plan.authorization@ == spec_bearer(self.api_key@)
                &&& plan.merchant@ == spec_merchant_text(spec_merchant_view(self.merchant))
                &&& plan.body == body
            },
    {
        plan_request(ResourceKind::Coupon, op, self.api_key.as_str(), &self.merchant, uniqid, page, body)
    }
}

/// Manage feedback.
#[derive(Clone, Debug)]
pub struct Feedback {
    pub api_key: String,
    pub merchant: Option<String>,
}

impl WithAPIKey for Feedback {
    open spec fn spec_api_key(&self) -> Seq<char> {
        self.api_key@
    }

    open spec fn spec_merchant(&self) -> Option<Seq<char>> {
        spec_merchant_view(self.merchant)
    }

    fn api_key(&self) -> (r: String) {
        self.api_key.clone()
    }

    fn merchant(&self) -> (r: Option<String>) {
        match &self.merchant {
            Some(m) => Some(m.clone()),
            None => None,
        }
    }
}

impl Feedback {
    /// Creates a new instance client.
    pub fn client(api_key: &str, merchant: Option<&str>) -> (r: Self)
        ensures
            r.api_key@ == api_key@,
            spec_merchant_view(r.merchant) == spec_opt_str_view(merchant),
    {
        Self { api_key: api_key.to_owned(), merchant: owned_merchant(merchant) }
    }

    /// The resource kind this client serves.
    pub fn kind(&self) -> (r: ResourceKind)
        ensures
            r == ResourceKind::Feedback,
    {
        ResourceKind::Feedback
    }

    /// Plans `op` on this resource under this client's credentials: a plan
    /// comes back exactly when the resource's configuration offers the
    /// operation.
    pub fn plan(&self, op: Operation, uniqid: &str, page: Option<u64>, body: Option<JsonValue>)
        -> (r: Option<RequestPlan>)
        ensures
            r is Some <==> spec_api_methods(ResourceKind::Feedback).spec_allows(op),
            r matches Some(plan) ==> {
                &&& spec_request_type_for(ResourceKind::Feedback, op) matches Some(rt)
                    && plan.method == rt.spec_method() && plan.path@ == rt.spec_prefix()
                    + spec_substitution(rt.spec_param(), uniqid@, page)
                &&& plan.authorization@ == spec_bearer(self.api_key@)
                &&& plan.merchant@ == spec_merchant_text(spec_merchant_view(self.merchant))
                &&& plan.body == body
            },
    {
        plan_request(ResourceKind::Feedback, op, self.api_key.as_str(), &self.merchant, uniqid, page, body)
    }
}

/// Orders.
#[derive(Clone, Debug)]
pub struct Order {
    pub api_key: String,
    pub merchant: Option<String>,
}

impl WithAPIKey for Order {
    open spec fn spec_api_key(&self) -> Seq<char> {
        self.api_key@
    }

    open spec fn spec_merchant(&self) -> Option<Seq<char>> {
        spec_merchant_view(self.merchant)
    }

    fn api_key(&self) -> (r: String) {
        self.api_key.clone()
    }

    fn merchant(&self) -> (r: Option<String>) {
        match &self.merchant {
            Some(m) => Some(m.clone()),
            None => None,
        }
    }
}

impl Order {
    /// Creates a new instance client.
    pub fn client(api_key: &str, merchant: Option<&str>) -> (r: Self)
        ensures
            r.api_key@ == api_key@,
            spec_merchant_view(r.merchant) == spec_opt_str_view(merchant),
    {
        Self { api_key: api_key.to_owned(), merchant: owned_merchant(merchant) }
    }

    /// The resource kind this client serves.
    pub fn kind(&self) -> (r: ResourceKind)
        ensures
            r == ResourceKind::Order,
    {
        ResourceKind::Order
    }

    /// Plans `op` on this resource under this client's credentials: a plan
    /// comes back exactly when the resource's configuration offers the
    /// operation.
    pub fn plan(&self, op: Operation, uniqid: &str, page: Option<u64>, body: Option<JsonValue>)
        -> (r: Option<RequestPlan>)
        ensures
            r is Some <==> spec_api_methods(ResourceKind::Order).spec_allows(op),
            r matches Some(plan) ==> {
                &&& spec_request_type_for(ResourceKind::Order, op) matches Some(rt)
                    && plan.method == rt.spec_method() && plan.path@ == rt.spec_prefix()
                    + spec_substitution(rt.spec_param(), uniqid@, page)
                &&& plan.authorization@ == spec_bearer(self.api_key@)
                &&& plan.merchant@ == spec_merchant_text(spec_merchant_view(self.merchant))
                &&& plan.body == body
            },
    {
        plan_request(ResourceKind::Order, op, self.api_key.as_str(), &self.merchant, uniqid, page, body)
    }
}

/// Groups.
#[derive(Clone, Debug)]
pub struct Group {
    pub api_key: String,
    pub merchant: Option<String>,
}

impl WithAPIKey for Group {
    open spec fn spec_api_key(&self) -> Seq<char> {
        self.api_key@
    }

    open spec fn spec_merchant(&self) -> Option<Seq<char>> {
        spec_merchant_view(self.merchant)
    }

    fn api_key(&self) -> (r: String) {
        self.api_key.clone()
    }

    fn merchant(&self) -> (r: Option<String>) {
        match &self.merchant {
            Some(m) => Some(m.clone()),
            None => None,
        }
    }
}

impl Group {
    /// Creates a new instance client.
    pub fn client(api_key: &str, merchant: Option<&str>) -> (r: Self)
        ensures
            r.api_key@ == api_key@,
            spec_merchant_view(r.merchant) == spec_opt_str_view(merchant),
    {
        Self { api_key: api_key.to_owned(), merchant: owned_merchant(merchant) }
    }

    /// The resource kind this client serves.
    pub fn kind(&self) -> (r: ResourceKind)
        ensures
            r == ResourceKind::Group,
    {
        ResourceKind::Group
    }

    /// Plans `op` on this resource under this client's credentials: a plan
    /// comes back exactly when the resource's configuration offers the
    /// operation.
    pub fn plan(&self, op: Operation, uniqid: &str, page: Option<u64>, body: Option<JsonValue>)
        -> (r: Option<RequestPlan>)
        ensures
            r is Some <==> spec_api_methods(ResourceKind::Group).spec_allows(op),
            r matches Some(plan) ==> {
                &&& spec_request_type_for(ResourceKind::Group, op) matches Some(rt)
                    && plan.method == rt.spec_method() && plan.path@ == rt.spec_prefix()
                    + spec_substitution(rt.spec_param(), uniqid@, page)
                &&& plan.authorization@ == spec_bearer(self.api_key@)
                &&& plan.merchant@ == spec_merchant_text(spec_merchant_view(self.merchant))
                &&& plan.body == body
            },
    {
        plan_request(ResourceKind::Group, op, self.api_key.as_str(), &self.merchant, uniqid, page, body)
    }
}

/// Customers.
#[derive(Clone, Debug)]
pub struct Customer {
    pub api_key: String,
    pub merchant: Option<String>,
}

impl WithAPIKey for Customer {
    open spec fn spec_api_key(&self) -> Seq<char> {
        self.api_key@
    }

    open spec fn spec_merchant(&self) -> Option<Seq<char>> {
        spec_merchant_view(self.merchant)
    }

    fn api_key(&self) -> (r: String) {
        self.api_key.clone()
    }

    fn merchant(&self) -> (r: Option<String>) {
        match &self.merchant {
            Some(m) => Some(m.clone()),
            None => None,
        }
    }
}

impl Customer {
    /// Creates a new instance client.
    pub fn client(api_key: &str, merchant: Option<&str>) -> (r: Self)
        ensures
            r.api_key@ == api_key@,
            spec_merchant_view(r.merchant) == spec_opt_str_view(merchant),
    {
        Self { api_key: api_key.to_owned(), merchant: owned_merchant(merchant) }
    }

    /// The resource kind this client serves.
    pub fn kind(&self) -> (r: ResourceKind)
        ensures
            r == ResourceKind::Customer,
    {
        ResourceKind::Customer
    }

    /// Plans `op` on this resource under this client's credentials: a plan
    /// comes back exactly when the resource's configuration offers the
    /// operation.
    pub fn plan(&self, op: Operation, uniqid: &str, page: Option<u64>, body: Option<JsonValue>)
        -> (r: Option<RequestPlan>)
        ensures
            r is Some <==> spec_api_methods(ResourceKind::Customer).spec_allows(op),
            r matches Some(plan) ==> {
                &&& spec_request_type_for(ResourceKind::Customer, op) matches Some(rt)
                    && plan.method == rt.spec_method() && plan.path@ == rt.spec_prefix()
                    + spec_substitution(rt.spec_param(), uniqid@, page)
                &&& plan.authorization@ == spec_bearer(self.api_key@)
                &&& plan.merchant@ == spec_merchant_text(spec_merchant_view(self.merchant))
                &&& plan.body == body
            },
    {
        plan_request(ResourceKind::Customer, op, self.api_key.as_str(), &self.merchant, uniqid, page, body)
    }
}

/// Queries.
#[derive(Clone, Debug)]
pub struct Query {
    pub api_key: String,
    pub merchant: Option<String>,
}

impl WithAPIKey for Query {
    open spec fn spec_api_key(&self) -> Seq<char> {
        self.api_key@
    }

    open spec fn spec_merchant(&self) -> Option<Seq<char>> {
        spec_merchant_view(self.merchant)
    }

    fn api_key(&self) -> (r: String) {
        self.api_key.clone()
    }

    fn merchant(&self) -> (r: Option<String>) {
        match &self.merchant {
            Some(m) => Some(m.clone()),
            None => None,
        }
    }
}

impl Query {
    /// Creates a new instance client.
    pub fn client(api_key: &str, merchant: Option<&str>) -> (r: Self)
        ensures
            r.api_key@ == api_key@,
            spec_merchant_view(r.merchant) == spec_opt_str_view(merchant),
    {
        Self { api_key: api_key.to_owned(), merchant: owned_merchant(merchant) }
    }

    /// The resource kind this client serves.
    pub fn kind(&self) -> (r: ResourceKind)
        ensures
            r == ResourceKind::Query,
    {
        ResourceKind::Query
    }

    /// Plans `op` on this resource under this client's credentials: a plan
    /// comes back exactly when the resource's configuration offers the
    /// operation.
    pub fn plan(&self, op: Operation, uniqid: &str, page: Option<u64>, body: Option<JsonValue>)
        -> (r: Option<RequestPlan>)
        ensures
            r is Some <==> spec_api_methods(ResourceKind::Query).spec_allows(op),
            r matches Some(plan) ==> {
                &&& spec_request_type_for(ResourceKind::Query, op) matches Some(rt)
                    && plan.method == rt.spec_method() && plan.path@ == rt.spec_prefix()
                    + spec_substitution(rt.spec_param(), uniqid@, page)
                &&& plan.authorization@ == spec_bearer(self.api_key@)
                &&& plan.merchant@ == spec_merchant_text(spec_merchant_view(self.merchant))
                &&& plan.body == body
            },
    {
        plan_request(ResourceKind::Query, op, self.api_key.as_str(), &self.merchant, uniqid, page, body)
    }
}

/// Subscriptions.
#[derive(Clone, Debug)]
pub struct Subscription {
    pub api_key: String,
    pub merchant: Option<String>,
}

impl WithAPIKey for Subscription {
    open spec fn spec_api_key(&self) -> Seq<char> {
        self.api_key@
    }

    open spec fn spec_merchant(&self) -> Option<Seq<char>> {
        spec_merchant_view(self.merchant)
    }

    fn api_key(&self) -> (r: String) {
        self.api_key.clone()
    }

    fn merchant(&self) -> (r: Option<String>) {
        match &self.merchant {
            Some(m) => Some(m.clone()),
            None => None,
        }
    }
}

impl Subscription {
    /// Creates a new instance client.
    pub fn client(api_key: &str, merchant: Option<&str>) -> (r: Self)
        ensures
            r.api_key@ == api_key@,
            spec_merchant_view(r.merchant) == spec_opt_str_view(merchant),
    {
        Self { api_key: api_key.to_owned(), merchant: owned_merchant(merchant) }
    }

    /// The resource kind this client serves.
    pub fn kind(&self) -> (r: ResourceKind)
        ensures
            r == ResourceKind::Subscription,
    {
        ResourceKind::Subscription
    }

    /// Plans `op` on this resource under this client's credentials: a plan
    /// comes back exactly when the resource's configuration offers the
    /// operation.
    pub fn plan(&self, op: Operation, uniqid: &str, page: Option<u64>, body: Option<JsonValue>)
        -> (r: Option<RequestPlan>)
        ensures
            r is Some <==> spec_api_methods(ResourceKind::Subscription).spec_allows(op),
            r matches Some(plan) ==> {
                &&& spec_request_type_for(ResourceKind::Subscription, op) matches Some(rt)
                    && plan.method == rt.spec_method() && plan.path@ == rt.spec_prefix()
                    + spec_substitution(rt.spec_param(), uniqid@, page)
                &&& plan.authorization@ == spec_bearer(self.api_key@)
                &&& plan.merchant@ == spec_merchant_text(spec_merchant_view(self.merchant))
                &&& plan.body == body
            },
    {
        plan_request(ResourceKind::Subscription, op, self.api_key.as_str(), &self.merchant, uniqid, page, body)
    }
}

} // verus!

verus! {

impl Feedback {
    /// Plans a reply to a feedback: the reply endpoint's own request,
    /// beyond the standard five operations, with the reply text as body.
    pub fn reply_plan(&self, uniqid: &str, reply: &str) -> (plan: RequestPlan)
        ensures
            plan.method == RequestType::FeedbackReply.spec_method(),
            plan.path@ == RequestType::FeedbackReply.spec_prefix() + uniqid@,
            plan.authorization@ == spec_bearer(self.api_key@),
            plan.merchant@ == spec_merchant_text(spec_merchant_view(self.merchant)),
            plan.body matches Some(b) && spec_get(b, "reply"@) matches Some(v) && v.spec_as_str()
                == Some(reply@),
    {
        let payload = FeedbackReplyPayload { reply: reply.to_owned() };
        plan_request_type(
            RequestType::FeedbackReply,
            self.api_key.as_str(),
            &self.merchant,
            uniqid,
            None,
            Some(payload.to_json()),
        )
    }
}

} // verus!
