//! The request table: which HTTP verb and path pattern serves each
//! operation on each resource, which operations a resource offers at all,
//! and how a pattern's placeholder is substituted per call.

use vstd::prelude::*;
use crate::json::spec_digit_char;
use crate::json::spec_u64_digits;
use crate::json::u64_to_string;

verus! {

/// The HTTP verbs the API uses.
#[derive(Clone, Copy, Debug, PartialEq, Eq, Structural)]
pub enum HttpMethod {
    Get,
    Post,
    Put,
    Delete,
}

impl HttpMethod {
    /// The verb's name on the wire.
    pub open spec fn spec_as_str(self) -> Seq<char> {
        match self {
            HttpMethod::Get => "GET"@,
            HttpMethod::Post => "POST"@,
            HttpMethod::Put => "PUT"@,
            HttpMethod::Delete => "DELETE"@,
        }
    }

    /// Returns the verb's name on the wire.
    pub fn as_str(&self) -> (r: &str)
        ensures
            r@ == self.spec_as_str(),
    {
        match self {
            HttpMethod::Get => "GET",
            HttpMethod::Post => "POST",
            HttpMethod::Put => "PUT",
            HttpMethod::Delete => "DELETE",
        }
    }
}

/// The placeholder a path pattern may end with.
#[derive(Clone, Copy, Debug, PartialEq, Eq, Structural)]
pub enum PathParam {
    /// The unique identifier of one resource instance.
    Uniqid,
    /// The page of a listing.
    Page,
}

/// Whether `s` is free of the placeholder marker: a rendered path must
/// hold none.
pub open spec fn marker_free(s: Seq<char>) -> bool
    decreases s.len(),
{
    if s.len() == 0 {
        true
    } else {
        s[0] != '{' && marker_free(s.drop_first())
    }
}

/// What a placeholder is replaced with: the identifier, the page in
/// decimal (an absent page renders as nothing, which the server reads as
/// the first page), or nothing when the pattern has no placeholder.
pub open spec fn spec_substitution(
    param: Option<PathParam>,
    uniqid: Seq<char>,
    page: Option<u64>,
) -> Seq<char> {
    match param {
        None => Seq::<char>::empty(),
        Some(PathParam::Uniqid) => uniqid,
        Some(PathParam::Page) => match page {
            None => Seq::<char>::empty(),
            Some(p) => spec_u64_digits(p),
        },
    }
}

/// A path pattern: a literal prefix, then at most one placeholder at the
/// end. Every pattern the API uses has this shape.
#[derive(Clone, Copy, Debug)]
pub struct PathTemplate {
    /// The literal part of the pattern.
    pub prefix: &'static str,
    /// The placeholder substituted per call, if the pattern has one.
    pub param: Option<PathParam>,
}

impl PathTemplate {
    /// A template is well formed when its literal part holds no
    /// placeholder marker.
    pub open spec fn wf(self) -> bool {
        marker_free(self.prefix@)
    }

    /// What this template's placeholder is replaced with.
    pub open spec fn spec_substitution(
        self,
        uniqid: Seq<char>,
        page: Option<u64>,
    ) -> Seq<char> {
        spec_substitution(self.param, uniqid, page)
    }

    /// Substitutes the placeholder and returns the rendered path.
    pub fn render(&self, uniqid: &str, page: Option<u64>) -> (r: String)
        ensures
            r@ == self.prefix@ + self.spec_substitution(uniqid@, page),
    {
        let mut out = self.prefix.to_owned();
        match self.param {
            None => {
                proof {
                    assert(out@ + Seq::<char>::empty() =~= out@);
                }
            },
            Some(PathParam::Uniqid) => {
                out.append(uniqid);
            },
            Some(PathParam::Page) => {
                match page {
                    None => {
                        proof {
                            assert(out@ + Seq::<char>::empty() =~= out@);
                        }
                    },
                    Some(p) => {
                        let digits = u64_to_string(p);
                        out.append(digits.as_str());
                    },
                }
            },
        }
        out
    }
}

} // verus!

verus! {

/// All of the possible requests you can make to the API.
#[derive(Clone, Copy, Debug, PartialEq, Eq, Structural)]
pub enum RequestType {
    BlacklistGet,
    BlacklistList,
    BlacklistCreate,
    BlacklistUpdate,
    BlacklistDestroy,
    WhitelistGet,
    WhitelistList,
    WhitelistCreate,
    WhitelistUpdate,
    WhitelistDestroy,
    CategoryGet,
    CategoryList,
    CategoryCreate,
    CategoryUpdate,
    CategoryDestroy,
    CouponGet,
    CouponList,
    CouponCreate,
    CouponUpdate,
    CouponDestroy,
    FeedbackGet,
    FeedbackList,
    FeedbackReply,
    OrderGet,
    OrderList,
    OrderCreate,
    OrderUpdate,
    OrderDestroy,
    GroupGet,
    GroupList,
    GroupCreate,
    GroupUpdate,
    GroupDestroy,
    CustomerGet,
    CustomerList,
    CustomerCreate,
    CustomerUpdate,
    CustomerDestroy,
    QueryGet,
    QueryList,
    QueryCreate,
    QueryUpdate,
    QueryDestroy,
    SubscriptionGet,
    SubscriptionList,
    SubscriptionCreate,
    SubscriptionDestroy,
}

impl RequestType {
    /// The HTTP verb of this request.
    pub open spec fn spec_method(self) -> HttpMethod {
        match self {
            RequestType::BlacklistGet => HttpMethod::Get,
            RequestType::BlacklistList => HttpMethod::Get,
            RequestType::BlacklistCreate => HttpMethod::Post,
            RequestType::BlacklistUpdate => HttpMethod::Put,
            RequestType::BlacklistDestroy => HttpMethod::Delete,
            RequestType::WhitelistGet => HttpMethod::Get,
            RequestType::WhitelistList => HttpMethod::Get,
            RequestType::WhitelistCreate => HttpMethod::Post,
            RequestType::WhitelistUpdate => HttpMethod::Put,
            RequestType::WhitelistDestroy => HttpMethod::Delete,
            RequestType::CategoryGet => HttpMethod::Get,
            RequestType::CategoryList => HttpMethod::Get,
            RequestType::CategoryCreate => HttpMethod::Post,
            RequestType::CategoryUpdate => HttpMethod::Put,
            RequestType::CategoryDestroy => HttpMethod::Delete,
            RequestType::CouponGet => HttpMethod::Get,
            RequestType::CouponList => HttpMethod::Get,
            RequestType::CouponCreate => HttpMethod::Post,
            RequestType::CouponUpdate => HttpMethod::Put,
            RequestType::CouponDestroy => HttpMethod::Delete,
            RequestType::FeedbackGet => HttpMethod::Get,
            RequestType::FeedbackList => HttpMethod::Get,
            RequestType::FeedbackReply => HttpMethod::Post,
            RequestType::OrderGet => HttpMethod::Get,
            RequestType::OrderList => HttpMethod::Get,
            RequestType::OrderCreate => HttpMethod::Post,
            RequestType::OrderUpdate => HttpMethod::Put,
            RequestType::OrderDestroy => HttpMethod::Delete,
            RequestType::GroupGet => HttpMethod::Get,
            RequestType::GroupList => HttpMethod::Get,
            RequestType::GroupCreate => HttpMethod::Post,
            RequestType::GroupUpdate => HttpMethod::Put,
            RequestType::GroupDestroy => HttpMethod::Delete,
            RequestType::CustomerGet => HttpMethod::Get,
            RequestType::CustomerList => HttpMethod::Get,
            RequestType::CustomerCreate => HttpMethod::Post,
            RequestType::CustomerUpdate => HttpMethod::Put,
            RequestType::CustomerDestroy => HttpMethod::Delete,
            RequestType::QueryGet => HttpMethod::Get,
            RequestType::QueryList => HttpMethod::Get,
            RequestType::QueryCreate => HttpMethod::Post,
            RequestType::QueryUpdate => HttpMethod::Put,
            RequestType::QueryDestroy => HttpMethod::Delete,
            RequestType::SubscriptionGet => HttpMethod::Get,
            RequestType::SubscriptionList => HttpMethod::Get,
            RequestType::SubscriptionCreate => HttpMethod::Post,
            RequestType::SubscriptionDestroy => HttpMethod::Delete,
        }
    }

    /// The literal part of this request's path pattern.
    pub open spec fn spec_prefix(self) -> Seq<char> {
        match self {
            RequestType::BlacklistGet => "/blacklists/"@,
            RequestType::BlacklistList => "/blacklists?page="@,
            RequestType::BlacklistCreate => "/blacklists"@,
            RequestType::BlacklistUpdate => "/blacklists/"@,
            RequestType::BlacklistDestroy => "/blacklists/"@,
            RequestType::WhitelistGet => "/whitelists/"@,
            RequestType::WhitelistList => "/whitelists?page="@,
            RequestType::WhitelistCreate => "/whitelists"@,
            RequestType::WhitelistUpdate => "/whitelists/"@,
            RequestType::WhitelistDestroy => "/whitelists/"@,
            RequestType::CategoryGet => "/categories/"@,
            RequestType::CategoryList => "/categories?page="@,
            RequestType::CategoryCreate => "/categories"@,
            RequestType::CategoryUpdate => "/categories/"@,
            RequestType::CategoryDestroy => "/categories/"@,
            RequestType::CouponGet => "/coupons/"@,
            RequestType::CouponList => "/coupons?page="@,
            RequestType::CouponCreate => "/coupons"@,
            RequestType::CouponUpdate => "/coupons/"@,
            RequestType::CouponDestroy => "/coupons/"@,
            RequestType::FeedbackGet => "/feedback/"@,
            RequestType::FeedbackList => "/feedback?page="@,
            RequestType::FeedbackReply => "/feedback/reply/"@,
            RequestType::OrderGet => "/orders/"@,
            RequestType::OrderList => "/orders?page="@,
            RequestType::OrderCreate => "/orders"@,
            RequestType::OrderUpdate => "/orders/"@,
            RequestType::OrderDestroy => "/orders/"@,
            RequestType::GroupGet => "/groups/"@,
            RequestType::GroupList => "/groups?page="@,
            RequestType::GroupCreate => "/groups"@,
            RequestType::GroupUpdate => "/groups/"@,
            RequestType::GroupDestroy => "/groups/"@,
            RequestType::CustomerGet => "/customers/"@,
            RequestType::CustomerList => "/customers?page="@,
            RequestType::CustomerCreate => "/customers"@,
            RequestType::CustomerUpdate => "/customers/"@,
            RequestType::CustomerDestroy => "/customers/"@,
            RequestType::QueryGet => "/queries/"@,
            RequestType::QueryList => "/queries?page="@,
            RequestType::QueryCreate => "/queries"@,
            RequestType::QueryUpdate => "/queries/"@,
            RequestType::QueryDestroy => "/queries/"@,
            RequestType::SubscriptionGet => "/subscriptions/"@,
            RequestType::SubscriptionList => "/subscriptions?page="@,
            RequestType::SubscriptionCreate => "/subscriptions"@,
            RequestType::SubscriptionDestroy => "/subscriptions/"@,
        }
    }

    /// The placeholder of this request's path pattern, if it has one.
    pub open spec fn spec_param(self) -> Option<PathParam> {
        match self {
            RequestType::BlacklistGet => Some(PathParam::Uniqid),
            RequestType::BlacklistList => Some(PathParam::Page),
            RequestType::BlacklistCreate => None,
            RequestType::BlacklistUpdate => Some(PathParam::Uniqid),
            RequestType::BlacklistDestroy => Some(PathParam::Uniqid),
            RequestType::WhitelistGet => Some(PathParam::Uniqid),
            RequestType::WhitelistList => Some(PathParam::Page),
            RequestType::WhitelistCreate => None,
            RequestType::WhitelistUpdate => Some(PathParam::Uniqid),
            RequestType::WhitelistDestroy => Some(PathParam::Uniqid),
            RequestType::CategoryGet => Some(PathParam::Uniqid),
            RequestType::CategoryList => Some(PathParam::Page),
            RequestType::CategoryCreate => None,
            RequestType::CategoryUpdate => Some(PathParam::Uniqid),
            RequestType::CategoryDestroy => Some(PathParam::Uniqid),
            RequestType::CouponGet => Some(PathParam::Uniqid),
            RequestType::CouponList => Some(PathParam::Page),
            RequestType::CouponCreate => None,
            RequestType::CouponUpdate => Some(PathParam::Uniqid),
            RequestType::CouponDestroy => Some(PathParam::Uniqid),
            RequestType::FeedbackGet => Some(PathParam::Uniqid),
            RequestType::FeedbackList => Some(PathParam::Page),
            RequestType::FeedbackReply => Some(PathParam::Uniqid),
            RequestType::OrderGet => Some(PathParam::Uniqid),
            RequestType::OrderList => Some(PathParam::Page),
            RequestType::OrderCreate => None,
            RequestType::OrderUpdate => Some(PathParam::Uniqid),
            RequestType::OrderDestroy => Some(PathParam::Uniqid),
            RequestType::GroupGet => Some(PathParam::Uniqid),
            RequestType::GroupList => Some(PathParam::Page),
            RequestType::GroupCreate => None,
            RequestType::GroupUpdate => Some(PathParam::Uniqid),
            RequestType::GroupDestroy => Some(PathParam::Uniqid),
            RequestType::CustomerGet => Some(PathParam::Uniqid),
            RequestType::CustomerList => Some(PathParam::Page),
            RequestType::CustomerCreate => None,
            RequestType::CustomerUpdate => Some(PathParam::Uniqid),
            RequestType::CustomerDestroy => Some(PathParam::Uniqid),
            RequestType::QueryGet => Some(PathParam::Uniqid),
            RequestType::QueryList => Some(PathParam::Page),
            RequestType::QueryCreate => None,
            RequestType::QueryUpdate => Some(PathParam::Uniqid),
            RequestType::QueryDestroy => Some(PathParam::Uniqid),
            RequestType::SubscriptionGet => Some(PathParam::Uniqid),
            RequestType::SubscriptionList => Some(PathParam::Page),
            RequestType::SubscriptionCreate => None,
            RequestType::SubscriptionDestroy => Some(PathParam::Uniqid),
        }
    }

    /// Returns the method and path template corresponding to this request.
    /// Every template handed out is well formed: its literal part holds no
    /// placeholder marker.
    pub fn request_details(&self) -> (r: (HttpMethod, PathTemplate))
        ensures
            r.0 == self.spec_method(),
            r.1.prefix@ == self.spec_prefix(),
            r.1.param == self.spec_param(),
            r.1.wf(),
    {
        proof {
            reveal_with_fuel(marker_free, 25);
        reveal_strlit("/blacklists");
        reveal_strlit("/blacklists/");
        reveal_strlit("/blacklists?page=");
        reveal_strlit("/categories");
        reveal_strlit("/categories/");
        reveal_strlit("/categories?page=");
        reveal_strlit("/coupons");
        reveal_strlit("/coupons/");
        reveal_strlit("/coupons?page=");
        reveal_strlit("/customers");
        reveal_strlit("/customers/");
        reveal_strlit("/customers?page=");
        reveal_strlit("/feedback/");
        reveal_strlit("/feedback/reply/");
        reveal_strlit("/feedback?page=");
        reveal_strlit("/groups");
        reveal_strlit("/groups/");
        reveal_strlit("/groups?page=");
        reveal_strlit("/orders");
        reveal_strlit("/orders/");
        reveal_strlit("/orders?page=");
        reveal_strlit("/queries");
        reveal_strlit("/queries/");
        reveal_strlit("/queries?page=");
        reveal_strlit("/subscriptions");
        reveal_strlit("/subscriptions/");
        reveal_strlit("/subscriptions?page=");
        reveal_strlit("/whitelists");
        reveal_strlit("/whitelists/");
        reveal_strlit("/whitelists?page=");
        }
        match self {
            RequestType::BlacklistGet => (HttpMethod::Get, PathTemplate { prefix: "/blacklists/", param: Some(PathParam::Uniqid) }),
            RequestType::BlacklistList => (HttpMethod::Get, PathTemplate { prefix: "/blacklists?page=", param: Some(PathParam::Page) }),
            RequestType::BlacklistCreate => (HttpMethod::Post, PathTemplate { prefix: "/blacklists", param: None }),
            RequestType::BlacklistUpdate => (HttpMethod::Put, PathTemplate { prefix: "/blacklists/", param: Some(PathParam::Uniqid) }),
            RequestType::BlacklistDestroy => (HttpMethod::Delete, PathTemplate { prefix: "/blacklists/", param: Some(PathParam::Uniqid) }),
            RequestType::WhitelistGet => (HttpMethod::Get, PathTemplate { prefix: "/whitelists/", param: Some(PathParam::Uniqid) }),
            RequestType::WhitelistList => (HttpMethod::Get, PathTemplate { prefix: "/whitelists?page=", param: Some(PathParam::Page) }),
            RequestType::WhitelistCreate => (HttpMethod::Post, PathTemplate { prefix: "/whitelists", param: None }),
            RequestType::WhitelistUpdate => (HttpMethod::Put, PathTemplate { prefix: "/whitelists/", param: Some(PathParam::Uniqid) }),
            RequestType::WhitelistDestroy => (HttpMethod::Delete, PathTemplate { prefix: "/whitelists/", param: Some(PathParam::Uniqid) }),
            RequestType::CategoryGet => (HttpMethod::Get, PathTemplate { prefix: "/categories/", param: Some(PathParam::Uniqid) }),
            RequestType::CategoryList => (HttpMethod::Get, PathTemplate { prefix: "/categories?page=", param: Some(PathParam::Page) }),
            RequestType::CategoryCreate => (HttpMethod::Post, PathTemplate { prefix: "/categories", param: None }),
            RequestType::CategoryUpdate => (HttpMethod::Put, PathTemplate { prefix: "/categories/", param: Some(PathParam::Uniqid) }),
            RequestType::CategoryDestroy => (HttpMethod::Delete, PathTemplate { prefix: "/categories/", param: Some(PathParam::Uniqid) }),
            RequestType::CouponGet => (HttpMethod::Get, PathTemplate { prefix: "/coupons/", param: Some(PathParam::Uniqid) }),
            RequestType::CouponList => (HttpMethod::Get, PathTemplate { prefix: "/coupons?page=", param: Some(PathParam::Page) }),
            RequestType::CouponCreate => (HttpMethod::Post, PathTemplate { prefix: "/coupons", param: None }),
            RequestType::CouponUpdate => (HttpMethod::Put, PathTemplate { prefix: "/coupons/", param: Some(PathParam::Uniqid) }),
            RequestType::CouponDestroy => (HttpMethod::Delete, PathTemplate { prefix: "/coupons/", param: Some(PathParam::Uniqid) }),
            RequestType::FeedbackGet => (HttpMethod::Get, PathTemplate { prefix: "/feedback/", param: Some(PathParam::Uniqid) }),
            RequestType::FeedbackList => (HttpMethod::Get, PathTemplate { prefix: "/feedback?page=", param: Some(PathParam::Page) }),
            RequestType::FeedbackReply => (HttpMethod::Post, PathTemplate { prefix: "/feedback/reply/", param: Some(PathParam::Uniqid) }),
            RequestType::OrderGet => (HttpMethod::Get, PathTemplate { prefix: "/orders/", param: Some(PathParam::Uniqid) }),
            RequestType::OrderList => (HttpMethod::Get, PathTemplate { prefix: "/orders?page=", param: Some(PathParam::Page) }),
            RequestType::OrderCreate => (HttpMethod::Post, PathTemplate { prefix: "/orders", param: None }),
            RequestType::OrderUpdate => (HttpMethod::Put, PathTemplate { prefix: "/orders/", param: Some(PathParam::Uniqid) }),
            RequestType::OrderDestroy => (HttpMethod::Delete, PathTemplate { prefix: "/orders/", param: Some(PathParam::Uniqid) }),
            RequestType::GroupGet => (HttpMethod::Get, PathTemplate { prefix: "/groups/", param: Some(PathParam::Uniqid) }),
            RequestType::GroupList => (HttpMethod::Get, PathTemplate { prefix: "/groups?page=", param: Some(PathParam::Page) }),
            RequestType::GroupCreate => (HttpMethod::Post, PathTemplate { prefix: "/groups", param: None }),
            RequestType::GroupUpdate => (HttpMethod::Put, PathTemplate { prefix: "/groups/", param: Some(PathParam::Uniqid) }),
            RequestType::GroupDestroy => (HttpMethod::Delete, PathTemplate { prefix: "/groups/", param: Some(PathParam::Uniqid) }),
            RequestType::CustomerGet => (HttpMethod::Get, PathTemplate { prefix: "/customers/", param: Some(PathParam::Uniqid) }),
            RequestType::CustomerList => (HttpMethod::Get, PathTemplate { prefix: "/customers?page=", param: Some(PathParam::Page) }),
            RequestType::CustomerCreate => (HttpMethod::Post, PathTemplate { prefix: "/customers", param: None }),
            RequestType::CustomerUpdate => (HttpMethod::Put, PathTemplate { prefix: "/customers/", param: Some(PathParam::Uniqid) }),
            RequestType::CustomerDestroy => (HttpMethod::Delete, PathTemplate { prefix: "/customers/", param: Some(PathParam::Uniqid) }),
            RequestType::QueryGet => (HttpMethod::Get, PathTemplate { prefix: "/queries/", param: Some(PathParam::Uniqid) }),
            RequestType::QueryList => (HttpMethod::Get, PathTemplate { prefix: "/queries?page=", param: Some(PathParam::Page) }),
            RequestType::QueryCreate => (HttpMethod::Post, PathTemplate { prefix: "/queries", param: None }),
            RequestType::QueryUpdate => (HttpMethod::Put, PathTemplate { prefix: "/queries/", param: Some(PathParam::Uniqid) }),
            RequestType::QueryDestroy => (HttpMethod::Delete, PathTemplate { prefix: "/queries/", param: Some(PathParam::Uniqid) }),
            RequestType::SubscriptionGet => (HttpMethod::Get, PathTemplate { prefix: "/subscriptions/", param: Some(PathParam::Uniqid) }),
            RequestType::SubscriptionList => (HttpMethod::Get, PathTemplate { prefix: "/subscriptions?page=", param: Some(PathParam::Page) }),
            RequestType::SubscriptionCreate => (HttpMethod::Post, PathTemplate { prefix: "/subscriptions", param: None }),
            RequestType::SubscriptionDestroy => (HttpMethod::Delete, PathTemplate { prefix: "/subscriptions/", param: Some(PathParam::Uniqid) }),
        }
    }
}

} // verus!

verus! {

/// The resource families the API manages.
#[derive(Clone, Copy, Debug, PartialEq, Eq, Structural)]
pub enum ResourceKind {
    Blacklist,
    Whitelist,
    Category,
    Coupon,
    Feedback,
    Order,
    Group,
    Customer,
    Query,
    Subscription,
}

/// The five standard operations a resource may offer.
#[derive(Clone, Copy, Debug, PartialEq, Eq, Structural)]
pub enum Operation {
    Get,
    List,
    Create,
    Update,
    Destroy,
}

/// Which of the standard methods a resource offers. Every flag defaults to
/// offering the method; a resource opts out of the ones the API lacks.
#[derive(Clone, Copy, Debug, PartialEq, Eq, Structural)]
pub struct ApiMethods {
    /// Whether a constructor is offered.
    pub new: bool,
    pub get: bool,
    pub list: bool,
    pub create: bool,
    pub edit: bool,
    pub delete: bool,
}

impl ApiMethods {
    /// Every method offered: what a resource gets unless it opts out.
    pub open spec fn spec_all() -> ApiMethods {
        ApiMethods { new: true, get: true, list: true, create: true, edit: true, delete: true }
    }

    /// Whether this configuration offers `op`.
    pub open spec fn spec_allows(self, op: Operation) -> bool {
        match op {
            Operation::Get => self.get,
            Operation::List => self.list,
            Operation::Create => self.create,
            Operation::Update => self.edit,
            Operation::Destroy => self.delete,
        }
    }

    /// Returns whether this configuration offers `op`.
    pub fn allows(&self, op: Operation) -> (r: bool)
        ensures
            r == self.spec_allows(op),
    {
        match op {
            Operation::Get => self.get,
            Operation::List => self.list,
            Operation::Create => self.create,
            Operation::Update => self.edit,
            Operation::Destroy => self.delete,
        }
    }
}

/// The per-resource configuration: which methods each resource kind offers.
pub open spec fn spec_api_methods(kind: ResourceKind) -> ApiMethods {
    match kind {
            ResourceKind::Blacklist => ApiMethods { new: true, get: true, list: true, create: true, edit: true, delete: true },
            ResourceKind::Whitelist => ApiMethods { new: true, get: true, list: true, create: true, edit: true, delete: true },
            ResourceKind::Category => ApiMethods { new: true, get: true, list: true, create: true, edit: true, delete: true },
            ResourceKind::Coupon => ApiMethods { new: true, get: true, list: true, create: true, edit: true, delete: true },
            ResourceKind::Feedback => ApiMethods { new: true, get: true, list: true, create: false, edit: false, delete: false },
            ResourceKind::Order => ApiMethods { new: true, get: true, list: true, create: true, edit: true, delete: true },
            ResourceKind::Group => ApiMethods { new: true, get: true, list: true, create: true, edit: true, delete: true },
            ResourceKind::Customer => ApiMethods { new: true, get: true, list: true, create: true, edit: true, delete: true },
            ResourceKind::Query => ApiMethods { new: true, get: true, list: true, create: true, edit: true, delete: true },
            ResourceKind::Subscription => ApiMethods { new: true, get: true, list: true, create: true, edit: false, delete: true },
    }
}

/// Returns the configuration of `kind`.
pub fn api_methods(kind: ResourceKind) -> (r: ApiMethods)
    ensures
        r == spec_api_methods(kind),
{
    match kind {
            ResourceKind::Blacklist => ApiMethods { new: true, get: true, list: true, create: true, edit: true, delete: true },
            ResourceKind::Whitelist => ApiMethods { new: true, get: true, list: true, create: true, edit: true, delete: true },
            ResourceKind::Category => ApiMethods { new: true, get: true, list: true, create: true, edit: true, delete: true },
            ResourceKind::Coupon => ApiMethods { new: true, get: true, list: true, create: true, edit: true, delete: true },
            ResourceKind::Feedback => ApiMethods { new: true, get: true, list: true, create: false, edit: false, delete: false },
            ResourceKind::Order => ApiMethods { new: true, get: true, list: true, create: true, edit: true, delete: true },
            ResourceKind::Group => ApiMethods { new: true, get: true, list: true, create: true, edit: true, delete: true },
            ResourceKind::Customer => ApiMethods { new: true, get: true, list: true, create: true, edit: true, delete: true },
            ResourceKind::Query => ApiMethods { new: true, get: true, list: true, create: true, edit: true, delete: true },
            ResourceKind::Subscription => ApiMethods { new: true, get: true, list: true, create: true, edit: false, delete: true },
    }
}

/// The request serving `op` on `kind`, when the resource offers it.
pub open spec fn spec_request_type_for(kind: ResourceKind, op: Operation) -> Option<RequestType> {
    match (kind, op) {
            (ResourceKind::Blacklist, Operation::Get) => Some(RequestType::BlacklistGet),
            (ResourceKind::Blacklist, Operation::List) => Some(RequestType::BlacklistList),
            (ResourceKind::Blacklist, Operation::Create) => Some(RequestType::BlacklistCreate),
            (ResourceKind::Blacklist, Operation::Update) => Some(RequestType::BlacklistUpdate),
            (ResourceKind::Blacklist, Operation::Destroy) => Some(RequestType::BlacklistDestroy),
            (ResourceKind::Whitelist, Operation::Get) => Some(RequestType::WhitelistGet),
            (ResourceKind::Whitelist, Operation::List) => Some(RequestType::WhitelistList),
            (ResourceKind::Whitelist, Operation::Create) => Some(RequestType::WhitelistCreate),
            (ResourceKind::Whitelist, Operation::Update) => Some(RequestType::WhitelistUpdate),
            (ResourceKind::Whitelist, Operation::Destroy) => Some(RequestType::WhitelistDestroy),
            (ResourceKind::Category, Operation::Get) => Some(RequestType::CategoryGet),
            (ResourceKind::Category, Operation::List) => Some(RequestType::CategoryList),
            (ResourceKind::Category, Operation::Create) => Some(RequestType::CategoryCreate),
            (ResourceKind::Category, Operation::Update) => Some(RequestType::CategoryUpdate),
            (ResourceKind::Category, Operation::Destroy) => Some(RequestType::CategoryDestroy),
            (ResourceKind::Coupon, Operation::Get) => Some(RequestType::CouponGet),
            (ResourceKind::Coupon, Operation::List) => Some(RequestType::CouponList),
            (ResourceKind::Coupon, Operation::Create) => Some(RequestType::CouponCreate),
            (ResourceKind::Coupon, Operation::Update) => Some(RequestType::CouponUpdate),
            (ResourceKind::Coupon, Operation::Destroy) => Some(RequestType::CouponDestroy),
            (ResourceKind::Feedback, Operation::Get) => Some(RequestType::FeedbackGet),
            (ResourceKind::Feedback, Operation::List) => Some(RequestType::FeedbackList),
            (ResourceKind::Feedback, Operation::Create) => None,
            (ResourceKind::Feedback, Operation::Update) => None,
            (ResourceKind::Feedback, Operation::Destroy) => None,
            (ResourceKind::Order, Operation::Get) => Some(RequestType::OrderGet),
            (ResourceKind::Order, Operation::List) => Some(RequestType::OrderList),
            (ResourceKind::Order, Operation::Create) => Some(RequestType::OrderCreate),
            (ResourceKind::Order, Operation::Update) => Some(RequestType::OrderUpdate),
            (ResourceKind::Order, Operation::Destroy) => Some(RequestType::OrderDestroy),
            (ResourceKind::Group, Operation::Get) => Some(RequestType::GroupGet),
            (ResourceKind::Group, Operation::List) => Some(RequestType::GroupList),
            (ResourceKind::Group, Operation::Create) => Some(RequestType::GroupCreate),
            (ResourceKind::Group, Operation::Update) => Some(RequestType::GroupUpdate),
            (ResourceKind::Group, Operation::Destroy) => Some(RequestType::GroupDestroy),
            (ResourceKind::Customer, Operation::Get) => Some(RequestType::CustomerGet),
            (ResourceKind::Customer, Operation::List) => Some(RequestType::CustomerList),
            (ResourceKind::Customer, Operation::Create) => Some(RequestType::CustomerCreate),
            (ResourceKind::Customer, Operation::Update) => Some(RequestType::CustomerUpdate),
            (ResourceKind::Customer, Operation::Destroy) => Some(RequestType::CustomerDestroy),
            (ResourceKind::Query, Operation::Get) => Some(RequestType::QueryGet),
            (ResourceKind::Query, Operation::List) => Some(RequestType::QueryList),
            (ResourceKind::Query, Operation::Create) => Some(RequestType::QueryCreate),
            (ResourceKind::Query, Operation::Update) => Some(RequestType::QueryUpdate),
            (ResourceKind::Query, Operation::Destroy) => Some(RequestType::QueryDestroy),
            (ResourceKind::Subscription, Operation::Get) => Some(RequestType::SubscriptionGet),
            (ResourceKind::Subscription, Operation::List) => Some(RequestType::SubscriptionList),
            (ResourceKind::Subscription, Operation::Create) => Some(RequestType::SubscriptionCreate),
            (ResourceKind::Subscription, Operation::Update) => None,
            (ResourceKind::Subscription, Operation::Destroy) => Some(RequestType::SubscriptionDestroy),
    }
}

/// Returns the request serving `op` on `kind`; `None` exactly when the
/// resource's configuration does not offer the operation.
pub fn request_type_for(kind: ResourceKind, op: Operation) -> (r: Option<RequestType>)
    ensures
        r == spec_request_type_for(kind, op),
        r is Some <==> spec_api_methods(kind).spec_allows(op),
{
    match (kind, op) {
            (ResourceKind::Blacklist, Operation::Get) => Some(RequestType::BlacklistGet),
            (ResourceKind::Blacklist, Operation::List) => Some(RequestType::BlacklistList),
            (ResourceKind::Blacklist, Operation::Create) => Some(RequestType::BlacklistCreate),
            (ResourceKind::Blacklist, Operation::Update) => Some(RequestType::BlacklistUpdate),
            (ResourceKind::Blacklist, Operation::Destroy) => Some(RequestType::BlacklistDestroy),
            (ResourceKind::Whitelist, Operation::Get) => Some(RequestType::WhitelistGet),
            (ResourceKind::Whitelist, Operation::List) => Some(RequestType::WhitelistList),
            (ResourceKind::Whitelist, Operation::Create) => Some(RequestType::WhitelistCreate),
            (ResourceKind::Whitelist, Operation::Update) => Some(RequestType::WhitelistUpdate),
            (ResourceKind::Whitelist, Operation::Destroy) => Some(RequestType::WhitelistDestroy),
            (ResourceKind::Category, Operation::Get) => Some(RequestType::CategoryGet),
            (ResourceKind::Category, Operation::List) => Some(RequestType::CategoryList),
            (ResourceKind::Category, Operation::Create) => Some(RequestType::CategoryCreate),
            (ResourceKind::Category, Operation::Update) => Some(RequestType::CategoryUpdate),
            (ResourceKind::Category, Operation::Destroy) => Some(RequestType::CategoryDestroy),
            (ResourceKind::Coupon, Operation::Get) => Some(RequestType::CouponGet),
            (ResourceKind::Coupon, Operation::List) => Some(RequestType::CouponList),
            (ResourceKind::Coupon, Operation::Create) => Some(RequestType::CouponCreate),
            (ResourceKind::Coupon, Operation::Update) => Some(RequestType::CouponUpdate),
            (ResourceKind::Coupon, Operation::Destroy) => Some(RequestType::CouponDestroy),
            (ResourceKind::Feedback, Operation::Get) => Some(RequestType::FeedbackGet),
            (ResourceKind::Feedback, Operation::List) => Some(RequestType::FeedbackList),
            (ResourceKind::Feedback, Operation::Create) => None,
            (ResourceKind::Feedback, Operation::Update) => None,
            (ResourceKind::Feedback, Operation::Destroy) => None,
            (ResourceKind::Order, Operation::Get) => Some(RequestType::OrderGet),
            (ResourceKind::Order, Operation::List) => Some(RequestType::OrderList),
            (ResourceKind::Order, Operation::Create) => Some(RequestType::OrderCreate),
            (ResourceKind::Order, Operation::Update) => Some(RequestType::OrderUpdate),
            (ResourceKind::Order, Operation::Destroy) => Some(RequestType::OrderDestroy),
            (ResourceKind::Group, Operation::Get) => Some(RequestType::GroupGet),
            (ResourceKind::Group, Operation::List) => Some(RequestType::GroupList),
            (ResourceKind::Group, Operation::Create) => Some(RequestType::GroupCreate),
            (ResourceKind::Group, Operation::Update) => Some(RequestType::GroupUpdate),
            (ResourceKind::Group, Operation::Destroy) => Some(RequestType::GroupDestroy),
            (ResourceKind::Customer, Operation::Get) => Some(RequestType::CustomerGet),
            (ResourceKind::Customer, Operation::List) => Some(RequestType::CustomerList),
            (ResourceKind::Customer, Operation::Create) => Some(RequestType::CustomerCreate),
            (ResourceKind::Customer, Operation::Update) => Some(RequestType::CustomerUpdate),
            (ResourceKind::Customer, Operation::Destroy) => Some(RequestType::CustomerDestroy),
            (ResourceKind::Query, Operation::Get) => Some(RequestType::QueryGet),
            (ResourceKind::Query, Operation::List) => Some(RequestType::QueryList),
            (ResourceKind::Query, Operation::Create) => Some(RequestType::QueryCreate),
            (ResourceKind::Query, Operation::Update) => Some(RequestType::QueryUpdate),
            (ResourceKind::Query, Operation::Destroy) => Some(RequestType::QueryDestroy),
            (ResourceKind::Subscription, Operation::Get) => Some(RequestType::SubscriptionGet),
            (ResourceKind::Subscription, Operation::List) => Some(RequestType::SubscriptionList),
            (ResourceKind::Subscription, Operation::Create) => Some(RequestType::SubscriptionCreate),
            (ResourceKind::Subscription, Operation::Update) => None,
            (ResourceKind::Subscription, Operation::Destroy) => Some(RequestType::SubscriptionDestroy),
    }
}

/// The request table and the per-resource configurations agree: a request
/// stands in the table for a resource and an operation exactly when the
/// resource's configuration offers that operation, so exactly the
/// configured methods are served and no others.
pub proof fn lemma_table_matches_config(kind: ResourceKind, op: Operation)
    ensures
        spec_request_type_for(kind, op) is Some <==> spec_api_methods(kind).spec_allows(op),
{
}

} // verus!

verus! {

/// Joining two marker-free texts yields a marker-free text.
pub proof fn lemma_marker_free_concat(a: Seq<char>, b: Seq<char>)
    requires
        marker_free(a),
        marker_free(b),
    ensures
        marker_free(a + b),
    decreases a.len(),
{
    if a.len() == 0 {
        assert(a + b =~= b);
    } else {
        lemma_marker_free_concat(a.drop_first(), b);
        assert((a + b).drop_first() =~= a.drop_first() + b);
        assert((a + b)[0] == a[0]);
    }
}

/// A decimal rendering holds no placeholder marker.
pub proof fn lemma_digits_marker_free(n: u64)
    ensures
        marker_free(spec_u64_digits(n)),
    decreases n,
{
    let c = spec_digit_char((n % 10) as u64);
    assert(c != '{');
    assert(marker_free(seq![c].drop_first()));
    assert(marker_free(seq![c]));
    if n < 10 {
    } else {
        lemma_digits_marker_free(n / 10);
        lemma_marker_free_concat(spec_u64_digits(n / 10), seq![c]);
        assert(spec_u64_digits(n / 10) + seq![c] =~= spec_u64_digits(n / 10).push(c));
    }
}

impl PathTemplate {
    /// Substituting a well-formed template's placeholder with an
    /// identifier that holds no placeholder marker yields a path with no
    /// marker left in it, whatever page is asked for.
    pub proof fn lemma_render_marker_free(self, uniqid: Seq<char>, page: Option<u64>)
        requires
            self.wf(),
            marker_free(uniqid),
        ensures
            marker_free(self.prefix@ + self.spec_substitution(uniqid, page)),
    {
        let sub = self.spec_substitution(uniqid, page);
        match self.param {
            None => {
                assert(marker_free(sub));
            },
            Some(PathParam::Uniqid) => {},
            Some(PathParam::Page) => {
                match page {
                    None => {
                        assert(marker_free(sub));
                    },
                    Some(p) => {
                        lemma_digits_marker_free(p);
                    },
                }
            },
        }
        lemma_marker_free_concat(self.prefix@, sub);
    }
}

} // verus!

verus! {

/// Listing with no page asks for the server's default: nothing is
/// substituted for the page placeholder, so the rendered path is exactly
/// the pattern's literal part, which the server reads as the first page.
pub proof fn lemma_list_default_page(rt: RequestType, uniqid: Seq<char>)
    requires
        rt.spec_param() == Some(PathParam::Page),
    ensures
        rt.spec_prefix() + spec_substitution(rt.spec_param(), uniqid, None) == rt.spec_prefix(),
{
    assert(rt.spec_prefix() + spec_substitution(rt.spec_param(), uniqid, None)
        =~= rt.spec_prefix());
}

} // verus!
