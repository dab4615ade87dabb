//! The query resource: customer support threads.

use vstd::prelude::*;
use crate::json::spec_get;
use crate::json::lemma_obj_get_at;
use crate::json::spec_is_string_array;
use crate::json::strings_to_json_array;
use crate::json::JsonValue;
use crate::models::RawAPIResponse;
use crate::models::UniqidDict;

verus! {

/// The status of a Query.
/// Used in [`QueryRaw`].
#[derive(Clone, Copy, Debug, PartialEq, Eq, Structural)]
pub enum QueryStatus {
    Pending,
    Closed,
    ShopReply,
    CustomerReply,
}

/// Represents one message within a query thread. Timestamps are held as
/// seconds since the epoch.
#[derive(Clone, Debug)]
pub struct QueryMessage {
    pub role: String,
    pub message: String,
    pub created_at: u64,
}

/// Represents the raw API response for a query object. Timestamps are
/// held as seconds since the epoch; the linked invoice id rides along as
/// a plain JSON value since the server sends it in several shapes.
#[derive(Debug)]
pub struct QueryRaw {
    /// ID of the resource.
    pub id: u64,
    /// Unique ID of the resource, used as reference across the API.
    pub uniqid: String,
    /// The shop ID to which this query belongs.
    pub shop_id: u64,
    /// Unique ID of the invoice this query is linked to, if specified by
    /// the customer.
    pub invoice_id: JsonValue,
    pub customer_email: String,
    pub title: String,
    pub status: String,
    pub messages: Vec<QueryMessage>,
    pub day_value: i64,
    pub day: String,
    pub month: String,
    pub year: i64,
    /// Creation date of the query, in seconds since the epoch.
    pub created_at: u64,
    /// Date, available if the query has been edited.
    pub updated_at: u64,
    /// User ID, available if the query has been edited.
    pub updated_by: u64,
}

/// The one-record wrapper a get reply carries the query in.
#[derive(Debug)]
pub struct QueryOneRaw {
    pub query: QueryRaw,
}

/// The reply envelope of a query get.
pub type QueryGetResponseRaw = RawAPIResponse<QueryOneRaw>;

/// The array wrapper a list reply carries the queries in.
#[derive(Debug)]
pub struct QueryArray {
    pub queries: Vec<QueryRaw>,
}

/// The reply envelope of a query list.
pub type QueryListResponseRaw = RawAPIResponse<QueryArray>;

/// The reply envelope of a query create.
pub type QueryCreateResponseRaw = RawAPIResponse<UniqidDict>;

/// Represents the payload for creating (or updating) a query.
#[derive(Clone, Debug)]
pub struct QueryCreatePayload {
    pub title: String,
    pub unlisted: Option<bool>,
    /// Uniqids of the products the query concerns.
    pub products_bound: Option<Vec<String>>,
    /// Uniqids of the groups the query concerns.
    pub groups_array: Option<Vec<String>>,
    pub sort_priority: Option<u64>,
}

} // verus!

verus! {

impl QueryCreatePayload {
    /// Encodes this payload as the JSON object the create and update
    /// endpoints take: one field per documented key, with an absent
    /// optional sent as `null`.
    pub fn to_json(&self) -> (r: JsonValue)
        ensures
            r is Obj,
            spec_get(r, "title"@) matches Some(v) && v.spec_as_str() == Some(self.title@),
            match self.unlisted {
                Some(b) => spec_get(r, "unlisted"@) == Some(JsonValue::Bool(b)),
                None => spec_get(r, "unlisted"@) == Some(JsonValue::Null),
            },
            match self.products_bound {
                Some(items) => spec_get(r, "products_bound"@) matches Some(v) && spec_is_string_array(v, items@),
                None => spec_get(r, "products_bound"@) == Some(JsonValue::Null),
            },
            match self.groups_array {
                Some(items) => spec_get(r, "groups_array"@) matches Some(v) && spec_is_string_array(v, items@),
                None => spec_get(r, "groups_array"@) == Some(JsonValue::Null),
            },
            match self.sort_priority {
                Some(x) => spec_get(r, "sort_priority"@) == Some(JsonValue::UInt(x)),
                None => spec_get(r, "sort_priority"@) == Some(JsonValue::Null),
            },
    {
        let mut fields: Vec<(String, JsonValue)> = Vec::new();
        fields.push(("title".to_owned(), JsonValue::Str(self.title.clone())));
        let unlisted_value = match self.unlisted {
            Some(b) => JsonValue::Bool(b),
            None => JsonValue::Null,
        };
        fields.push(("unlisted".to_owned(), unlisted_value));
        let products_bound_value = match &self.products_bound {
            Some(items) => strings_to_json_array(items),
            None => JsonValue::Null,
        };
        fields.push(("products_bound".to_owned(), products_bound_value));
        let groups_array_value = match &self.groups_array {
            Some(items) => strings_to_json_array(items),
            None => JsonValue::Null,
        };
        fields.push(("groups_array".to_owned(), groups_array_value));
        let sort_priority_value = match self.sort_priority {
            Some(x) => JsonValue::UInt(x),
            None => JsonValue::Null,
        };
        fields.push(("sort_priority".to_owned(), sort_priority_value));
        let r = JsonValue::Obj(fields);
        proof {
            reveal_strlit("title");
            reveal_strlit("unlisted");
            reveal_strlit("products_bound");
            reveal_strlit("groups_array");
            reveal_strlit("sort_priority");
            assert("title"@.len() == 5 && "title"@[0] == 't' && "title"@[1] == 'i');
            assert("unlisted"@.len() == 8 && "unlisted"@[0] == 'u' && "unlisted"@[1] == 'n');
            assert("products_bound"@.len() == 14 && "products_bound"@[0] == 'p' && "products_bound"@[1] == 'r');
            assert("groups_array"@.len() == 12 && "groups_array"@[0] == 'g' && "groups_array"@[1] == 'r');
            assert("sort_priority"@.len() == 13 && "sort_priority"@[0] == 's' && "sort_priority"@[1] == 'o');
            lemma_obj_get_at(fields@, 0);
            lemma_obj_get_at(fields@, 1);
            lemma_obj_get_at(fields@, 2);
            lemma_obj_get_at(fields@, 3);
            lemma_obj_get_at(fields@, 4);
            assert(spec_get(r, "title"@) == Some(fields@[0].1));
            assert(spec_get(r, "unlisted"@) == Some(fields@[1].1));
            assert(spec_get(r, "products_bound"@) == Some(fields@[2].1));
            assert(spec_get(r, "groups_array"@) == Some(fields@[3].1));
            assert(spec_get(r, "sort_priority"@) == Some(fields@[4].1));
        }
        r
    }
}

} // verus!
