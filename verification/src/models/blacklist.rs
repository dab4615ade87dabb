//! The blacklist resource: disallow certain people from accessing a shop.

use vstd::prelude::*;
use crate::json::JsonValue;
use crate::json::spec_get;
use crate::json::spec_obj_get;
use crate::json::spec_text_field;
use crate::json::spec_u64_field;
use crate::json::str_eq;
use crate::json::text_field;
use crate::json::u64_field;
use crate::models::RawAPIResponse;
use crate::models::UniqidDict;

verus! {

/// The scope of a blacklist.
/// Used by [`BlacklistRaw`].
#[derive(Clone, Copy, Debug, PartialEq, Eq, Structural)]
pub enum BlacklistScope {
    Private,
    Shared,
}

impl BlacklistScope {
    /// The scope's name on the wire.
    pub open spec fn spec_as_str(self) -> Seq<char> {
        match self {
            BlacklistScope::Private => "PRIVATE"@,
            BlacklistScope::Shared => "SHARED"@,
        }
    }

    /// Returns the scope's name on the wire.
    pub fn as_str(&self) -> (r: &str)
        ensures
            r@ == self.spec_as_str(),
    {
        match self {
            BlacklistScope::Private => "PRIVATE",
            BlacklistScope::Shared => "SHARED",
        }
    }
}

/// The types of blacklist.
/// Used by [`BlacklistRaw`].
#[derive(Clone, Copy, Debug, PartialEq, Eq, Structural)]
pub enum BlacklistTypes {
    Email,
    IP,
    Country,
    ISP,
    ASN,
    Host,
}

impl BlacklistTypes {
    /// The type's name on the wire.
    pub open spec fn spec_as_str(self) -> Seq<char> {
        match self {
            BlacklistTypes::Email => "EMAIL"@,
            BlacklistTypes::IP => "IP"@,
            BlacklistTypes::Country => "COUNTRY"@,
            BlacklistTypes::ISP => "ISP"@,
            BlacklistTypes::ASN => "ASN"@,
            BlacklistTypes::Host => "HOST"@,
        }
    }

    /// Returns the type's name on the wire.
    pub fn as_str(&self) -> (r: &str)
        ensures
            r@ == self.spec_as_str(),
    {
        match self {
            BlacklistTypes::Email => "EMAIL",
            BlacklistTypes::IP => "IP",
            BlacklistTypes::Country => "COUNTRY",
            BlacklistTypes::ISP => "ISP",
            BlacklistTypes::ASN => "ASN",
            BlacklistTypes::Host => "HOST",
        }
    }
}

/// Represents the raw API response for a blacklist object. Timestamps are
/// held as seconds since the epoch.
#[derive(Clone, Debug)]
pub struct BlacklistRaw {
    /// ID of the resource.
    pub id: u64,
    /// Unique ID of the resource, used as reference across the API.
    pub uniqid: String,
    /// Whether it is a private or shared blacklist. Shared blacklists are
    /// created by Sellix's Fraud Shield to be used across Business and
    /// Enterprise merchants.
    pub scope: BlacklistScope,
    /// The shop ID to which this blacklist belongs.
    pub shop_id: u64,
    /// The type of data of this blacklist.
    pub type_field: BlacklistTypes,
    /// The value of the blacklist.
    pub data: String,
    /// Additional note provided on blacklist creation.
    pub note: String,
    /// Creation date of the blacklist, in seconds since the epoch.
    pub created_at: u64,
    /// Date, available if the blacklist has been edited.
    pub updated_at: u64,
    /// User ID, available if the blacklist has been edited.
    pub updated_by: u64,
}

/// The one-record wrapper a get reply carries the blacklist in.
#[derive(Clone, Debug)]
pub struct BlacklistOneRaw {
    pub blacklist: BlacklistRaw,
}

/// The reply envelope of a blacklist get.
pub type BlacklistGetResponseRaw = RawAPIResponse<BlacklistOneRaw>;

/// The array wrapper a list reply carries the blacklists in.
#[derive(Clone, Debug)]
pub struct BlacklistArray {
    pub blacklists: Vec<BlacklistRaw>,
}

/// The reply envelope of a blacklist list.
pub type BlacklistListResponseRaw = RawAPIResponse<BlacklistArray>;

/// Represents the payload for creating (or updating) a blacklist.
#[derive(Clone, Debug)]
pub struct BlacklistCreatePayload {
    /// The type of data of this blacklist.
    pub type_field: BlacklistTypes,
    /// Blocked data: either country code, email or IP address.
    pub data: String,
    /// Internal note for the reasoning of the blacklist.
    pub note: Option<String>,
}

/// The reply envelope of a blacklist create.
pub type BlacklistCreateResponseRaw = RawAPIResponse<UniqidDict>;

impl BlacklistCreatePayload {
    /// Encodes this payload as the JSON object the create and update
    /// endpoints take: its `type`, `data` and `note` fields, with an
    /// absent note sent as `null`.
    pub fn to_json(&self) -> (r: JsonValue)
        ensures
            r is Obj,
            spec_get(r, "type"@) matches Some(t) && t.spec_as_str() == Some(
                self.type_field.spec_as_str(),
            ),
            spec_get(r, "data"@) matches Some(d) && d.spec_as_str() == Some(self.data@),
            match self.note {
                Some(n) => spec_get(r, "note"@) matches Some(v) && v.spec_as_str() == Some(n@),
                None => spec_get(r, "note"@) == Some(JsonValue::Null),
            },
    {
        let mut fields: Vec<(String, JsonValue)> = Vec::new();
        fields.push(("type".to_owned(), JsonValue::Str(self.as_str_owned())));
        fields.push(("data".to_owned(), JsonValue::Str(self.data.clone())));
        let note_value = match &self.note {
            Some(n) => JsonValue::Str(n.clone()),
            None => JsonValue::Null,
        };
        fields.push(("note".to_owned(), note_value));
        let r = JsonValue::Obj(fields);
        proof {
            reveal_strlit("type");
            reveal_strlit("data");
            reveal_strlit("note");
            assert("type"@[0] == 't' && "data"@[0] == 'd' && "note"@[0] == 'n');
            reveal_with_fuel(spec_obj_get, 4);
            assert(fields@.drop_first() =~= fields@.skip(1));
            assert(fields@.drop_first().drop_first() =~= fields@.skip(2));
            assert(spec_get(r, "data"@) == Some(fields@[1].1));
            assert(spec_get(r, "note"@) == Some(fields@[2].1));
        }
        r
    }

    /// The wire name of this payload's type, as an owned string.
    fn as_str_owned(&self) -> (r: String)
        ensures
            r@ == self.type_field.spec_as_str(),
    {
        self.type_field.as_str().to_owned()
    }
}

} // verus!

verus! {

/// The scope a wire name stands for, if it is one.
pub open spec fn spec_scope_of(s: Seq<char>) -> Option<BlacklistScope> {
    if s == "PRIVATE"@ {
        Some(BlacklistScope::Private)
    } else if s == "SHARED"@ {
        Some(BlacklistScope::Shared)
    } else {
        None
    }
}

impl BlacklistScope {
    /// Reads a scope's wire name.
    pub fn from_str(s: &str) -> (r: Option<BlacklistScope>)
        ensures
            r == spec_scope_of(s@),
    {
        if str_eq(s, "PRIVATE") {
            Some(BlacklistScope::Private)
        } else if str_eq(s, "SHARED") {
            Some(BlacklistScope::Shared)
        } else {
            None
        }
    }
}

/// The blacklist type a wire name stands for, if it is one.
pub open spec fn spec_blacklist_type_of(s: Seq<char>) -> Option<BlacklistTypes> {
    if s == "EMAIL"@ {
        Some(BlacklistTypes::Email)
    } else if s == "IP"@ {
        Some(BlacklistTypes::IP)
    } else if s == "COUNTRY"@ {
        Some(BlacklistTypes::Country)
    } else if s == "ISP"@ {
        Some(BlacklistTypes::ISP)
    } else if s == "ASN"@ {
        Some(BlacklistTypes::ASN)
    } else if s == "HOST"@ {
        Some(BlacklistTypes::Host)
    } else {
        None
    }
}

impl BlacklistTypes {
    /// Reads a type's wire name.
    pub fn from_str(s: &str) -> (r: Option<BlacklistTypes>)
        ensures
            r == spec_blacklist_type_of(s@),
    {
        if str_eq(s, "EMAIL") {
            Some(BlacklistTypes::Email)
        } else if str_eq(s, "IP") {
            Some(BlacklistTypes::IP)
        } else if str_eq(s, "COUNTRY") {
            Some(BlacklistTypes::Country)
        } else if str_eq(s, "ISP") {
            Some(BlacklistTypes::ISP)
        } else if str_eq(s, "ASN") {
            Some(BlacklistTypes::ASN)
        } else if str_eq(s, "HOST") {
            Some(BlacklistTypes::Host)
        } else {
            None
        }
    }
}

/// Whether `v` carries every field a blacklist record owes, each with the
/// right shape: the numbers as non-negative integers, the texts as
/// strings, the scope and the type as their documented wire names.
pub open spec fn spec_blacklist_decodable(v: JsonValue) -> bool {
    &&& spec_u64_field(v, "id"@) is Some
    &&& spec_text_field(v, "uniqid"@) is Some
    &&& match spec_text_field(v, "scope"@) {
        Some(s) => spec_scope_of(s) is Some,
        None => false,
    }
    &&& spec_u64_field(v, "shop_id"@) is Some
    &&& match spec_text_field(v, "type"@) {
        Some(s) => spec_blacklist_type_of(s) is Some,
        None => false,
    }
    &&& spec_text_field(v, "data"@) is Some
    &&& spec_text_field(v, "note"@) is Some
    &&& spec_u64_field(v, "created_at"@) is Some
    &&& spec_u64_field(v, "updated_at"@) is Some
    &&& spec_u64_field(v, "updated_by"@) is Some
}

impl BlacklistRaw {
    /// Decodes a blacklist record out of the JSON object a get or list
    /// reply carries it as. Succeeds exactly when every field is there
    /// with its documented shape, and then each field of the record is the
    /// field of the object.
    pub fn from_json(v: &JsonValue) -> (r: Option<BlacklistRaw>)
        ensures
            r is Some <==> spec_blacklist_decodable(*v),
            r matches Some(b) ==> {
                &&& spec_u64_field(*v, "id"@) == Some(b.id)
                &&& spec_text_field(*v, "uniqid"@) == Some(b.uniqid@)
                &&& match spec_text_field(*v, "scope"@) {
                    Some(s) => spec_scope_of(s) == Some(b.scope),
                    None => false,
                }
                &&& spec_u64_field(*v, "shop_id"@) == Some(b.shop_id)
                &&& match spec_text_field(*v, "type"@) {
                    Some(s) => spec_blacklist_type_of(s) == Some(b.type_field),
                    None => false,
                }
                &&& spec_text_field(*v, "data"@) == Some(b.data@)
                &&& spec_text_field(*v, "note"@) == Some(b.note@)
                &&& spec_u64_field(*v, "created_at"@) == Some(b.created_at)
                &&& spec_u64_field(*v, "updated_at"@) == Some(b.updated_at)
                &&& spec_u64_field(*v, "updated_by"@) == Some(b.updated_by)
            },
    {
        let id = match u64_field(v, "id") {
            Some(x) => x,
            None => {
                return None;
            },
        };
        let uniqid = match text_field(v, "uniqid") {
            Some(x) => x,
            None => {
                return None;
            },
        };
        let scope_text = match text_field(v, "scope") {
            Some(x) => x,
            None => {
                return None;
            },
        };
        let scope = match BlacklistScope::from_str(scope_text.as_str()) {
            Some(x) => x,
            None => {
                return None;
            },
        };
        let shop_id = match u64_field(v, "shop_id") {
            Some(x) => x,
            None => {
                return None;
            },
        };
        let type_text = match text_field(v, "type") {
            Some(x) => x,
            None => {
                return None;
            },
        };
        let type_field = match BlacklistTypes::from_str(type_text.as_str()) {
            Some(x) => x,
            None => {
                return None;
            },
        };
        let data = match text_field(v, "data") {
            Some(x) => x,
            None => {
                return None;
            },
        };
        let note = match text_field(v, "note") {
            Some(x) => x,
            None => {
                return None;
            },
        };
        let created_at = match u64_field(v, "created_at") {
            Some(x) => x,
            None => {
                return None;
            },
        };
        let updated_at = match u64_field(v, "updated_at") {
            Some(x) => x,
            None => {
                return None;
            },
        };
        let updated_by = match u64_field(v, "updated_by") {
            Some(x) => x,
            None => {
                return None;
            },
        };
        Some(
            BlacklistRaw {
                id,
                uniqid,
                scope,
                shop_id,
                type_field,
                data,
                note,
                created_at,
                updated_at,
                updated_by,
            },
        )
    }
}

} // verus!
