//! The whitelist resource: allow certain people to access a shop.

use vstd::prelude::*;
use crate::json::JsonValue;
use crate::json::spec_get;
use crate::json::spec_obj_get;
use crate::json::spec_text_field;
use crate::json::spec_u64_field;
use crate::json::str_eq;
use crate::json::text_field;
use crate::json::u64_field;
use crate::models::RawAPIResponse;
use crate::models::UniqidDict;

verus! {

/// The types of whitelist.
/// Used by [`WhitelistRaw`].
#[derive(Clone, Copy, Debug, PartialEq, Eq, Structural)]
pub enum WhitelistTypes {
    Email,
    IP,
    Country,
    ISP,
    ASN,
    Host,
}

impl WhitelistTypes {
    /// The type's name on the wire.
    pub open spec fn spec_as_str(self) -> Seq<char> {
        match self {
            WhitelistTypes::Email => "EMAIL"@,
            WhitelistTypes::IP => "IP"@,
            WhitelistTypes::Country => "COUNTRY"@,
            WhitelistTypes::ISP => "ISP"@,
            WhitelistTypes::ASN => "ASN"@,
            WhitelistTypes::Host => "HOST"@,
        }
    }

    /// Returns the type's name on the wire.
    pub fn as_str(&self) -> (r: &str)
        ensures
            r@ == self.spec_as_str(),
    {
        match self {
            WhitelistTypes::Email => "EMAIL",
            WhitelistTypes::IP => "IP",
            WhitelistTypes::Country => "COUNTRY",
            WhitelistTypes::ISP => "ISP",
            WhitelistTypes::ASN => "ASN",
            WhitelistTypes::Host => "HOST",
        }
    }
}

/// Represents the raw API response for a whitelist object. Timestamps are
/// held as seconds since the epoch.
#[derive(Clone, Debug)]
pub struct WhitelistRaw {
    /// ID of the resource.
    pub id: u64,
    /// Unique ID of the resource, used as reference across the API.
    pub uniqid: String,
    /// The shop ID to which this whitelist belongs.
    pub shop_id: u64,
    /// The type of data of this whitelist.
    pub type_field: WhitelistTypes,
    /// The value of the whitelist.
    pub data: String,
    /// Additional note provided on whitelist creation.
    pub note: String,
    /// Creation date of the whitelist, in seconds since the epoch.
    pub created_at: u64,
    /// Date, available if the whitelist has been edited.
    pub updated_at: u64,
    /// User ID, available if the whitelist has been edited.
    pub updated_by: u64,
}

/// The one-record wrapper a get reply carries the whitelist in.
#[derive(Clone, Debug)]
pub struct WhitelistOneRaw {
    pub whitelist: WhitelistRaw,
}

/// The reply envelope of a whitelist get.
pub type WhitelistGetResponseRaw = RawAPIResponse<WhitelistOneRaw>;

/// The array wrapper a list reply carries the whitelists in.
#[derive(Clone, Debug)]
pub struct WhitelistArray {
    pub whitelists: Vec<WhitelistRaw>,
}

/// The reply envelope of a whitelist list.
pub type WhitelistListResponseRaw = RawAPIResponse<WhitelistArray>;

/// Represents the payload for creating (or updating) a whitelist.
#[derive(Clone, Debug)]
pub struct WhitelistCreatePayload {
    /// The type of data of this whitelist.
    pub type_field: WhitelistTypes,
    /// Allowed data: either country code, email or IP address.
    pub data: String,
    /// Internal note for the reasoning of the whitelist.
    pub note: Option<String>,
}

/// The reply envelope of a whitelist create.
pub type WhitelistCreateResponseRaw = RawAPIResponse<UniqidDict>;

impl WhitelistCreatePayload {
    /// Encodes this payload as the JSON object the create and update
    /// endpoints take: its `type`, `data` and `note` fields, with an
    /// absent note sent as `null`.
    pub fn to_json(&self) -> (r: JsonValue)
        ensures
            r is Obj,
            spec_get(r, "type"@) matches Some(t) && t.spec_as_str() == Some(
                self.type_field.spec_as_str(),
            ),
            spec_get(r, "data"@) matches Some(d) && d.spec_as_str() == Some(self.data@),
            match self.note {
                Some(n) => spec_get(r, "note"@) matches Some(v) && v.spec_as_str() == Some(n@),
                None => spec_get(r, "note"@) == Some(JsonValue::Null),
            },
    {
        let mut fields: Vec<(String, JsonValue)> = Vec::new();
        fields.push(("type".to_owned(), JsonValue::Str(self.as_str_owned())));
        fields.push(("data".to_owned(), JsonValue::Str(self.data.clone())));
        let note_value = match &self.note {
            Some(n) => JsonValue::Str(n.clone()),
            None => JsonValue::Null,
        };
        fields.push(("note".to_owned(), note_value));
        let r = JsonValue::Obj(fields);
        proof {
            reveal_strlit("type");
            reveal_strlit("data");
            reveal_strlit("note");
            assert("type"@[0] == 't' && "data"@[0] == 'd' && "note"@[0] == 'n');
            reveal_with_fuel(spec_obj_get, 4);
            assert(fields@.drop_first() =~= fields@.skip(1));
            assert(fields@.drop_first().drop_first() =~= fields@.skip(2));
            assert(spec_get(r, "data"@) == Some(fields@[1].1));
            assert(spec_get(r, "note"@) == Some(fields@[2].1));
        }
        r
    }

    /// The wire name of this payload's type, as an owned string.
    fn as_str_owned(&self) -> (r: String)
        ensures
            r@ == self.type_field.spec_as_str(),
    {
        self.type_field.as_str().to_owned()
    }
}

} // verus!

verus! {

/// The whitelist type a wire name stands for, if it is one.
pub open spec fn spec_whitelist_type_of(s: Seq<char>) -> Option<WhitelistTypes> {
    if s == "EMAIL"@ {
        Some(WhitelistTypes::Email)
    } else if s == "IP"@ {
        Some(WhitelistTypes::IP)
    } else if s == "COUNTRY"@ {
        Some(WhitelistTypes::Country)
    } else if s == "ISP"@ {
        Some(WhitelistTypes::ISP)
    } else if s == "ASN"@ {
        Some(WhitelistTypes::ASN)
    } else if s == "HOST"@ {
        Some(WhitelistTypes::Host)
    } else {
        None
    }
}

impl WhitelistTypes {
    /// Reads a type's wire name.
    pub fn from_str(s: &str) -> (r: Option<WhitelistTypes>)
        ensures
            r == spec_whitelist_type_of(s@),
    {
        if str_eq(s, "EMAIL") {
            Some(WhitelistTypes::Email)
        } else if str_eq(s, "IP") {
            Some(WhitelistTypes::IP)
        } else if str_eq(s, "COUNTRY") {
            Some(WhitelistTypes::Country)
        } else if str_eq(s, "ISP") {
            Some(WhitelistTypes::ISP)
        } else if str_eq(s, "ASN") {
            Some(WhitelistTypes::ASN)
        } else if str_eq(s, "HOST") {
            Some(WhitelistTypes::Host)
        } else {
            None
        }
    }
}

/// Whether `v` carries every field a whitelist record owes, each with the
/// right shape: the numbers as non-negative integers, the texts as
/// strings, the type as its documented wire name.
pub open spec fn spec_whitelist_decodable(v: JsonValue) -> bool {
    &&& spec_u64_field(v, "id"@) is Some
    &&& spec_text_field(v, "uniqid"@) is Some
    &&& spec_u64_field(v, "shop_id"@) is Some
    &&& match spec_text_field(v, "type"@) {
        Some(s) => spec_whitelist_type_of(s) is Some,
        None => false,
    }
    &&& spec_text_field(v, "data"@) is Some
    &&& spec_text_field(v, "note"@) is Some
    &&& spec_u64_field(v, "created_at"@) is Some
    &&& spec_u64_field(v, "updated_at"@) is Some
    &&& spec_u64_field(v, "updated_by"@) is Some
}

impl WhitelistRaw {
    /// Decodes a whitelist record out of the JSON object a get or list
    /// reply carries it as. Succeeds exactly when every field is there
    /// with its documented shape, and then each field of the record is the
    /// field of the object.
    pub fn from_json(v: &JsonValue) -> (r: Option<WhitelistRaw>)
        ensures
            r is Some <==> spec_whitelist_decodable(*v),
            r matches Some(w) ==> {
                &&& spec_u64_field(*v, "id"@) == Some(w.id)
                &&& spec_text_field(*v, "uniqid"@) == Some(w.uniqid@)
                &&& spec_u64_field(*v, "shop_id"@) == Some(w.shop_id)
                &&& match spec_text_field(*v, "type"@) {
                    Some(s) => spec_whitelist_type_of(s) == Some(w.type_field),
                    None => false,
                }
                &&& spec_text_field(*v, "data"@) == Some(w.data@)
                &&& spec_text_field(*v, "note"@) == Some(w.note@)
                &&& spec_u64_field(*v, "created_at"@) == Some(w.created_at)
                &&& spec_u64_field(*v, "updated_at"@) == Some(w.updated_at)
                &&& spec_u64_field(*v, "updated_by"@) == Some(w.updated_by)
            },
    {
        let id = match u64_field(v, "id") {
            Some(x) => x,
            None => {
                return None;
            },
        };
        let uniqid = match text_field(v, "uniqid") {
            Some(x) => x,
            None => {
                return None;
            },
        };
        let shop_id = match u64_field(v, "shop_id") {
            Some(x) => x,
            None => {
                return None;
            },
        };
        let type_text = match text_field(v, "type") {
            Some(x) => x,
            None => {
                return None;
            },
        };
        let type_field = match WhitelistTypes::from_str(type_text.as_str()) {
            Some(x) => x,
            None => {
                return None;
            },
        };
        let data = match text_field(v, "data") {
            Some(x) => x,
            None => {
                return None;
            },
        };
        let note = match text_field(v, "note") {
            Some(x) => x,
            None => {
                return None;
            },
        };
        let created_at = match u64_field(v, "created_at") {
            Some(x) => x,
            None => {
                return None;
            },
        };
        let updated_at = match u64_field(v, "updated_at") {
            Some(x) => x,
            None => {
                return None;
            },
        };
        let updated_by = match u64_field(v, "updated_by") {
            Some(x) => x,
            None => {
                return None;
            },
        };
        Some(
            WhitelistRaw {
                id,
                uniqid,
                shop_id,
                type_field,
                data,
                note,
                created_at,
                updated_at,
                updated_by,
            },
        )
    }
}

} // verus!
