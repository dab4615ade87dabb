//! The customer resource.

use vstd::prelude::*;
use crate::json::JsonValue;
use crate::json::spec_get;
use crate::json::lemma_obj_get_at;
use crate::json::spec_text_field;
use crate::json::spec_u64_field;
use crate::json::text_field;
use crate::json::u64_field;
use crate::models::RawAPIResponse;
use crate::models::UniqidDict;

verus! {

/// Represents the raw API response for a customer object.
#[derive(Clone, Debug)]
pub struct CustomerRaw {
    /// Customer ID.
    pub id: String,
    /// ID of the store this customer is connected to.
    pub shop_id: u64,
    /// Customer name.
    pub name: String,
    /// Customer surname.
    pub surname: String,
    /// Customer phone.
    pub phone: String,
    /// Customer phone country code.
    pub phone_country_code: String,
    /// Customer country code.
    pub country_code: String,
    /// Customer street address.
    pub address: String,
    /// Customer street address additional info.
    pub additional_address_info: String,
    /// Customer city.
    pub city: String,
    /// Customer postal code.
    pub postal_code: String,
    /// Customer state.
    pub state: String,
    /// Customer email.
    pub email: String,
}

/// The one-record wrapper a get reply carries the customer in.
#[derive(Clone, Debug)]
pub struct CustomerOneRaw {
    pub customer: CustomerRaw,
}

/// The reply envelope of a customer get.
pub type CustomerGetResponseRaw = RawAPIResponse<CustomerOneRaw>;

/// The array wrapper a list reply carries the customers in.
#[derive(Clone, Debug)]
pub struct CustomerArray {
    pub customers: Vec<CustomerRaw>,
}

/// The reply envelope of a customer list.
pub type CustomerListResponseRaw = RawAPIResponse<CustomerArray>;

/// The reply envelope of a customer create.
pub type CustomerCreateResponseRaw = RawAPIResponse<UniqidDict>;

/// Represents the payload for creating (or updating) a customer.
#[derive(Clone, Debug)]
pub struct CustomerCreatePayload {
    /// Customer name.
    pub name: String,
    /// Customer surname.
    pub surname: String,
    /// Customer phone.
    pub phone: Option<String>,
    /// Customer phone country code.
    pub phone_country_code: Option<String>,
    /// Customer country code.
    pub country_code: Option<String>,
    /// Customer street address.
    pub address: Option<String>,
    /// Customer street address additional info.
    pub additional_address_info: Option<String>,
    /// Customer city.
    pub city: Option<String>,
    /// Customer postal code.
    pub postal_code: Option<String>,
    /// Customer state.
    pub state: Option<String>,
    /// Customer email.
    pub email: String,
}

} // verus!

verus! {

impl CustomerCreatePayload {
    /// Encodes this payload as the JSON object the create and update
    /// endpoints take: one field per documented key, with an absent
    /// optional sent as `null`.
    pub fn to_json(&self) -> (r: JsonValue)
        ensures
            r is Obj,
            spec_get(r, "name"@) matches Some(v) && v.spec_as_str() == Some(self.name@),
            spec_get(r, "surname"@) matches Some(v) && v.spec_as_str() == Some(self.surname@),
            match self.phone {
                Some(x) => spec_get(r, "phone"@) matches Some(v) && v.spec_as_str() == Some(x@),
                None => spec_get(r, "phone"@) == Some(JsonValue::Null),
            },
            match self.phone_country_code {
                Some(x) => spec_get(r, "phone_country_code"@) matches Some(v) && v.spec_as_str() == Some(x@),
                None => spec_get(r, "phone_country_code"@) == Some(JsonValue::Null),
            },
            match self.country_code {
                Some(x) => spec_get(r, "country_code"@) matches Some(v) && v.spec_as_str() == Some(x@),
                None => spec_get(r, "country_code"@) == Some(JsonValue::Null),
            },
            match self.address {
                Some(x) => spec_get(r, "address"@) matches Some(v) && v.spec_as_str() == Some(x@),
                None => spec_get(r, "address"@) == Some(JsonValue::Null),
            },
            match self.additional_address_info {
                Some(x) => spec_get(r, "additional_address_info"@) matches Some(v) && v.spec_as_str() == Some(x@),
                None => spec_get(r, "additional_address_info"@) == Some(JsonValue::Null),
            },
            match self.city {
                Some(x) => spec_get(r, "city"@) matches Some(v) && v.spec_as_str() == Some(x@),
                None => spec_get(r, "city"@) == Some(JsonValue::Null),
            },
            match self.postal_code {
                Some(x) => spec_get(r, "postal_code"@) matches Some(v) && v.spec_as_str() == Some(x@),
                None => spec_get(r, "postal_code"@) == Some(JsonValue::Null),
            },
            match self.state {
                Some(x) => spec_get(r, "state"@) matches Some(v) && v.spec_as_str() == Some(x@),
                None => spec_get(r, "state"@) == Some(JsonValue::Null),
            },
            spec_get(r, "email"@) matches Some(v) && v.spec_as_str() == Some(self.email@),
    {
        let mut fields: Vec<(String, JsonValue)> = Vec::new();
        fields.push(("name".to_owned(), JsonValue::Str(self.name.clone())));
        fields.push(("surname".to_owned(), JsonValue::Str(self.surname.clone())));
        let phone_value = match &self.phone {
            Some(x) => JsonValue::Str(x.clone()),
            None => JsonValue::Null,
        };
        fields.push(("phone".to_owned(), phone_value));
        let phone_country_code_value = match &self.phone_country_code {
            Some(x) => JsonValue::Str(x.clone()),
            None => JsonValue::Null,
        };
        fields.push(("phone_country_code".to_owned(), phone_country_code_value));
        let country_code_value = match &self.country_code {
            Some(x) => JsonValue::Str(x.clone()),
            None => JsonValue::Null,
        };
        fields.push(("country_code".to_owned(), country_code_value));
        let address_value = match &self.address {
            Some(x) => JsonValue::Str(x.clone()),
            None => JsonValue::Null,
        };
        fields.push(("address".to_owned(), address_value));
        let additional_address_info_value = match &self.additional_address_info {
            Some(x) => JsonValue::Str(x.clone()),
            None => JsonValue::Null,
        };
        fields.push(("additional_address_info".to_owned(), additional_address_info_value));
        let city_value = match &self.city {
            Some(x) => JsonValue::Str(x.clone()),
            None => JsonValue::Null,
        };
        fields.push(("city".to_owned(), city_value));
        let postal_code_value = match &self.postal_code {
            Some(x) => JsonValue::Str(x.clone()),
            None => JsonValue::Null,
        };
        fields.push(("postal_code".to_owned(), postal_code_value));
        let state_value = match &self.state {
            Some(x) => JsonValue::Str(x.clone()),
            None => JsonValue::Null,
        };
        fields.push(("state".to_owned(), state_value));
        fields.push(("email".to_owned(), JsonValue::Str(self.email.clone())));
        let r = JsonValue::Obj(fields);
        proof {
            reveal_strlit("name");
            reveal_strlit("surname");
            reveal_strlit("phone");
            reveal_strlit("phone_country_code");
            reveal_strlit("country_code");
            reveal_strlit("address");
            reveal_strlit("additional_address_info");
            reveal_strlit("city");
            reveal_strlit("postal_code");
            reveal_strlit("state");
            reveal_strlit("email");
            assert("name"@.len() == 4 && "name"@[0] == 'n' && "name"@[1] == 'a');
            assert("surname"@.len() == 7 && "surname"@[0] == 's' && "surname"@[1] == 'u');
            assert("phone"@.len() == 5 && "phone"@[0] == 'p' && "phone"@[1] == 'h');
            assert("phone_country_code"@.len() == 18 && "phone_country_code"@[0] == 'p' && "phone_country_code"@[1] == 'h');
            assert("country_code"@.len() == 12 && "country_code"@[0] == 'c' && "country_code"@[1] == 'o');
            assert("address"@.len() == 7 && "address"@[0] == 'a' && "address"@[1] == 'd');
            assert("additional_address_info"@.len() == 23 && "additional_address_info"@[0] == 'a' && "additional_address_info"@[1] == 'd');
            assert("city"@.len() == 4 && "city"@[0] == 'c' && "city"@[1] == 'i');
            assert("postal_code"@.len() == 11 && "postal_code"@[0] == 'p' && "postal_code"@[1] == 'o');
            assert("state"@.len() == 5 && "state"@[0] == 's' && "state"@[1] == 't');
            assert("email"@.len() == 5 && "email"@[0] == 'e' && "email"@[1] == 'm');
            lemma_obj_get_at(fields@, 0);
            lemma_obj_get_at(fields@, 1);
            lemma_obj_get_at(fields@, 2);
            lemma_obj_get_at(fields@, 3);
            lemma_obj_get_at(fields@, 4);
            lemma_obj_get_at(fields@, 5);
            lemma_obj_get_at(fields@, 6);
            lemma_obj_get_at(fields@, 7);
            lemma_obj_get_at(fields@, 8);
            lemma_obj_get_at(fields@, 9);
            lemma_obj_get_at(fields@, 10);
            assert(spec_get(r, "name"@) == Some(fields@[0].1));
            assert(spec_get(r, "surname"@) == Some(fields@[1].1));
            assert(spec_get(r, "phone"@) == Some(fields@[2].1));
            assert(spec_get(r, "phone_country_code"@) == Some(fields@[3].1));
            assert(spec_get(r, "country_code"@) == Some(fields@[4].1));
            assert(spec_get(r, "address"@) == Some(fields@[5].1));
            assert(spec_get(r, "additional_address_info"@) == Some(fields@[6].1));
            assert(spec_get(r, "city"@) == Some(fields@[7].1));
            assert(spec_get(r, "postal_code"@) == Some(fields@[8].1));
            assert(spec_get(r, "state"@) == Some(fields@[9].1));
            assert(spec_get(r, "email"@) == Some(fields@[10].1));
        }
        r
    }
}

} // verus!

verus! {

/// Whether `v` carries every field a customer record owes: the customer
/// id and every detail as strings, the shop id as a non-negative integer.
pub open spec fn spec_customer_decodable(v: JsonValue) -> bool {
    &&& spec_text_field(v, "id"@) is Some
    &&& spec_u64_field(v, "shop_id"@) is Some
    &&& spec_text_field(v, "name"@) is Some
    &&& spec_text_field(v, "surname"@) is Some
    &&& spec_text_field(v, "phone"@) is Some
    &&& spec_text_field(v, "phone_country_code"@) is Some
    &&& spec_text_field(v, "country_code"@) is Some
    &&& spec_text_field(v, "address"@) is Some
    &&& spec_text_field(v, "additional_address_info"@) is Some
    &&& spec_text_field(v, "city"@) is Some
    &&& spec_text_field(v, "postal_code"@) is Some
    &&& spec_text_field(v, "state"@) is Some
    &&& spec_text_field(v, "email"@) is Some
}

impl CustomerRaw {
    /// Decodes a customer record out of the JSON object a get or list
    /// reply carries it as. Succeeds exactly when every field is there
    /// with its documented shape, and then each field of the record is the
    /// field of the object.
    pub fn from_json(v: &JsonValue) -> (r: Option<CustomerRaw>)
        ensures
            r is Some <==> spec_customer_decodable(*v),
            r matches Some(c) ==> {
                &&& spec_text_field(*v, "id"@) == Some(c.id@)
                &&& spec_u64_field(*v, "shop_id"@) == Some(c.shop_id)
                &&& spec_text_field(*v, "name"@) == Some(c.name@)
                &&& spec_text_field(*v, "surname"@) == Some(c.surname@)
                &&& spec_text_field(*v, "phone"@) == Some(c.phone@)
                &&& spec_text_field(*v, "phone_country_code"@) == Some(c.phone_country_code@)
                &&& spec_text_field(*v, "country_code"@) == Some(c.country_code@)
                &&& spec_text_field(*v, "address"@) == Some(c.address@)
                &&& spec_text_field(*v, "additional_address_info"@) == Some(
                    c.additional_address_info@,
                )
                &&& spec_text_field(*v, "city"@) == Some(c.city@)
                &&& spec_text_field(*v, "postal_code"@) == Some(c.postal_code@)
                &&& spec_text_field(*v, "state"@) == Some(c.state@)
                &&& spec_text_field(*v, "email"@) == Some(c.email@)
            },
    {
        let id = match text_field(v, "id") {
            Some(x) => x,
            None => {
                return None;
            },
        };
        let shop_id = match u64_field(v, "shop_id") {
            Some(x) => x,
            None => {
                return None;
            },
        };
        let name = match text_field(v, "name") {
            Some(x) => x,
            None => {
                return None;
            },
        };
        let surname = match text_field(v, "surname") {
            Some(x) => x,
            None => {
                return None;
            },
        };
        let phone = match text_field(v, "phone") {
            Some(x) => x,
            None => {
                return None;
            },
        };
        let phone_country_code = match text_field(v, "phone_country_code") {
            Some(x) => x,
            None => {
                return None;
            },
        };
        let country_code = match text_field(v, "country_code") {
            Some(x) => x,
            None => {
                return None;
            },
        };
        let address = match text_field(v, "address") {
            Some(x) => x,
            None => {
                return None;
            },
        };
        let additional_address_info = match text_field(v, "additional_address_info") {
            Some(x) => x,
            None => {
                return None;
            },
        };
        let city = match text_field(v, "city") {
            Some(x) => x,
            None => {
                return None;
            },
        };
        let postal_code = match text_field(v, "postal_code") {
            Some(x) => x,
            None => {
                return None;
            },
        };
        let state = match text_field(v, "state") {
            Some(x) => x,
            None => {
                return None;
            },
        };
        let email = match text_field(v, "email") {
            Some(x) => x,
            None => {
                return None;
            },
        };
        Some(
            CustomerRaw {
                id,
                shop_id,
                name,
                surname,
                phone,
                phone_country_code,
                country_code,
                address,
                additional_address_info,
                city,
                postal_code,
                state,
                email,
            },
        )
    }
}

} // verus!
