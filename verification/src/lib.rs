//! A typed client library for the Sellix e-commerce API.
//!
//! The crate models the API's JSON resources (blacklists, whitelists,
//! categories, coupons, customers, orders, queries, subscriptions,
//! feedback), plans the CRUD requests against them, interprets the
//! response envelopes the server embeds in its replies, and verifies
//! webhook signatures. Network transport is left to the caller: the
//! library turns intents into request plans and response bodies into
//! typed results.

pub mod api;
pub mod client;
pub mod envelope;
pub mod hashes;
pub mod json;
pub mod models;
pub mod request;

use vstd::prelude::*;
use vstd::string::StringSliceAdditionalSpecFns;
use crate::hashes::bytes_eq;
use crate::hashes::hex_decode;
use crate::hashes::hmac_sha512;
use crate::hashes::hmac_sha512_of;
use crate::hashes::spec_hex_decode;
use crate::json::spec_u64_digits;
use crate::json::u64_to_string;
use crate::models::payment::PaymentGateway;

verus! {

/// Verifies the authenticity of a webhook request and its payload: the
/// signature, hex-encoded, must decode to the HMAC-SHA512 tag of the body
/// under the webhook secret. A malformed signature fails the check rather
/// than aborting. The body must be a JSON-string.
pub fn verify_signature(webhook_secret: &str, signature: &str, body: &str) -> (r: bool)
    ensures
        r == (spec_hex_decode(signature@) == Some(
            hmac_sha512_of(webhook_secret.spec_bytes(), body.spec_bytes()),
        )),
{
    let decoded = match hex_decode(signature) {
        Some(d) => d,
        None => {
            return false;
        },
    };
    let mac = hmac_sha512(webhook_secret.as_bytes(), body.as_bytes());
    bytes_eq(decoded.as_slice(), mac.as_slice())
}

/// A signature is bound to the body it was computed over: whenever the
/// keyed digests of two bodies differ, a tag that is the digest of the
/// first cannot equal the digest of the second, so a verification that
/// accepts the one rejects the other.
pub proof fn lemma_signature_binds_body(
    secret: Seq<u8>,
    tag: Seq<u8>,
    body_one: Seq<u8>,
    body_two: Seq<u8>,
)
    requires
        tag == hmac_sha512_of(secret, body_one),
        hmac_sha512_of(secret, body_two) != hmac_sha512_of(secret, body_one),
    ensures
        tag != hmac_sha512_of(secret, body_two),
{
}

/// Used in [`ProductQuerystringBuilder`].
#[derive(Clone, Copy, Debug, PartialEq, Eq, Structural)]
pub enum QueryStep {
    /// The default checkout step (product details).
    Default,
    /// The gateway choice step.
    Choice,
    /// The email and pay button step.
    EmailAndPay,
}

impl QueryStep {
    /// The number this step is sent as.
    pub open spec fn spec_value(self) -> u64 {
        match self {
            QueryStep::Default => 0,
            QueryStep::Choice => 1,
            QueryStep::EmailAndPay => 3,
        }
    }

    /// Returns the number this step is sent as.
    pub fn value(&self) -> (r: u64)
        ensures
            r == self.spec_value(),
    {
        match self {
            QueryStep::Default => 0,
            QueryStep::Choice => 1,
            QueryStep::EmailAndPay => 3,
        }
    }
}

/// Joins one more query parameter onto what is already there: parameters
/// are separated by ampersands, and the first one starts the text.
pub open spec fn spec_append_param(acc: Seq<char>, item: Seq<char>) -> Seq<char> {
    if acc.len() == 0 {
        item
    } else {
        acc + "&"@ + item
    }
}

/// Joins every custom field, as `name=value`, onto `acc` in order.
pub open spec fn spec_custom_params(acc: Seq<char>, fields: Seq<(String, String)>) -> Seq<char>
    decreases fields.len(),
{
    if fields.len() == 0 {
        acc
    } else {
        spec_custom_params(
            spec_append_param(acc, fields[0].0@ + "="@ + fields[0].1@),
            fields.drop_first(),
        )
    }
}

/// Appends one query parameter to the text built so far.
fn append_param(params: &mut String, item: &str)
    ensures
        final(params)@ == spec_append_param(old(params)@, item@),
{
    if params.as_str().is_empty() {
        params.append(item);
        proof {
            assert(old(params)@ + item@ =~= item@);
        }
    } else {
        params.append("&");
        params.append(item);
    }
}

/// The value under `key` among the custom fields, if any: the fields
/// behave as a map keyed by name, read at the first occurrence.
pub open spec fn spec_field_value(fields: Seq<(String, String)>, key: Seq<char>) -> Option<
    Seq<char>,
>
    decreases fields.len(),
{
    if fields.len() == 0 {
        None
    } else if fields[0].0@ == key {
        Some(fields[0].1@)
    } else {
        spec_field_value(fields.drop_first(), key)
    }
}

proof fn lemma_field_value_skip(fields: Seq<(String, String)>, key: Seq<char>, i: int)
    requires
        0 <= i <= fields.len(),
        forall|j: int| 0 <= j < i ==> #[trigger] fields[j].0@ != key,
    ensures
        spec_field_value(fields, key) == spec_field_value(fields.skip(i), key),
    decreases i,
{
    if i > 0 {
        lemma_field_value_skip(fields, key, i - 1);
        assert(fields.skip(i - 1).drop_first() =~= fields.skip(i));
        assert(fields.skip(i - 1)[0] == fields[i - 1]);
    } else {
        assert(fields.skip(0) =~= fields);
    }
}

proof fn lemma_field_value_pointwise(a: Seq<(String, String)>, b: Seq<(String, String)>, k: Seq<char>)
    requires
        a.len() == b.len(),
        forall|j: int| 0 <= j < a.len() ==> #[trigger] a[j].0@ == b[j].0@,
        forall|j: int| 0 <= j < a.len() && (#[trigger] a[j].0@) == k ==> a[j].1@ == b[j].1@,
    ensures
        spec_field_value(a, k) == spec_field_value(b, k),
    decreases a.len(),
{
    if a.len() > 0 {
        assert(a[0].0@ == b[0].0@);
        if a[0].0@ == k {
        } else {
            lemma_field_value_pointwise(a.drop_first(), b.drop_first(), k);
        }
    }
}

proof fn lemma_field_value_push(a: Seq<(String, String)>, pair: (String, String), k: Seq<char>)
    ensures
        spec_field_value(a, k) is Some ==> spec_field_value(a.push(pair), k) == spec_field_value(
            a,
            k,
        ),
        spec_field_value(a, k) is None && k == pair.0@ ==> spec_field_value(a.push(pair), k)
            == Some(pair.1@),
        spec_field_value(a, k) is None && k != pair.0@ ==> spec_field_value(a.push(pair), k)
            is None,
    decreases a.len(),
{
    let appended = a.push(pair);
    if a.len() == 0 {
        assert(appended[0] == pair);
        assert(appended.drop_first() =~= Seq::<(String, String)>::empty());
        if k != pair.0@ {
            assert(spec_field_value(appended, k) == spec_field_value(appended.drop_first(), k));
        }
    } else {
        assert(appended[0] == a[0]);
        assert(appended.drop_first() =~= a.drop_first().push(pair));
        lemma_field_value_push(a.drop_first(), pair, k);
        if a[0].0@ == k {
            assert(spec_field_value(appended, k) == Some(a[0].1@));
            assert(spec_field_value(a, k) == Some(a[0].1@));
        } else {
            assert(spec_field_value(appended, k) == spec_field_value(
                a.drop_first().push(pair),
                k,
            ));
            assert(spec_field_value(a, k) == spec_field_value(a.drop_first(), k));
        }
    }
}

/// Allows merchants to share links to their products on their Sellix
/// website; such links can have querystring parameters added to them, for
/// the quantity, the payment gateway, the checkout step, the customer's
/// email, a coupon code, and any further custom fields.
#[derive(Clone, Debug)]
pub struct ProductQuerystringBuilder {
    pub store_name: String,
    pub uniqid: String,
    /// Any more custom fields, rendered in the order they were added.
    pub custom_fields: Vec<(String, String)>,
    /// Specifies the number of the same product to purchase.
    pub quantity: Option<u64>,
    /// Specifies which payment gateway should be selected.
    pub gateway: Option<PaymentGateway>,
    /// Specifies which step of the checkout process should be displayed.
    pub step: Option<QueryStep>,
    /// The customer's email address.
    pub email: Option<String>,
    /// The code of a coupon that should be applied automatically.
    pub coupon_code: Option<String>,
}

impl ProductQuerystringBuilder {
    /// The query parameters this builder renders, in their fixed order.
    pub open spec fn spec_params(self) -> Seq<char> {
        let with_quantity = match self.quantity {
            Some(q) => spec_append_param(Seq::<char>::empty(), "quantity="@ + spec_u64_digits(q)),
            None => Seq::<char>::empty(),
        };
        let with_gateway = match self.gateway {
            Some(g) => spec_append_param(with_quantity, "gateway="@ + g.spec_as_str()),
            None => with_quantity,
        };
        let with_step = match self.step {
            Some(s) => spec_append_param(with_gateway, "step="@ + spec_u64_digits(s.spec_value())),
            None => with_gateway,
        };
        let with_email = match self.email {
            Some(e) => spec_append_param(with_step, "email="@ + e@),
            None => with_step,
        };
        let with_coupon = match self.coupon_code {
            Some(c) => spec_append_param(with_email, "couponCode="@ + c@),
            None => with_email,
        };
        spec_custom_params(with_coupon, self.custom_fields@)
    }

    /// The whole link this builder renders: the product page on the
    /// store's own domain, with the query parameters after it; with no
    /// parameters, the bare page.
    pub open spec fn spec_build(self) -> Seq<char> {
        let base = "https://"@ + self.store_name@ + ".mysellix.io/product/"@ + self.uniqid@;
        if self.spec_params().len() == 0 {
            base
        } else {
            base + "?"@ + self.spec_params()
        }
    }

    /// Initialises a builder.
    pub fn new(store_name: &str, uniqid: &str) -> (r: Self)
        ensures
            r.store_name@ == store_name@,
            r.uniqid@ == uniqid@,
            r.custom_fields@.len() == 0,
            r.quantity is None,
            r.gateway is None,
            r.step is None,
            r.email is None,
            r.coupon_code is None,
    {
        Self {
            store_name: store_name.to_owned(),
            uniqid: uniqid.to_owned(),
            custom_fields: Vec::new(),
            quantity: None,
            gateway: None,
            step: None,
            email: None,
            coupon_code: None,
        }
    }

    /// Sets the quantity.
    pub fn quantity(self, quantity: u64) -> (r: Self)
        ensures
            r == (Self { quantity: Some(quantity), ..self }),
    {
        Self { quantity: Some(quantity), ..self }
    }

    /// Sets the gateway.
    pub fn gateway(self, gateway: PaymentGateway) -> (r: Self)
        ensures
            r == (Self { gateway: Some(gateway), ..self }),
    {
        Self { gateway: Some(gateway), ..self }
    }

    /// Sets the step.
    pub fn step(self, step: QueryStep) -> (r: Self)
        ensures
            r == (Self { step: Some(step), ..self }),
    {
        Self { step: Some(step), ..self }
    }

    /// Sets the email.
    pub fn email(self, email: &str) -> (r: Self)
        ensures
            r.email matches Some(e) && e@ == email@,
            r.store_name == self.store_name,
            r.uniqid == self.uniqid,
            r.custom_fields == self.custom_fields,
            r.quantity == self.quantity,
            r.gateway == self.gateway,
            r.step == self.step,
            r.coupon_code == self.coupon_code,
    {
        Self { email: Some(email.to_owned()), ..self }
    }

    /// Sets the coupon code.
    pub fn coupon_code(self, coupon_code: &str) -> (r: Self)
        ensures
            r.coupon_code matches Some(c) && c@ == coupon_code@,
            r.store_name == self.store_name,
            r.uniqid == self.uniqid,
            r.custom_fields == self.custom_fields,
            r.quantity == self.quantity,
            r.gateway == self.gateway,
            r.step == self.step,
            r.email == self.email,
    {
        Self { coupon_code: Some(coupon_code.to_owned()), ..self }
    }

    /// Add a custom field. The fields behave as a map keyed by name: a
    /// new name is appended, and adding a field under an existing name
    /// replaces its value, so the built link carries each name once.
    pub fn add_custom_field(self, key: &str, value: &str) -> (r: Self)
        ensures
            spec_field_value(r.custom_fields@, key@) == Some(value@),
            forall|k: Seq<char>| k != key@ ==> spec_field_value(r.custom_fields@, k)
                == spec_field_value(self.custom_fields@, k),
            spec_field_value(self.custom_fields@, key@) is Some ==> {
                &&& r.custom_fields@.len() == self.custom_fields@.len()
                &&& forall|j: int| 0 <= j < r.custom_fields@.len()
                    ==> #[trigger] r.custom_fields@[j].0@ == self.custom_fields@[j].0@
            },
            spec_field_value(self.custom_fields@, key@) is None ==> {
                &&& r.custom_fields@.len() == self.custom_fields@.len() + 1
                &&& r.custom_fields@.drop_last() == self.custom_fields@
                &&& r.custom_fields@.last().0@ == key@
                &&& r.custom_fields@.last().1@ == value@
            },
            r.store_name == self.store_name,
            r.uniqid == self.uniqid,
            r.quantity == self.quantity,
            r.gateway == self.gateway,
            r.step == self.step,
            r.email == self.email,
            r.coupon_code == self.coupon_code,
    {
        let key_owned = key.to_owned();
        let mut with_field = self;
        let n = with_field.custom_fields.len();
        let mut i: usize = 0;
        while i < n
            invariant
                with_field == self,
                n == with_field.custom_fields@.len(),
                0 <= i <= n,
                key_owned@ == key@,
                forall|j: int| 0 <= j < i ==> #[trigger] with_field.custom_fields@[j].0@ != key@,
            decreases n - i,
        {
            if with_field.custom_fields[i].0 == key_owned {
                let ghost before = with_field.custom_fields@;
                with_field.custom_fields.remove(i);
                with_field.custom_fields.insert(i, (key_owned, value.to_owned()));
                proof {
                    let after = with_field.custom_fields@;
                    assert(after =~= before.update(i as int, after[i as int]));
                    lemma_field_value_skip(after, key@, i as int);
                    assert(after.skip(i as int)[0] == after[i as int]);
                    lemma_field_value_skip(before, key@, i as int);
                    assert(before.skip(i as int)[0] == before[i as int]);
                    assert(spec_field_value(before, key@) == Some(before[i as int].1@));
                    assert forall|k: Seq<char>| k != key@ implies spec_field_value(after, k)
                        == spec_field_value(before, k) by {
                        lemma_field_value_pointwise(before, after, k);
                    }
                }
                return with_field;
            }
            i += 1;
        }
        proof {
            lemma_field_value_skip(with_field.custom_fields@, key@, n as int);
            assert(with_field.custom_fields@.skip(n as int) =~= Seq::<(String, String)>::empty());
        }
        let ghost before = with_field.custom_fields@;
        with_field.custom_fields.push((key_owned, value.to_owned()));
        proof {
            let after = with_field.custom_fields@;
            assert(after.drop_last() =~= before);
            lemma_field_value_push(before, after.last(), key@);
            assert forall|k: Seq<char>| k != key@ implies spec_field_value(after, k)
                == spec_field_value(before, k) by {
                lemma_field_value_push(before, after.last(), k);
            }
        }
        with_field
    }

    /// Builds the string to a URL.
    pub fn build(&self) -> (r: String)
        ensures
            r@ == self.spec_build(),
    {
        let mut params = String::new();
        if let Some(q) = self.quantity {
            let mut item = "quantity=".to_owned();
            let digits = u64_to_string(q);
            item.append(digits.as_str());
            append_param(&mut params, item.as_str());
        }
        if let Some(g) = &self.gateway {
            let mut item = "gateway=".to_owned();
            item.append(g.as_str());
            append_param(&mut params, item.as_str());
        }
        if let Some(s) = &self.step {
            let mut item = "step=".to_owned();
            let digits = u64_to_string(s.value());
            item.append(digits.as_str());
            append_param(&mut params, item.as_str());
        }
        if let Some(e) = &self.email {
            let mut item = "email=".to_owned();
            item.append(e.as_str());
            append_param(&mut params, item.as_str());
        }
        if let Some(c) = &self.coupon_code {
            let mut item = "couponCode=".to_owned();
            item.append(c.as_str());
            append_param(&mut params, item.as_str());
        }
        let ghost before_fields = params@;
        proof {
            assert(self.custom_fields@.skip(0) =~= self.custom_fields@);
        }
        let n = self.custom_fields.len();
        let mut i: usize = 0;
        while i < n
            invariant
                n == self.custom_fields@.len(),
                0 <= i <= n,
                spec_custom_params(params@, self.custom_fields@.skip(i as int))
                    == spec_custom_params(before_fields, self.custom_fields@),
            decreases n - i,
        {
            let mut item = self.custom_fields[i].0.clone();
            item.append("=");
            item.append(self.custom_fields[i].1.as_str());
            proof {
                assert(self.custom_fields@.skip(i as int)[0] == self.custom_fields@[i as int]);
                assert(self.custom_fields@.skip(i as int).drop_first() =~= self.custom_fields@.skip(
                    i + 1 as int,
                ));
            }
            append_param(&mut params, item.as_str());
            i += 1;
        }
        proof {
            assert(self.custom_fields@.skip(n as int) =~= Seq::<(String, String)>::empty());
            assert(spec_custom_params(params@, Seq::<(String, String)>::empty()) == params@);
        }
        let mut out = "https://".to_owned();
        out.append(self.store_name.as_str());
        out.append(".mysellix.io/product/");
        out.append(self.uniqid.as_str());
        if !params.as_str().is_empty() {
            out.append("?");
            out.append(params.as_str());
        }
        out
    }
}

} // verus!
