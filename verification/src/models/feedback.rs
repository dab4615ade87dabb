//! The feedback resource: what customers leave and merchants reply to.

use vstd::prelude::*;
use crate::json::JsonValue;
use crate::json::spec_get;
use crate::models::RawAPIResponse;

verus! {

/// The outcome of an appeal.
/// Used by [`FeedbackRaw`].
#[derive(Clone, Copy, Debug, PartialEq, Eq, Structural)]
pub enum AppealOutcome {
    NoAppealAvailable,
    Approved,
    Rejected,
}

/// The possible feedback scores; zero means no score has been left.
/// Used in [`FeedbackRaw`].
#[derive(Clone, Copy, Debug, PartialEq, Eq, Structural)]
pub enum FeedbackScore {
    Zero,
    One,
    Two,
    Three,
    Four,
    Five,
}

impl FeedbackScore {
    /// The number this score stands for.
    pub open spec fn spec_value(self) -> u64 {
        match self {
            FeedbackScore::Zero => 0,
            FeedbackScore::One => 1,
            FeedbackScore::Two => 2,
            FeedbackScore::Three => 3,
            FeedbackScore::Four => 4,
            FeedbackScore::Five => 5,
        }
    }

    /// Returns the number this score stands for.
    pub fn value(&self) -> (r: u64)
        ensures
            r == self.spec_value(),
    {
        match self {
            FeedbackScore::Zero => 0,
            FeedbackScore::One => 1,
            FeedbackScore::Two => 2,
            FeedbackScore::Three => 3,
            FeedbackScore::Four => 4,
            FeedbackScore::Five => 5,
        }
    }

    /// Maps a number back to the score it stands for.
    pub fn from_value(v: u64) -> (r: Option<FeedbackScore>)
        ensures
            r matches Some(s) ==> s.spec_value() == v,
            r is None ==> v > 5,
    {
        if v == 0 {
            Some(FeedbackScore::Zero)
        } else if v == 1 {
            Some(FeedbackScore::One)
        } else if v == 2 {
            Some(FeedbackScore::Two)
        } else if v == 3 {
            Some(FeedbackScore::Three)
        } else if v == 4 {
            Some(FeedbackScore::Four)
        } else if v == 5 {
            Some(FeedbackScore::Five)
        } else {
            None
        }
    }
}

/// Represents the raw API response for a feedback object. Timestamps are
/// held as seconds since the epoch; the full invoice and product objects
/// ride along as plain JSON values.
#[derive(Debug)]
pub struct FeedbackRaw {
    /// ID of the resource.
    pub id: u64,
    /// Unique ID of the resource, used as reference across the API.
    pub uniqid: String,
    /// Unique ID of the product for which this feedback has been posted.
    pub product_id: String,
    /// Unique ID of the invoice for which this feedback has been posted.
    pub invoice_id: String,
    /// If `true`, this feedback has been blocked after an appeal.
    pub blocked: bool,
    /// If `true`, an appeal has been created for this feedback.
    pub appealed: bool,
    /// Not always available.
    pub appeal_outcome: AppealOutcome,
    /// The shop ID to which this feedback belongs.
    pub shop_id: u64,
    /// Message left by the customer.
    pub message: String,
    /// Reply left by the merchant.
    pub reply: String,
    /// Score left by the customer, if zero no score has been left.
    pub score: FeedbackScore,
    /// Product title for which this feedback has been created.
    pub product_title: String,
    /// Deprecated.
    pub product_image_name: Option<String>,
    /// Deprecated.
    pub product_image_storage: Option<String>,
    /// The cloudflare image ID of this product, replacing the deprecated
    /// image fields.
    pub cloudflare_image_id: String,
    /// Contains the full invoice object for this feedback.
    pub invoice: JsonValue,
    /// Contains the full product object for this feedback.
    pub product: JsonValue,
    /// Creation date of the feedback, in seconds since the epoch.
    pub created_at: u64,
    /// Date, available if the feedback has been edited.
    pub updated_at: Option<u64>,
    /// User ID, available if the feedback has been edited.
    pub updated_by: Option<u64>,
}

/// The one-record wrapper a get reply carries the feedback in.
#[derive(Debug)]
pub struct FeedbackOneRaw {
    pub feedback: FeedbackRaw,
}

/// The reply envelope of a feedback get.
pub type FeedbackGetResponseRaw = RawAPIResponse<FeedbackOneRaw>;

/// The array wrapper a list reply carries the feedback records in.
#[derive(Debug)]
pub struct FeedbackArray {
    pub feedbacks: Vec<FeedbackRaw>,
}

/// The reply envelope of a feedback list.
pub type FeedbackListResponseRaw = RawAPIResponse<FeedbackArray>;

/// Payload for replying to feedback.
#[derive(Clone, Debug)]
pub struct FeedbackReplyPayload {
    pub reply: String,
}

impl FeedbackReplyPayload {
    /// Encodes this payload as the JSON object the reply endpoint takes:
    /// one `reply` field holding the merchant's text.
    pub fn to_json(&self) -> (r: JsonValue)
        ensures
            r is Obj,
            spec_get(r, "reply"@) matches Some(v) && v.spec_as_str() == Some(self.reply@),
    {
        let mut fields: Vec<(String, JsonValue)> = Vec::new();
        fields.push(("reply".to_owned(), JsonValue::Str(self.reply.clone())));
        let r = JsonValue::Obj(fields);
        proof {
            assert(spec_get(r, "reply"@) == Some(fields@[0].1));
        }
        r
    }
}

} // verus!
