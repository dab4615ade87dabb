//! Shared wire-level types: the status taxonomy every reply embeds, the
//! response envelope, the identifier dictionary a create returns, and the
//! per-resource data models in the submodules.

pub mod blacklist;
pub mod category;
pub mod coupon;
pub mod customer;
pub mod dispute;
pub mod events;
pub mod feedback;
pub mod groups;
pub mod invoice;
pub mod license;
pub mod order;
pub mod payment;
pub mod product;
pub mod query;
pub mod subscription;
pub mod webhook;
pub mod whitelist;

use vstd::prelude::*;

verus! {

/// Includes all of the base sellix http codes the API can respond with.
#[derive(Clone, Copy, Debug, PartialEq, Eq, Structural)]
pub enum SellixHttpCode {
    Success,
    BadRequest,
    Unauthorized,
    Forbidden,
    NotFound,
    NotAcceptable,
    TooManyRequests,
    InternalServerError,
    ServiceUnavailable,
}

impl SellixHttpCode {
    /// The numeric code the API embeds in its reply bodies for this status.
    pub open spec fn spec_code(self) -> u16 {
        match self {
            SellixHttpCode::Success => 200,
            SellixHttpCode::BadRequest => 400,
            SellixHttpCode::Unauthorized => 401,
            SellixHttpCode::Forbidden => 403,
            SellixHttpCode::NotFound => 404,
            SellixHttpCode::NotAcceptable => 406,
            SellixHttpCode::TooManyRequests => 429,
            SellixHttpCode::InternalServerError => 500,
            SellixHttpCode::ServiceUnavailable => 503,
        }
    }

    /// Returns the numeric code of this status.
    pub fn code(&self) -> (r: u16)
        ensures
            r == self.spec_code(),
    {
        match self {
            SellixHttpCode::Success => 200,
            SellixHttpCode::BadRequest => 400,
            SellixHttpCode::Unauthorized => 401,
            SellixHttpCode::Forbidden => 403,
            SellixHttpCode::NotFound => 404,
            SellixHttpCode::NotAcceptable => 406,
            SellixHttpCode::TooManyRequests => 429,
            SellixHttpCode::InternalServerError => 500,
            SellixHttpCode::ServiceUnavailable => 503,
        }
    }

    /// The status a numeric code stands for, if it is one of the known
    /// codes; any other number is unrecognized.
    pub open spec fn spec_from_code(code: u64) -> Option<SellixHttpCode> {
        if code == 200 {
            Some(SellixHttpCode::Success)
        } else if code == 400 {
            Some(SellixHttpCode::BadRequest)
        } else if code == 401 {
            Some(SellixHttpCode::Unauthorized)
        } else if code == 403 {
            Some(SellixHttpCode::Forbidden)
        } else if code == 404 {
            Some(SellixHttpCode::NotFound)
        } else if code == 406 {
            Some(SellixHttpCode::NotAcceptable)
        } else if code == 429 {
            Some(SellixHttpCode::TooManyRequests)
        } else if code == 500 {
            Some(SellixHttpCode::InternalServerError)
        } else if code == 503 {
            Some(SellixHttpCode::ServiceUnavailable)
        } else {
            None
        }
    }

    /// Maps a numeric code back to the status it stands for, if it is one
    /// of the known codes; any other number is unrecognized.
    pub fn from_code(code: u64) -> (r: Option<SellixHttpCode>)
        ensures
            r == SellixHttpCode::spec_from_code(code),
            r matches Some(c) ==> c.spec_code() == code,
            r is None ==> forall|c: SellixHttpCode| c.spec_code() != code,
    {
        if code == 200 {
            Some(SellixHttpCode::Success)
        } else if code == 400 {
            Some(SellixHttpCode::BadRequest)
        } else if code == 401 {
            Some(SellixHttpCode::Unauthorized)
        } else if code == 403 {
            Some(SellixHttpCode::Forbidden)
        } else if code == 404 {
            Some(SellixHttpCode::NotFound)
        } else if code == 406 {
            Some(SellixHttpCode::NotAcceptable)
        } else if code == 429 {
            Some(SellixHttpCode::TooManyRequests)
        } else if code == 500 {
            Some(SellixHttpCode::InternalServerError)
        } else if code == 503 {
            Some(SellixHttpCode::ServiceUnavailable)
        } else {
            None
        }
    }

    /// The short name of this status.
    pub open spec fn spec_name(self) -> Seq<char> {
        match self {
            SellixHttpCode::Success => "Ok"@,
            SellixHttpCode::BadRequest => "Bad Request"@,
            SellixHttpCode::Unauthorized => "Unauthorized"@,
            SellixHttpCode::Forbidden => "Forbidden"@,
            SellixHttpCode::NotFound => "Not Found"@,
            SellixHttpCode::NotAcceptable => "Not Acceptable"@,
            SellixHttpCode::TooManyRequests => "Too Many Requests"@,
            SellixHttpCode::InternalServerError => "Internal Server Error"@,
            SellixHttpCode::ServiceUnavailable => "Service Unavailable"@,
        }
    }

    /// Returns the name of the error code.
    pub fn name(&self) -> (r: &str)
        ensures
            r@ == self.spec_name(),
    {
        match self {
            SellixHttpCode::Success => "Ok",
            SellixHttpCode::BadRequest => "Bad Request",
            SellixHttpCode::Unauthorized => "Unauthorized",
            SellixHttpCode::Forbidden => "Forbidden",
            SellixHttpCode::NotFound => "Not Found",
            SellixHttpCode::NotAcceptable => "Not Acceptable",
            SellixHttpCode::TooManyRequests => "Too Many Requests",
            SellixHttpCode::InternalServerError => "Internal Server Error",
            SellixHttpCode::ServiceUnavailable => "Service Unavailable",
        }
    }

    /// The human-readable description of this status.
    pub open spec fn spec_description(self) -> Seq<char> {
        match self {
            SellixHttpCode::Success => "Request successful"@,
            SellixHttpCode::BadRequest => "Invalid parameters"@,
            SellixHttpCode::Unauthorized => "Unable to authenticate"@,
            SellixHttpCode::Forbidden => "The request is not allowed"@,
            SellixHttpCode::NotFound => "The specified resource could not be found."@,
            SellixHttpCode::NotAcceptable => "You requested a format that isn't json."@,
            SellixHttpCode::TooManyRequests => "You have reached the rate limit"@,
            SellixHttpCode::InternalServerError => "We had a problem with our server. Try again later. These are rare."@,
            SellixHttpCode::ServiceUnavailable => "We're temporarily offline for maintenance. Please try again later."@,
        }
    }

    /// Returns a description of the error code.
    pub fn description(&self) -> (r: &str)
        ensures
            r@ == self.spec_description(),
    {
        match self {
            SellixHttpCode::Success => "Request successful",
            SellixHttpCode::BadRequest => "Invalid parameters",
            SellixHttpCode::Unauthorized => "Unable to authenticate",
            SellixHttpCode::Forbidden => "The request is not allowed",
            SellixHttpCode::NotFound => "The specified resource could not be found.",
            SellixHttpCode::NotAcceptable => "You requested a format that isn't json.",
            SellixHttpCode::TooManyRequests => "You have reached the rate limit",
            SellixHttpCode::InternalServerError => "We had a problem with our server. Try again later. These are rare.",
            SellixHttpCode::ServiceUnavailable => "We're temporarily offline for maintenance. Please try again later.",
        }
    }

    /// Renders this status as "name - description", the form the error
    /// messages carry.
    pub fn to_message(&self) -> (r: String)
        ensures
            r@ == self.spec_name() + " - "@ + self.spec_description(),
    {
        let mut out = self.name().to_owned();
        out.append(" - ");
        out.append(self.description());
        out
    }
}

/// Custom error, since Sellix does not send error codes over HTTP.
#[derive(Clone, Debug)]
pub struct SellixError {
    pub kind: SellixHttpCode,
    pub message: String,
}

impl SellixError {
    /// Builds the error that stands for a known failure status: the kind is
    /// the status itself and the message its "name - description" rendering.
    pub fn from_status(status: SellixHttpCode) -> (r: SellixError)
        ensures
            r.kind == status,
            r.message@ == status.spec_name() + " - "@ + status.spec_description(),
    {
        SellixError { kind: status, message: status.to_message() }
    }
}

/// The category a transport-level failure maps into: the transport's own
/// status code when it carries a recognized one, otherwise the
/// service-unavailable category, so that no failure is silently swallowed.
pub fn transport_status(code: Option<u64>) -> (r: SellixHttpCode)
    ensures
        r == (match code {
            Some(c) => match SellixHttpCode::spec_from_code(c) {
                Some(s) => s,
                None => SellixHttpCode::ServiceUnavailable,
            },
            None => SellixHttpCode::ServiceUnavailable,
        }),
{
    match code {
        Some(c) => match SellixHttpCode::from_code(c) {
            Some(s) => s,
            None => SellixHttpCode::ServiceUnavailable,
        },
        None => SellixHttpCode::ServiceUnavailable,
    }
}

/// A base API response from the Sellix API: the envelope every reply is
/// wrapped in. The server embeds its own status in the body; the payload
/// is owed exactly when that status reports success.
#[derive(Clone, Debug)]
pub struct RawAPIResponse<T> {
    pub status: SellixHttpCode,
    pub data: Option<T>,
    pub message: Option<String>,
    pub log: Option<String>,
    pub error: Option<String>,
    pub env: String,
}

/// The dictionary a create reply carries: the identifier the server
/// assigned to the new resource.
#[derive(Clone, Debug)]
pub struct UniqidDict {
    pub uniqid: String,
}

/// All of the supported currencies.
#[derive(Debug, Clone, Copy, PartialEq, Eq, Structural)]
pub enum Currencies {
    CAD,
    HKD,
    ISK,
    PHP,
    DKK,
    HUF,
    CZK,
    GBP,
    RON,
    SEK,
    IDR,
    INR,
    BRL,
    RUB,
    HRK,
    JPY,
    THB,
    CHF,
    EUR,
    MYR,
    BGN,
    TRY,
    CNY,
    NOK,
    NZD,
    ZAR,
    USD,
    MXN,
    SGD,
    AUD,
    ILS,
    KRW,
    PLN,
}

/// All of the days in the week.
#[derive(Debug, Clone, Copy, PartialEq, Eq, Structural)]
pub enum WeekDays {
    Mon,
    Tue,
    Wed,
    Thu,
    Fri,
    Sat,
    Sun,
}

/// All of the months in the year.
#[derive(Debug, Clone, Copy, PartialEq, Eq, Structural)]
pub enum YearMonths {
    Jan,
    Feb,
    Apr,
    May,
    Jun,
    Jul,
    Aug,
    Sep,
    Oct,
    Nov,
    Dec,
}

} // verus!
