//! Errors returned by the Typecast client.
use crate::client::push_char;
use crate::models::ErrorResponse;
use vstd::prelude::*;
use vstd::string::StringExecFns;

verus! {

/// The transport error of the HTTP client.
#[verifier::external_type_specification]
#[verifier::external_body]
pub struct ExReqwestError(reqwest::Error);

/// The error of the JSON codec.
#[verifier::external_type_specification]
#[verifier::external_body]
pub struct ExJsonError(serde_json::Error);

/// Error type for Typecast API operations.
#[derive(Debug)]
pub enum TypecastError {
    /// Bad Request: the request was invalid or cannot be served.
    BadRequest { detail: String },
    /// Unauthorized: invalid or missing API key.
    Unauthorized { detail: String },
    /// Payment Required: insufficient credits to complete the request.
    PaymentRequired { detail: String },
    /// Forbidden: access denied.
    Forbidden { detail: String },
    /// Not Found: the requested resource does not exist.
    NotFound { detail: String },
    /// Validation Error: the request data failed validation.
    ValidationError { detail: String },
    /// Too Many Requests: rate limit exceeded.
    RateLimited { detail: String },
    /// Internal Server Error: something went wrong on the server.
    ServerError { detail: String },
    /// Transport failure of the HTTP client (connection, timeout, TLS).
    HttpError(reqwest::Error),
    /// The JSON body could not be encoded or decoded.
    JsonError(serde_json::Error),
    /// Any other status code, kept as it came.
    Unknown { status_code: u16, detail: String },
}

/// Relies on the `Display` of `reqwest::Error`.
#[verifier::external_body]
fn http_error_text(e: &reqwest::Error) -> String {
    e.to_string()
}

/// Relies on the `Display` of `serde_json::Error`.
#[verifier::external_body]
fn json_error_text(e: &serde_json::Error) -> String {
    e.to_string()
}

/// The decimal digit character of `d < 10`.
pub open spec fn digit_char(d: nat) -> char {
    (48 + d) as u8 as char
}

/// The decimal representation of `n`, without leading zeros.
pub open spec fn decimal(n: nat) -> Seq<char>
    decreases n,
{
    if n < 10 {
        seq![digit_char(n)]
    } else {
        decimal(n / 10).push(digit_char(n % 10))
    }
}

fn push_decimal(s: &mut String, n: u16)
    ensures
        final(s)@ == old(s)@ + decimal(n as nat),
    decreases n,
{
    if n >= 10 {
        push_decimal(s, n / 10);
    }
    push_char(s, ((48 + n % 10) as u8) as char);
    proof {
        assert(final(s)@ =~= old(s)@ + decimal(n as nat));
    }
}

/// Result type alias for Typecast operations.
pub type Result<T> = std::result::Result<T, TypecastError>;

/// The detail used when the error body is absent or malformed.
pub open spec fn fallback_detail() -> Seq<char> {
    "Unknown error"@
}

/// The detail carried by an error built from an optional error body.
pub open spec fn detail_of(body: Option<ErrorResponse>) -> Seq<char> {
    match body {
        Some(e) => e.detail@,
        None => fallback_detail(),
    }
}

/// Whether a status code falls in the server-error class.
pub open spec fn is_server_status(status: u16) -> bool {
    500 <= status <= 599
}

impl TypecastError {
    /// The detail text of a status-derived error; `None` for transport and
    /// JSON errors.
    pub open spec fn spec_detail(&self) -> Option<Seq<char>> {
        match self {
            TypecastError::BadRequest { detail } => Some(detail@),
            TypecastError::Unauthorized { detail } => Some(detail@),
            TypecastError::PaymentRequired { detail } => Some(detail@),
            TypecastError::Forbidden { detail } => Some(detail@),
            TypecastError::NotFound { detail } => Some(detail@),
            TypecastError::ValidationError { detail } => Some(detail@),
            TypecastError::RateLimited { detail } => Some(detail@),
            TypecastError::ServerError { detail } => Some(detail@),
            TypecastError::Unknown { detail, .. } => Some(detail@),
            _ => None,
        }
    }

    /// Whether this error is the kind that the status table gives for `status`.
    pub open spec fn classifies(&self, status: u16) -> bool {
        if status == 400 {
            self is BadRequest
        } else if status == 401 {
            self is Unauthorized
        } else if status == 402 {
            self is PaymentRequired
        } else if status == 403 {
            self is Forbidden
        } else if status == 404 {
            self is NotFound
        } else if status == 422 {
            self is ValidationError
        } else if status == 429 {
            self is RateLimited
        } else if is_server_status(status) {
            self is ServerError
        } else {
            self is Unknown && self->Unknown_status_code == status
        }
    }

    /// The text that describes the error.
    pub open spec fn spec_message(&self) -> Seq<char> {
        match self {
            TypecastError::BadRequest { detail } => "Bad Request - "@ + detail@,
            TypecastError::Unauthorized { .. } => "Unauthorized - Invalid or missing API key"@,
            TypecastError::PaymentRequired { .. } => "Payment Required - Insufficient credits"@,
            TypecastError::Forbidden { .. } => "Forbidden - Access denied"@,
            TypecastError::NotFound { detail } => "Not Found - "@ + detail@,
            TypecastError::ValidationError { detail } => "Validation Error - "@ + detail@,
            TypecastError::RateLimited { .. } => "Too Many Requests - Rate limit exceeded"@,
            TypecastError::ServerError { detail } => "Internal Server Error - "@ + detail@,
            TypecastError::Unknown { status_code, detail } => "API error (status "@ + decimal(
                *status_code as nat,
            ) + "): "@ + detail@,
            TypecastError::HttpError(_) => "HTTP error: "@,
            TypecastError::JsonError(_) => "JSON error: "@,
        }
    }

    /// The text that describes the error. For transport and JSON errors the
    /// underlying error's own text follows the prefix.
    pub fn message(&self) -> (r: String)
        ensures
            self is HttpError || self is JsonError ==> self.spec_message().is_prefix_of(r@),
            !(self is HttpError || self is JsonError) ==> r@ == self.spec_message(),
    {
        let mut r: String;
        match self {
            TypecastError::BadRequest { detail } => {
                r = "Bad Request - ".to_owned();
                r.append(detail.as_str());
            },
            TypecastError::Unauthorized { .. } => {
                r = "Unauthorized - Invalid or missing API key".to_owned();
            },
            TypecastError::PaymentRequired { .. } => {
                r = "Payment Required - Insufficient credits".to_owned();
            },
            TypecastError::Forbidden { .. } => {
                r = "Forbidden - Access denied".to_owned();
            },
            TypecastError::NotFound { detail } => {
                r = "Not Found - ".to_owned();
                r.append(detail.as_str());
            },
            TypecastError::ValidationError { detail } => {
                r = "Validation Error - ".to_owned();
                r.append(detail.as_str());
            },
            TypecastError::RateLimited { .. } => {
                r = "Too Many Requests - Rate limit exceeded".to_owned();
            },
            TypecastError::ServerError { detail } => {
                r = "Internal Server Error - ".to_owned();
                r.append(detail.as_str());
            },
            TypecastError::Unknown { status_code, detail } => {
                r = "API error (status ".to_owned();
                push_decimal(&mut r, *status_code);
                r.append("): ");
                r.append(detail.as_str());
            },
            TypecastError::HttpError(e) => {
                r = "HTTP error: ".to_owned();
                let t = http_error_text(e);
                r.append(t.as_str());
            },
            TypecastError::JsonError(e) => {
                r = "JSON error: ".to_owned();
                let t = json_error_text(e);
                r.append(t.as_str());
            },
        }
        r
    }

    /// Create an error from an HTTP status code and an optional error body.
    pub fn from_response(status_code: u16, error_response: Option<ErrorResponse>) -> (r: Self)
        ensures
            r.classifies(status_code),
            r.spec_detail() == Some(detail_of(error_response)),
    {
        let detail = match error_response {
            Some(e) => e.detail,
            None => String::from_str("Unknown error"),
        };
        match status_code {
            400 => TypecastError::BadRequest { detail },
            401 => TypecastError::Unauthorized { detail },
            402 => TypecastError::PaymentRequired { detail },
            403 => TypecastError::Forbidden { detail },
            404 => TypecastError::NotFound { detail },
            422 => TypecastError::ValidationError { detail },
            429 => TypecastError::RateLimited { detail },
            500..=599 => TypecastError::ServerError { detail },
            _ => TypecastError::Unknown { status_code, detail },
        }
    }

    /// Check if this error is a bad request error.
    pub fn is_bad_request(&self) -> (r: bool)
        ensures
            r == self is BadRequest,
    {
        matches!(self, TypecastError::BadRequest { .. })
    }

    /// Check if this error is an unauthorized error.
    pub fn is_unauthorized(&self) -> (r: bool)
        ensures
            r == self is Unauthorized,
    {
        matches!(self, TypecastError::Unauthorized { .. })
    }

    /// Check if this error is a payment required error.
    pub fn is_payment_required(&self) -> (r: bool)
        ensures
            r == self is PaymentRequired,
    {
        matches!(self, TypecastError::PaymentRequired { .. })
    }

    /// Check if this error is a forbidden error.
    pub fn is_forbidden(&self) -> (r: bool)
        ensures
            r == self is Forbidden,
    {
        matches!(self, TypecastError::Forbidden { .. })
    }

    /// Check if this error is a not found error.
    pub fn is_not_found(&self) -> (r: bool)
        ensures
            r == self is NotFound,
    {
        matches!(self, TypecastError::NotFound { .. })
    }

    /// Check if this error is a validation error.
    pub fn is_validation_error(&self) -> (r: bool)
        ensures
            r == self is ValidationError,
    {
        matches!(self, TypecastError::ValidationError { .. })
    }

    /// Check if this error is a rate limit error.
    pub fn is_rate_limited(&self) -> (r: bool)
        ensures
            r == self is RateLimited,
    {
        matches!(self, TypecastError::RateLimited { .. })
    }

    /// Check if this error is a server error.
    pub fn is_server_error(&self) -> (r: bool)
        ensures
            r == self is ServerError,
    {
        matches!(self, TypecastError::ServerError { .. })
    }

    /// The status code that this error stands for, if it came from a status.
    /// Every server error reports 500.
    pub fn status_code(&self) -> (r: Option<u16>)
        ensures
            r == match self {
                TypecastError::BadRequest { .. } => Some(400u16),
                TypecastError::Unauthorized { .. } => Some(401u16),
                TypecastError::PaymentRequired { .. } => Some(402u16),
                TypecastError::Forbidden { .. } => Some(403u16),
                TypecastError::NotFound { .. } => Some(404u16),
                TypecastError::ValidationError { .. } => Some(422u16),
                TypecastError::RateLimited { .. } => Some(429u16),
                TypecastError::ServerError { .. } => Some(500u16),
                TypecastError::Unknown { status_code, .. } => Some(*status_code),
                _ => None,
            },
    {
        match self {
            TypecastError::BadRequest { .. } => Some(400),
            TypecastError::Unauthorized { .. } => Some(401),
            TypecastError::PaymentRequired { .. } => Some(402),
            TypecastError::Forbidden { .. } => Some(403),
            TypecastError::NotFound { .. } => Some(404),
            TypecastError::ValidationError { .. } => Some(422),
            TypecastError::RateLimited { .. } => Some(429),
            TypecastError::ServerError { .. } => Some(500),
            TypecastError::Unknown { status_code, .. } => Some(*status_code),
            _ => None,
        }
    }
}

} // verus!
