use vstd::prelude::*;
use crate::validation::ValidationResponse;

verus! {

/// The kinds of failure that the library reports.
#[derive(Debug, Clone)]
pub enum ApiErrorType {
    NotImplemented,
    Unexpected,
    Unauthorized,
    NotFound,
    BadRequest,
    Unsupported,
    Duplicate,
    ValidationError(Box<Vec<ValidationResponse>>),
    SerializeError,
    DeserializeError,
    PayloadTooLarge,
    ServiceUnavailable,
    Conflict,
    Forbidden,
    ExternalServiceError,
    Deprecated,
}

/// Mathematical counterpart of [`ApiErrorType`]: the validation entries are
/// held as (field, message) pairs.
pub enum ApiErrorTypeView {
    NotImplemented,
    Unexpected,
    Unauthorized,
    NotFound,
    BadRequest,
    Unsupported,
    Duplicate,
    ValidationError(Seq<(Seq<char>, Seq<char>)>),
    SerializeError,
    DeserializeError,
    PayloadTooLarge,
    ServiceUnavailable,
    Conflict,
    Forbidden,
    ExternalServiceError,
    Deprecated,
}

impl View for ApiErrorType {
    type V = ApiErrorTypeView;

    open spec fn view(&self) -> ApiErrorTypeView {
        match self {
            ApiErrorType::NotImplemented => ApiErrorTypeView::NotImplemented,
            ApiErrorType::Unexpected => ApiErrorTypeView::Unexpected,
            ApiErrorType::Unauthorized => ApiErrorTypeView::Unauthorized,
            ApiErrorType::NotFound => ApiErrorTypeView::NotFound,
            ApiErrorType::BadRequest => ApiErrorTypeView::BadRequest,
            ApiErrorType::Unsupported => ApiErrorTypeView::Unsupported,
            ApiErrorType::Duplicate => ApiErrorTypeView::Duplicate,
            ApiErrorType::ValidationError(v) => ApiErrorTypeView::ValidationError(
                v@.map_values(|r: ValidationResponse| r@),
            ),
            ApiErrorType::SerializeError => ApiErrorTypeView::SerializeError,
            ApiErrorType::DeserializeError => ApiErrorTypeView::DeserializeError,
            ApiErrorType::PayloadTooLarge => ApiErrorTypeView::PayloadTooLarge,
            ApiErrorType::ServiceUnavailable => ApiErrorTypeView::ServiceUnavailable,
            ApiErrorType::Conflict => ApiErrorTypeView::Conflict,
            ApiErrorType::Forbidden => ApiErrorTypeView::Forbidden,
            ApiErrorType::ExternalServiceError => ApiErrorTypeView::ExternalServiceError,
            ApiErrorType::Deprecated => ApiErrorTypeView::Deprecated,
        }
    }
}

/// Name of the kind, as shown to users.
pub open spec fn error_type_name(t: ApiErrorTypeView) -> Seq<char> {
    match t {
        ApiErrorTypeView::NotImplemented => "NotImplemented"@,
        ApiErrorTypeView::Unexpected => "Unexpected"@,
        ApiErrorTypeView::Unauthorized => "Unauthorized"@,
        ApiErrorTypeView::NotFound => "NotFound"@,
        ApiErrorTypeView::BadRequest => "BadRequest"@,
        ApiErrorTypeView::Unsupported => "Unsupported"@,
        ApiErrorTypeView::Duplicate => "Duplicate"@,
        ApiErrorTypeView::ValidationError(_) => "ValidationError"@,
        ApiErrorTypeView::SerializeError => "SerializeError"@,
        ApiErrorTypeView::DeserializeError => "DeserializeError"@,
        ApiErrorTypeView::PayloadTooLarge => "PayloadTooLarge"@,
        ApiErrorTypeView::ServiceUnavailable => "ServiceUnavailable"@,
        ApiErrorTypeView::Conflict => "Conflict"@,
        ApiErrorTypeView::Forbidden => "Forbidden"@,
        ApiErrorTypeView::ExternalServiceError => "ExternalServiceError"@,
        ApiErrorTypeView::Deprecated => "Deprecated"@,
    }
}

impl ApiErrorType {
    /// The kind's name.
    pub fn to_text(&self) -> (r: String)
        ensures
            r@ == error_type_name(self@),
    {
        let s = match self {
            ApiErrorType::NotImplemented => "NotImplemented",
            ApiErrorType::Unexpected => "Unexpected",
            ApiErrorType::Unauthorized => "Unauthorized",
            ApiErrorType::NotFound => "NotFound",
            ApiErrorType::BadRequest => "BadRequest",
            ApiErrorType::Unsupported => "Unsupported",
            ApiErrorType::Duplicate => "Duplicate",
            ApiErrorType::ValidationError(_) => "ValidationError",
            ApiErrorType::SerializeError => "SerializeError",
            ApiErrorType::DeserializeError => "DeserializeError",
            ApiErrorType::PayloadTooLarge => "PayloadTooLarge",
            ApiErrorType::ServiceUnavailable => "ServiceUnavailable",
            ApiErrorType::Conflict => "Conflict",
            ApiErrorType::Forbidden => "Forbidden",
            ApiErrorType::ExternalServiceError => "ExternalServiceError",
            ApiErrorType::Deprecated => "Deprecated",
        };
        String::from_str(s)
    }
}

/// A structured error: its kind, a message, and context added on the way out.
#[derive(Debug, Clone)]
pub struct ApiError {
    tag: Option<String>,
    message: String,
    method_name: Option<String>,
    source: Option<String>,
    error_type: ApiErrorType,
    info: Option<Vec<String>>,
    timestamp: u64,
}

/// Mathematical counterpart of [`ApiError`].
pub struct ApiErrorView {
    pub tag: Option<Seq<char>>,
    pub message: Seq<char>,
    pub method_name: Option<Seq<char>>,
    pub source: Option<Seq<char>>,
    pub error_type: ApiErrorTypeView,
    pub info: Option<Seq<Seq<char>>>,
    pub timestamp: u64,
}

pub open spec fn opt_view(o: Option<String>) -> Option<Seq<char>> {
    match o {
        Some(s) => Some(s@),
        None => None,
    }
}

pub open spec fn strings_view(v: Seq<String>) -> Seq<Seq<char>> {
    v.map_values(|s: String| s@)
}

impl View for ApiError {
    type V = ApiErrorView;

    closed spec fn view(&self) -> ApiErrorView {
        ApiErrorView {
            tag: opt_view(self.tag),
            message: self.message@,
            method_name: opt_view(self.method_name),
            source: opt_view(self.source),
            error_type: self.error_type@,
            info: match self.info {
                Some(v) => Some(strings_view(v@)),
                None => None,
            },
            timestamp: self.timestamp,
        }
    }
}

/// A fresh error of kind `t` with `message` and no context.
pub open spec fn fresh_error(t: ApiErrorTypeView, message: Seq<char>) -> ApiErrorView {
    ApiErrorView {
        tag: None,
        message,
        method_name: None,
        source: None,
        error_type: t,
        info: None,
        timestamp: 0,
    }
}

/// `e` with `item` appended to its info list.
pub open spec fn with_info(e: ApiErrorView, item: Seq<char>) -> ApiErrorView {
    ApiErrorView {
        info: Some(
            match e.info {
                Some(v) => v.push(item),
                None => seq![item],
            },
        ),
        ..e
    }
}

pub type CanisterResult<T> = Result<T, ApiError>;

impl ApiError {
    /// A new error of the given kind. The timestamp starts at zero; the host
    /// layer stamps it with [`ApiError::add_timestamp`].
    pub fn new(error_type: ApiErrorType, message: &str) -> (r: Self)
        ensures
            r@ == fresh_error(error_type@, message@),
    {
        ApiError {
            tag: None,
            message: String::from_str(message),
            method_name: None,
            source: None,
            error_type,
            info: None,
            timestamp: 0,
        }
    }

    pub fn validation_response(validation_response: Vec<ValidationResponse>) -> (r: Self)
        ensures
            r@ == fresh_error(
                ApiErrorTypeView::ValidationError(
                    validation_response@.map_values(|v: ValidationResponse| v@),
                ),
                Seq::empty(),
            ),
    {
        let r = Self::new(ApiErrorType::ValidationError(Box::new(validation_response)), "");
        proof {
            reveal_strlit("");
            assert(""@ =~= Seq::<char>::empty());
        }
        r
    }

    pub fn not_implemented(message: &str) -> (r: Self)
        ensures
            r@ == fresh_error(ApiErrorTypeView::NotImplemented, message@),
    {
        Self::new(ApiErrorType::NotImplemented, message)
    }

    pub fn serialize(message: &str) -> (r: Self)
        ensures
            r@ == fresh_error(ApiErrorTypeView::SerializeError, message@),
    {
        Self::new(ApiErrorType::SerializeError, message)
    }

    pub fn deserialize(message: &str) -> (r: Self)
        ensures
            r@ == fresh_error(ApiErrorTypeView::DeserializeError, message@),
    {
        Self::new(ApiErrorType::DeserializeError, message)
    }

    pub fn not_found(message: &str) -> (r: Self)
        ensures
            r@ == fresh_error(ApiErrorTypeView::NotFound, message@),
    {
        Self::new(ApiErrorType::NotFound, message)
    }

    pub fn bad_request(message: &str) -> (r: Self)
        ensures
            r@ == fresh_error(ApiErrorTypeView::BadRequest, message@),
    {
        Self::new(ApiErrorType::BadRequest, message)
    }

    pub fn unauthorized(message: &str) -> (r: Self)
        ensures
            r@ == fresh_error(ApiErrorTypeView::Unauthorized, message@),
    {
        Self::new(ApiErrorType::Unauthorized, message)
    }

    pub fn forbidden(message: &str) -> (r: Self)
        ensures
            r@ == fresh_error(ApiErrorTypeView::Forbidden, message@),
    {
        Self::new(ApiErrorType::Forbidden, message)
    }

    pub fn conflict(message: &str) -> (r: Self)
        ensures
            r@ == fresh_error(ApiErrorTypeView::Conflict, message@),
    {
        Self::new(ApiErrorType::Conflict, message)
    }

    pub fn external_service_error(message: &str) -> (r: Self)
        ensures
            r@ == fresh_error(ApiErrorTypeView::ExternalServiceError, message@),
    {
        Self::new(ApiErrorType::ExternalServiceError, message)
    }

    pub fn payload_too_large(message: &str) -> (r: Self)
        ensures
            r@ == fresh_error(ApiErrorTypeView::PayloadTooLarge, message@),
    {
        Self::new(ApiErrorType::PayloadTooLarge, message)
    }

    pub fn service_unavailable(message: &str) -> (r: Self)
        ensures
            r@ == fresh_error(ApiErrorTypeView::ServiceUnavailable, message@),
    {
        Self::new(ApiErrorType::ServiceUnavailable, message)
    }

    pub fn unexpected(message: &str) -> (r: Self)
        ensures
            r@ == fresh_error(ApiErrorTypeView::Unexpected, message@),
    {
        Self::new(ApiErrorType::Unexpected, message)
    }

    pub fn unsupported(message: &str) -> (r: Self)
        ensures
            r@ == fresh_error(ApiErrorTypeView::Unsupported, message@),
    {
        Self::new(ApiErrorType::Unsupported, message)
    }

    pub fn duplicate(message: &str) -> (r: Self)
        ensures
            r@ == fresh_error(ApiErrorTypeView::Duplicate, message@),
    {
        Self::new(ApiErrorType::Duplicate, message)
    }

    pub fn deprecated(message: &str) -> (r: Self)
        ensures
            r@ == fresh_error(ApiErrorTypeView::Deprecated, message@),
    {
        Self::new(ApiErrorType::Deprecated, message)
    }

    pub fn add_tag(self, tag: &str) -> (r: Self)
        ensures
            r@ == (ApiErrorView { tag: Some(tag@), ..self@ }),
    {
        let mut e = self;
        e.tag = Some(String::from_str(tag));
        e
    }

    /// Replaces the message.
    pub fn add_message(self, message: &str) -> (r: Self)
        ensures
            r@ == (ApiErrorView { message: message@, ..self@ }),
    {
        let mut e = self;
        e.message = String::from_str(message);
        e
    }

    pub fn add_source(self, source: &str) -> (r: Self)
        ensures
            r@ == (ApiErrorView { source: Some(source@), ..self@ }),
    {
        let mut e = self;
        e.source = Some(String::from_str(source));
        e
    }

    /// Appends `info` to the list of context entries.
    pub fn add_info(self, info: &str) -> (r: Self)
        ensures
            r@ == with_info(self@, info@),
    {
        let mut e = self;
        let mut list = match e.info {
            Some(v) => v,
            None => Vec::new(),
        };
        list.push(String::from_str(info));
        e.info = Some(list);
        proof {
            assert(strings_view(list@) =~= match self@.info {
                Some(v) => v.push(info@),
                None => seq![info@],
            });
        }
        e
    }

    pub fn add_method_name(self, method_name: &str) -> (r: Self)
        ensures
            r@ == (ApiErrorView { method_name: Some(method_name@), ..self@ }),
    {
        let mut e = self;
        e.method_name = Some(String::from_str(method_name));
        e
    }

    /// Stamps the error with the host time (nanoseconds) at which it arose.
    pub fn add_timestamp(self, timestamp: u64) -> (r: Self)
        ensures
            r@ == (ApiErrorView { timestamp, ..self@ }),
    {
        let mut e = self;
        e.timestamp = timestamp;
        e
    }

    pub fn error_type(&self) -> (r: &ApiErrorType)
        ensures
            r@ == self@.error_type,
    {
        &self.error_type
    }

    pub fn tag(&self) -> (r: Option<&str>)
        ensures
            r matches Some(s) ==> self@.tag == Some(s@),
            r is None <==> self@.tag is None,
    {
        match &self.tag {
            Some(s) => Some(s.as_str()),
            None => None,
        }
    }

    pub fn message(&self) -> (r: &str)
        ensures
            r@ == self@.message,
    {
        self.message.as_str()
    }

    pub fn method_name(&self) -> (r: Option<&str>)
        ensures
            r matches Some(s) ==> self@.method_name == Some(s@),
            r is None <==> self@.method_name is None,
    {
        match &self.method_name {
            Some(s) => Some(s.as_str()),
            None => None,
        }
    }

    pub fn info(&self) -> (r: Option<&Vec<String>>)
        ensures
            r matches Some(v) ==> self@.info == Some(strings_view(v@)),
            r is None <==> self@.info is None,
    {
        match &self.info {
            Some(v) => Some(v),
            None => None,
        }
    }

    pub fn source(&self) -> (r: Option<&str>)
        ensures
            r matches Some(s) ==> self@.source == Some(s@),
            r is None <==> self@.source is None,
    {
        match &self.source {
            Some(s) => Some(s.as_str()),
            None => None,
        }
    }

    pub fn timestamp(&self) -> (r: u64)
        ensures
            r == self@.timestamp,
    {
        self.timestamp
    }
}

/// An error from a downstream service, tagged with the operation that met it
/// and this library's source tag.
pub open spec fn external_failure_view(message: Seq<char>, method_name: Seq<char>) -> ApiErrorView {
    ApiErrorView {
        method_name: Some(method_name),
        source: Some("toolkit_utils"@),
        ..fresh_error(ApiErrorTypeView::ExternalServiceError, message)
    }
}

/// Wraps a downstream failure, worded `message`, met by operation `method_name`.
pub fn external_failure(message: &str, method_name: &str) -> (r: ApiError)
    ensures
        r@ == external_failure_view(message@, method_name@),
{
    ApiError::external_service_error(message).add_method_name(method_name).add_source("toolkit_utils")
}

/// The result shape used across an inter-canister call.
pub enum CanisterCallResult<T> {
    Success(T),
    Failure(ApiError),
}

impl<T> CanisterCallResult<T> {
    pub fn into_result(self) -> (r: CanisterResult<T>)
        ensures
            self matches CanisterCallResult::Success(v) ==> r == Ok::<T, ApiError>(v),
            self matches CanisterCallResult::Failure(e) ==> r == Err::<T, ApiError>(e),
    {
        match self {
            CanisterCallResult::Success(v) => Ok(v),
            CanisterCallResult::Failure(e) => Err(e),
        }
    }
}

} // verus!
