//! The application's error types and how each one is rendered as a response.
//!
//! Every failure that reaches a client is one of the cases of
//! [`ErrorVariant`]; [`handle_error`] maps each case to exactly one status
//! code and one body. The concrete error types used by the handlers each
//! name the variant they stand for.

use vstd::prelude::*;
use vstd::string::*;

verus! {

/// The content type of every rendered error of the taxonomy.
pub open spec fn json_content_type() -> Seq<char> {
    "application/json"@
}

/// The content type of the framework's default error rendering.
pub open spec fn plain_content_type() -> Seq<char> {
    "text/plain; charset=utf-8"@
}

/// The description of an unclassified server fault.
pub open spec fn internal_message() -> Seq<char> {
    "内部错误"@
}

/// The description of an operation that ran out of time.
pub open spec fn timeout_message() -> Seq<char> {
    "请求超时"@
}

/// The description of a malformed request.
pub open spec fn bad_client_data_message() -> Seq<char> {
    "请求错误"@
}

/// What precedes the field name in the description of a validation failure.
pub open spec fn validation_prefix() -> Seq<char> {
    "验证错误: "@
}

/// The sanitized description shown for an internal fault surfaced to the
/// caller.
pub open spec fn user_facing_message() -> Seq<char> {
    "发生了内部错误(用户可见错误)"@
}

/// The detail of a database fault; it is for the logs only.
pub open spec fn internal_db_message() -> Seq<char> {
    "数据库内部错误"@
}

/// A terminal response: status code, `Content-Type` and body.
#[derive(Debug, Clone, PartialEq, Eq)]
pub struct ResponseDescriptor {
    pub status: u16,
    pub content_type: String,
    pub body: String,
}

/// The closed set of failures that a request can end in.
#[derive(Debug, Clone, PartialEq, Eq)]
pub enum ErrorVariant {
    /// An unclassified server fault.
    Internal,
    /// The operation exceeded its allotted time.
    Timeout,
    /// The request was malformed.
    BadClientData,
    /// A named input field failed validation.
    ValidationError { field: String },
    /// An internal fault surfaced to the caller with a sanitized message.
    UserFacingInternal,
}

/// The status code of each variant.
pub open spec fn status_of(e: ErrorVariant) -> u16 {
    match e {
        ErrorVariant::Internal => 500,
        ErrorVariant::Timeout => 408,
        ErrorVariant::BadClientData => 400,
        ErrorVariant::ValidationError { .. } => 400,
        ErrorVariant::UserFacingInternal => 500,
    }
}

/// The body of each variant: its human-readable description.
pub open spec fn body_of(e: ErrorVariant) -> Seq<char> {
    match e {
        ErrorVariant::Internal => internal_message(),
        ErrorVariant::Timeout => timeout_message(),
        ErrorVariant::BadClientData => bad_client_data_message(),
        ErrorVariant::ValidationError { field } => validation_prefix() + field@,
        ErrorVariant::UserFacingInternal => user_facing_message(),
    }
}

/// `r` is the response that renders `e`.
pub open spec fn renders(r: ResponseDescriptor, e: ErrorVariant) -> bool {
    &&& r.status == status_of(e)
    &&& r.content_type@ == json_content_type()
    &&& r.body@ == body_of(e)
}

/// `needle` occurs in `hay` as a contiguous run of characters.
pub open spec fn contains(hay: Seq<char>, needle: Seq<char>) -> bool {
    exists|i: int|
        0 <= i && i + needle.len() <= hay.len() && #[trigger] hay.subrange(i, i + needle.len())
            == needle
}

/// The description of a variant, as its body shows it.
pub fn describe(e: &ErrorVariant) -> (r: String)
    ensures
        r@ == body_of(*e),
{
    match e {
        ErrorVariant::Internal => String::from_str("内部错误"),
        ErrorVariant::Timeout => String::from_str("请求超时"),
        ErrorVariant::BadClientData => String::from_str("请求错误"),
        ErrorVariant::ValidationError { field } => String::from_str("验证错误: ").concat(
            field.as_str(),
        ),
        ErrorVariant::UserFacingInternal => String::from_str("发生了内部错误(用户可见错误)"),
    }
}

/// Renders a failure as a terminal response. Total and pure: every variant
/// has exactly one status and one body.
pub fn handle_error(err: &ErrorVariant) -> (r: ResponseDescriptor)
    ensures
        renders(r, *err),
{
    let status: u16 = match err {
        ErrorVariant::Internal => 500,
        ErrorVariant::Timeout => 408,
        ErrorVariant::BadClientData => 400,
        ErrorVariant::ValidationError { .. } => 400,
        ErrorVariant::UserFacingInternal => 500,
    };
    ResponseDescriptor {
        status,
        content_type: String::from_str("application/json"),
        body: describe(err),
    }
}

/// A plain error carrying its message, rendered the framework's default way:
/// status 500, plain text, the message as body.
#[derive(Debug, Clone, Copy, PartialEq, Eq)]
pub struct MyError {
    pub name: &'static str,
}

impl MyError {
    pub fn status_code(&self) -> (r: u16)
        ensures
            r == 500,
    {
        500
    }

    /// The error's description: its message.
    pub fn message(&self) -> (r: String)
        ensures
            r@ == self.name@,
    {
        String::from_str(self.name)
    }

    pub fn error_response(&self) -> (r: ResponseDescriptor)
        ensures
            r.status == 500,
            r.content_type@ == plain_content_type(),
            r.body@ == self.name@,
    {
        ResponseDescriptor {
            status: self.status_code(),
            content_type: String::from_str("text/plain; charset=utf-8"),
            body: self.message(),
        }
    }
}

/// Failures with a fixed description each.
#[derive(Debug, Clone, Copy, PartialEq, Eq)]
pub enum MyNewError {
    InternalError,
    Timeout,
    BadClientData,
}

impl MyNewError {
    /// The variant of the taxonomy this error stands for.
    pub open spec fn spec_variant(self) -> ErrorVariant {
        match self {
            MyNewError::InternalError => ErrorVariant::Internal,
            MyNewError::Timeout => ErrorVariant::Timeout,
            MyNewError::BadClientData => ErrorVariant::BadClientData,
        }
    }

    pub fn variant(&self) -> (r: ErrorVariant)
        ensures
            r == self.spec_variant(),
    {
        match self {
            MyNewError::InternalError => ErrorVariant::Internal,
            MyNewError::Timeout => ErrorVariant::Timeout,
            MyNewError::BadClientData => ErrorVariant::BadClientData,
        }
    }

    pub fn status_code(&self) -> (r: u16)
        ensures
            r == status_of(self.spec_variant()),
    {
        match self {
            MyNewError::InternalError => 500,
            MyNewError::Timeout => 408,
            MyNewError::BadClientData => 400,
        }
    }

    pub fn message(&self) -> (r: String)
        ensures
            r@ == body_of(self.spec_variant()),
    {
        describe(&self.variant())
    }

    pub fn error_response(&self) -> (r: ResponseDescriptor)
        ensures
            renders(r, self.spec_variant()),
    {
        handle_error(&self.variant())
    }
}

/// An error that a handler turns into a "bad request" response by hand.
#[derive(Debug, Clone, Copy, PartialEq, Eq)]
pub struct MySimpleError {
    pub name: &'static str,
}

/// Failures of user input.
#[derive(Debug, Clone, PartialEq, Eq)]
pub enum UserError {
    /// The named field failed validation.
    ValidationError { field: String },
}

impl UserError {
    /// The name of the offending field.
    pub open spec fn spec_field(self) -> Seq<char> {
        match self {
            UserError::ValidationError { field } => field@,
        }
    }

    pub fn variant(&self) -> (r: ErrorVariant)
        ensures
            r matches ErrorVariant::ValidationError { field } && field@ == self.spec_field(),
    {
        match self {
            UserError::ValidationError { field } => ErrorVariant::ValidationError {
                field: field.clone(),
            },
        }
    }

    pub fn status_code(&self) -> (r: u16)
        ensures
            r == 400,
    {
        400
    }

    pub fn message(&self) -> (r: String)
        ensures
            r@ == validation_prefix() + self.spec_field(),
    {
        describe(&self.variant())
    }

    pub fn error_response(&self) -> (r: ResponseDescriptor)
        ensures
            r.status == 400,
            r.content_type@ == json_content_type(),
            r.body@ == validation_prefix() + self.spec_field(),
    {
        handle_error(&self.variant())
    }
}

/// A fault of the database layer. Its detail is never shown to a client.
#[derive(Debug, Clone, Copy, PartialEq, Eq)]
pub struct InternalDbError;

impl InternalDbError {
    /// The detail of the fault, for the logs.
    pub fn message(&self) -> (r: String)
        ensures
            r@ == internal_db_message(),
    {
        String::from_str("数据库内部错误")
    }
}

/// Internal faults as the client may see them.
#[derive(Debug, Clone, Copy, PartialEq, Eq)]
pub enum UserFacingError {
    InternalError,
}

impl UserFacingError {
    pub open spec fn spec_variant(self) -> ErrorVariant {
        ErrorVariant::UserFacingInternal
    }

    pub fn variant(&self) -> (r: ErrorVariant)
        ensures
            r == self.spec_variant(),
    {
        ErrorVariant::UserFacingInternal
    }

    pub fn status_code(&self) -> (r: u16)
        ensures
            r == 500,
    {
        500
    }

    pub fn message(&self) -> (r: String)
        ensures
            r@ == user_facing_message(),
    {
        describe(&self.variant())
    }

    pub fn error_response(&self) -> (r: ResponseDescriptor)
        ensures
            renders(r, self.spec_variant()),
    {
        handle_error(&self.variant())
    }
}

/// Laundering a database fault discards it whole: nothing of it survives.
impl From<InternalDbError> for UserFacingError {
    fn from(e: InternalDbError) -> (r: UserFacingError) {
        UserFacingError::InternalError
    }
}

impl vstd::std_specs::convert::FromSpecImpl<InternalDbError> for UserFacingError {
    open spec fn obeys_from_spec() -> bool {
        true
    }

    open spec fn from_spec(v: InternalDbError) -> UserFacingError {
        UserFacingError::InternalError
    }
}

/// A response rendered for a user-facing internal fault has status 500 and
/// the fixed sanitized body, in which the database fault's detail does not
/// occur.
pub proof fn lemma_user_facing_hides_detail(r: ResponseDescriptor)
    requires
        renders(r, ErrorVariant::UserFacingInternal),
    ensures
        r.status == 500,
        r.body@ == user_facing_message(),
        !contains(r.body@, internal_db_message()),
{
    reveal_strlit("发生了内部错误(用户可见错误)");
    reveal_strlit("数据库内部错误");
    let hay = user_facing_message();
    let needle = internal_db_message();
    assert forall|i: int| 0 <= i && i + needle.len() <= hay.len() implies #[trigger] hay.subrange(
        i,
        i + needle.len(),
    ) != needle by {
        assert(hay.subrange(i, i + needle.len())[0] == hay[i]);
    }
}

/// A response rendered for a validation failure has status 400 and names
/// the offending field in its body.
pub proof fn lemma_validation_names_field(r: ResponseDescriptor, field: String)
    requires
        renders(r, ErrorVariant::ValidationError { field }),
    ensures
        r.status == 400,
        contains(r.body@, field@),
{
    let p = validation_prefix();
    assert(r.body@.subrange(p.len() as int, (p.len() + field@.len()) as int) =~= field@);
}

} // verus!
