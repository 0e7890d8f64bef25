//! What can go wrong, and how every failure is classified and shown.

use vstd::prelude::*;

use crate::session::{ClientSession, SessionModel};

verus! {

/// The fixed set of categories that a failure is reported under.
#[derive(Debug, Clone, PartialEq, Eq)]
pub enum Category {
    /// The endpoint could not be reached, or the connection to it was lost.
    Transport,
    /// A response did not have the expected structure.
    ProtocolDecode,
    /// The remote service refused the call, with its code and message.
    RemoteRejected(i32, String),
    /// A subscription identifier was invalid.
    SubscriptionInvalid,
    /// No response came in time.
    RequestTimeout,
    /// The local limit of concurrent requests was reached before sending.
    CapacityExceeded,
    /// The input was found invalid before any network call.
    LocalValidation(String),
}

/// The mathematical content of a [`Category`].
pub enum CategoryModel {
    Transport,
    ProtocolDecode,
    RemoteRejected(i32, Seq<char>),
    SubscriptionInvalid,
    RequestTimeout,
    CapacityExceeded,
    LocalValidation(Seq<char>),
}

impl View for Category {
    type V = CategoryModel;

    open spec fn view(&self) -> CategoryModel {
        match self {
            Category::Transport => CategoryModel::Transport,
            Category::ProtocolDecode => CategoryModel::ProtocolDecode,
            Category::RemoteRejected(code, message) => CategoryModel::RemoteRejected(
                *code,
                message@,
            ),
            Category::SubscriptionInvalid => CategoryModel::SubscriptionInvalid,
            Category::RequestTimeout => CategoryModel::RequestTimeout,
            Category::CapacityExceeded => CategoryModel::CapacityExceeded,
            Category::LocalValidation(message) => CategoryModel::LocalValidation(message@),
        }
    }
}

/// A failure as it reaches the user: its category and a line of free text.
#[derive(Debug, Clone, PartialEq, Eq)]
pub struct ReportableError {
    pub category: Category,
    pub detail: String,
}

/// The mathematical content of a [`ReportableError`].
pub struct ErrorModel {
    pub category: CategoryModel,
    pub detail: Seq<char>,
}

impl View for ReportableError {
    type V = ErrorModel;

    open spec fn view(&self) -> ErrorModel {
        ErrorModel { category: self.category@, detail: self.detail@ }
    }
}

/// A failure as the transport observed it, before it is classified. The texts
/// are those of the underlying causes.
#[derive(Debug, Clone, PartialEq, Eq)]
pub enum Failure {
    /// The remote service answered with a well-formed rejection.
    Call { code: i32, message: String },
    /// Networking failed, or the low-level protocol did.
    Transport { cause: String },
    /// The background task of the connection has ended.
    RestartNeeded { cause: String },
    /// A body could not be parsed.
    Parse { cause: String },
    /// A subscription identifier was invalid.
    InvalidSubscriptionId,
    /// A response carried an identifier that matches no request.
    InvalidRequestId { cause: String },
    /// No response came in time.
    RequestTimeout,
    /// All request slots were taken.
    MaxSlotsExceeded,
    /// A failure found on this side and reported with a message of its own.
    Custom { message: String },
    /// The call is not available over HTTP.
    HttpNotImplemented,
    /// A batch without any request was to be sent.
    EmptyBatchRequest { cause: String },
    /// A method could not be registered.
    RegisterMethod { cause: String },
}

/// The mathematical content of a [`Failure`].
pub enum FailureModel {
    Call { code: i32, message: Seq<char> },
    Transport { cause: Seq<char> },
    RestartNeeded { cause: Seq<char> },
    Parse { cause: Seq<char> },
    InvalidSubscriptionId,
    InvalidRequestId { cause: Seq<char> },
    RequestTimeout,
    MaxSlotsExceeded,
    Custom { message: Seq<char> },
    HttpNotImplemented,
    EmptyBatchRequest { cause: Seq<char> },
    RegisterMethod { cause: Seq<char> },
}

impl View for Failure {
    type V = FailureModel;

    open spec fn view(&self) -> FailureModel {
        match self {
            Failure::Call { code, message } => FailureModel::Call { code: *code, message: message@ },
            Failure::Transport { cause } => FailureModel::Transport { cause: cause@ },
            Failure::RestartNeeded { cause } => FailureModel::RestartNeeded { cause: cause@ },
            Failure::Parse { cause } => FailureModel::Parse { cause: cause@ },
            Failure::InvalidSubscriptionId => FailureModel::InvalidSubscriptionId,
            Failure::InvalidRequestId { cause } => FailureModel::InvalidRequestId { cause: cause@ },
            Failure::RequestTimeout => FailureModel::RequestTimeout,
            Failure::MaxSlotsExceeded => FailureModel::MaxSlotsExceeded,
            Failure::Custom { message } => FailureModel::Custom { message: message@ },
            Failure::HttpNotImplemented => FailureModel::HttpNotImplemented,
            Failure::EmptyBatchRequest { cause } => FailureModel::EmptyBatchRequest {
                cause: cause@,
            },
            Failure::RegisterMethod { cause } => FailureModel::RegisterMethod { cause: cause@ },
        }
    }
}

/// Whether `part` occurs in `text` as a run of consecutive characters.
pub open spec fn occurs_in(part: Seq<char>, text: Seq<char>) -> bool {
    exists|i: int|
        0 <= i && i + part.len() <= text.len() && #[trigger] text.subrange(i, i + part.len())
            == part
}

/// What tells the user which endpoint and network a call was meant for.
pub open spec fn endpoint_context(session: SessionModel) -> Seq<char> {
    ": Rpc url: "@ + session.endpoint + " (network: "@ + session.network + ")"@
}

/// A failure of the connection itself, with the endpoint and network it concerns.
pub open spec fn connectivity_error(
    category: CategoryModel,
    line: Seq<char>,
    session: SessionModel,
) -> ErrorModel {
    ErrorModel { category, detail: line + endpoint_context(session) }
}

/// A failure found on this side, before any network call.
pub open spec fn local_error(message: Seq<char>) -> ErrorModel {
    ErrorModel {
        category: CategoryModel::LocalValidation(message),
        detail: "Custom error: "@ + message,
    }
}

/// The one category and the detail that each observed failure is reported with.
pub open spec fn classified(session: SessionModel, failure: FailureModel) -> ErrorModel {
    match failure {
        FailureModel::Call { code, message } => ErrorModel {
            category: CategoryModel::RemoteRejected(code, message),
            detail: message,
        },
        FailureModel::Transport { cause } => connectivity_error(
            CategoryModel::Transport,
            "Transport error: "@ + cause,
            session,
        ),
        FailureModel::RestartNeeded { cause } => connectivity_error(
            CategoryModel::Transport,
            "Restart needed: "@ + cause,
            session,
        ),
        FailureModel::HttpNotImplemented => connectivity_error(
            CategoryModel::Transport,
            "HTTP not implemented"@,
            session,
        ),
        FailureModel::RequestTimeout => connectivity_error(
            CategoryModel::RequestTimeout,
            "Request timeout"@,
            session,
        ),
        FailureModel::Parse { cause } => ErrorModel {
            category: CategoryModel::ProtocolDecode,
            detail: "Parse error: "@ + cause,
        },
        FailureModel::InvalidRequestId { cause } => ErrorModel {
            category: CategoryModel::ProtocolDecode,
            detail: "Invalid request ID: "@ + cause,
        },
        FailureModel::InvalidSubscriptionId => ErrorModel {
            category: CategoryModel::SubscriptionInvalid,
            detail: "Invalid subscription ID"@,
        },
        FailureModel::MaxSlotsExceeded => ErrorModel {
            category: CategoryModel::CapacityExceeded,
            detail: "Max concurrent requests exceeded"@,
        },
        FailureModel::Custom { message } => local_error(message),
        FailureModel::EmptyBatchRequest { cause } => ErrorModel {
            category: CategoryModel::LocalValidation(cause),
            detail: "Empty batch request: "@ + cause,
        },
        FailureModel::RegisterMethod { cause } => ErrorModel {
            category: CategoryModel::LocalValidation(cause),
            detail: "Register method error: "@ + cause,
        },
    }
}

/// The pretty-printed JSON object that `serde_json` writes for a record of one
/// integer field and one text field.
pub uninterp spec fn json_record(
    number_key: Seq<char>,
    number: i32,
    text_key: Seq<char>,
    text: Seq<char>,
) -> Seq<char>;

/// What the user is shown for an error: for a remote rejection a structured
/// document of its code and message, for every other category the detail.
pub open spec fn rendered(error: ErrorModel) -> Seq<char> {
    match error.category {
        CategoryModel::RemoteRejected(code, message) => json_record(
            "code"@,
            code,
            "message"@,
            message,
        ),
        _ => error.detail,
    }
}

/// `serde_json::to_string_pretty` on a JSON object with the two given fields.
/// Writing such an object cannot fail: its keys are strings and its values
/// are a number and a string.
#[verifier::external_body]
fn json_record_text(number_key: &str, number: i32, text_key: &str, text: &str) -> (r: String)
    ensures
        r@ == json_record(number_key@, number, text_key@, text@),
{
    let mut fields = serde_json::Map::new();
    fields.insert(String::from(number_key), serde_json::Value::from(number));
    fields.insert(String::from(text_key), serde_json::Value::from(text));
    serde_json::to_string_pretty(&serde_json::Value::Object(fields)).unwrap_or_default()
}

fn with_context(line: String, session: &ClientSession) -> (r: String)
    ensures
        r@ == line@ + endpoint_context(session@),
{
    let mut text = line;
    text.append(": Rpc url: ");
    text.append(session.endpoint.as_str());
    text.append(" (network: ");
    text.append(session.network.as_str());
    text.append(")");
    text
}

fn prefixed(prefix: &str, cause: &String) -> (r: String)
    ensures
        r@ == prefix@ + cause@,
{
    let mut text = String::from_str(prefix);
    text.append(cause.as_str());
    text
}

impl ReportableError {
    /// The error for an input that was found invalid before any network call.
    pub fn local_validation(message: String) -> (r: ReportableError)
        ensures
            r@ == local_error(message@),
    {
        let detail = prefixed("Custom error: ", &message);
        ReportableError { category: Category::LocalValidation(message), detail }
    }

    /// The text that the user is shown for this error.
    pub fn render(&self) -> (r: String)
        ensures
            r@ == rendered(self@),
    {
        match &self.category {
            Category::RemoteRejected(code, message) => json_record_text(
                "code",
                *code,
                "message",
                message.as_str(),
            ),
            _ => self.detail.clone(),
        }
    }
}

/// Classifies a failure that the transport observed. Every failure gets exactly
/// one category; failures of the connection name the endpoint and the network.
pub fn classify(session: &ClientSession, failure: Failure) -> (r: ReportableError)
    ensures
        r@ == classified(session@, failure@),
{
    match failure {
        Failure::Call { code, message } => {
            let detail = message.clone();
            ReportableError { category: Category::RemoteRejected(code, message), detail }
        },
        Failure::Transport { cause } => ReportableError {
            category: Category::Transport,
            detail: with_context(prefixed("Transport error: ", &cause), session),
        },
        Failure::RestartNeeded { cause } => ReportableError {
            category: Category::Transport,
            detail: with_context(prefixed("Restart needed: ", &cause), session),
        },
        Failure::HttpNotImplemented => ReportableError {
            category: Category::Transport,
            detail: with_context(String::from_str("HTTP not implemented"), session),
        },
        Failure::RequestTimeout => ReportableError {
            category: Category::RequestTimeout,
            detail: with_context(String::from_str("Request timeout"), session),
        },
        Failure::Parse { cause } => ReportableError {
            category: Category::ProtocolDecode,
            detail: prefixed("Parse error: ", &cause),
        },
        Failure::InvalidRequestId { cause } => ReportableError {
            category: Category::ProtocolDecode,
            detail: prefixed("Invalid request ID: ", &cause),
        },
        Failure::InvalidSubscriptionId => ReportableError {
            category: Category::SubscriptionInvalid,
            detail: String::from_str("Invalid subscription ID"),
        },
        Failure::MaxSlotsExceeded => ReportableError {
            category: Category::CapacityExceeded,
            detail: String::from_str("Max concurrent requests exceeded"),
        },
        Failure::Custom { message } => ReportableError::local_validation(message),
        Failure::EmptyBatchRequest { cause } => {
            let detail = prefixed("Empty batch request: ", &cause);
            ReportableError { category: Category::LocalValidation(cause), detail }
        },
        Failure::RegisterMethod { cause } => {
            let detail = prefixed("Register method error: ", &cause);
            ReportableError { category: Category::LocalValidation(cause), detail }
        },
    }
}

/// A rejection by the remote service is reported as such, with its own code
/// and message, and as nothing else.
pub proof fn law_rejection_keeps_code_and_message(
    session: SessionModel,
    code: i32,
    message: Seq<char>,
)
    ensures
        classified(session, FailureModel::Call { code, message }).category
            == CategoryModel::RemoteRejected(code, message),
{
}

/// Whatever fails on the connection is reported with the endpoint and the
/// network of the session in its detail.
pub proof fn law_connectivity_names_endpoint(session: SessionModel, failure: FailureModel)
    requires
        classified(session, failure).category is Transport || classified(
            session,
            failure,
        ).category is RequestTimeout,
    ensures
        occurs_in(session.endpoint, classified(session, failure).detail),
        occurs_in(session.network, classified(session, failure).detail),
{
    let detail = classified(session, failure).detail;
    let line = match failure {
        FailureModel::Transport { cause } => "Transport error: "@ + cause,
        FailureModel::RestartNeeded { cause } => "Restart needed: "@ + cause,
        FailureModel::HttpNotImplemented => "HTTP not implemented"@,
        _ => "Request timeout"@,
    };
    assert(detail == line + endpoint_context(session));
    let at_endpoint = (line.len() + ": Rpc url: "@.len()) as int;
    assert(detail.subrange(at_endpoint, at_endpoint + session.endpoint.len()) == session.endpoint);
    let at_network = at_endpoint + session.endpoint.len() + " (network: "@.len();
    assert(detail.subrange(at_network, at_network + session.network.len()) == session.network);
}

} // verus!
