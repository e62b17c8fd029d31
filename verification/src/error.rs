//! The unified error type of the kernel and its machine-readable codes.
//!
//! Every error carries a code of the form `ERR-<CATEGORY>:<NNN>`; the
//! category decides the HTTP status an adapter answers with and whether a
//! retry is worth attempting.

use vstd::prelude::*;
use crate::text::{seq_starts_with, str_starts_with};
use vstd::string::StringExecFns;
use vstd::string::to_string_from_display_ensures;

verus! {

#[verifier::external_type_specification]
#[verifier::external_body]
pub struct ExIoError(std::io::Error);

/// Every error raised inside the kernel.
#[derive(Debug)]
pub enum CoreError {
    Validation(String),
    AuthzDenied(String),
    SessionNotFound(String),
    CapabilityNotFound(String),
    CommandNotFound(String),
    CommandPermissionDenied(String),
    InvalidArgument(String),
    Conflict(String),
    Transaction(String),
    Provider(String),
    Network(String),
    Serialization(String),
    Internal(String),
    NotImplemented(String),
    Timeout(String),
    Cancelled,
    Io(std::io::Error),
    PluginCrashed(String),
    Config(String),
}

/// The category of an error code.
#[derive(Debug, Clone, Copy, PartialEq, Eq, Structural)]
pub enum ErrorCategory {
    /// Business-logic errors (`ERR-BIZ`).
    Biz,
    /// Errors of an external system (`ERR-EXT`).
    Ext,
    /// System or internal errors (`ERR-SYS`).
    Sys,
}

/// The HTTP status an adapter answers for a category.
pub open spec fn category_http_status(c: ErrorCategory) -> u16 {
    match c {
        ErrorCategory::Biz => 400,
        ErrorCategory::Ext => 502,
        ErrorCategory::Sys => 500,
    }
}

impl ErrorCategory {
    /// Maps the category to an HTTP status: 400, 502 or 500.
    pub fn into_http_status(self) -> (r: u16)
        ensures
            r == category_http_status(self),
    {
        match self {
            ErrorCategory::Biz => 400,
            ErrorCategory::Ext => 502,
            ErrorCategory::Sys => 500,
        }
    }
}

/// The category that a code's text announces by its prefix, if any.
pub open spec fn code_category(s: Seq<char>) -> Option<ErrorCategory> {
    if seq_starts_with(s, "ERR-BIZ"@) {
        Some(ErrorCategory::Biz)
    } else if seq_starts_with(s, "ERR-EXT"@) {
        Some(ErrorCategory::Ext)
    } else if seq_starts_with(s, "ERR-SYS"@) {
        Some(ErrorCategory::Sys)
    } else {
        None
    }
}

/// Whether a code's text marks a retryable error: any external error, or a
/// timeout (`ERR-SYS:003`).
pub open spec fn code_retryable(s: Seq<char>) -> bool {
    seq_starts_with(s, "ERR-EXT"@) || seq_starts_with(s, "ERR-SYS:003"@)
}

/// A machine-readable error code such as `ERR-BIZ:004`.
#[derive(Debug)]
pub struct ErrorCode(String);

impl View for ErrorCode {
    type V = Seq<char>;

    closed spec fn view(&self) -> Seq<char> {
        self.0@
    }
}

impl Clone for ErrorCode {
    fn clone(&self) -> (r: Self)
        ensures
            r@ == self@,
    {
        ErrorCode(self.0.clone())
    }
}

impl PartialEq for ErrorCode {
    fn eq(&self, other: &Self) -> (r: bool) {
        crate::text::str_equal(self.0.as_str(), other.0.as_str())
    }
}

impl vstd::std_specs::cmp::PartialEqSpecImpl for ErrorCode {
    open spec fn obeys_eq_spec() -> bool {
        true
    }

    open spec fn eq_spec(&self, other: &Self) -> bool {
        self@ == other@
    }
}

impl Eq for ErrorCode {

}

impl ErrorCode {
    /// The category that the code's prefix announces; `None` for any other text.
    pub fn category(&self) -> (r: Option<ErrorCategory>)
        ensures
            r == code_category(self@),
    {
        let s = self.0.as_str();
        if str_starts_with(s, "ERR-BIZ") {
            Some(ErrorCategory::Biz)
        } else if str_starts_with(s, "ERR-EXT") {
            Some(ErrorCategory::Ext)
        } else if str_starts_with(s, "ERR-SYS") {
            Some(ErrorCategory::Sys)
        } else {
            None
        }
    }

    /// Whether a retry may succeed: external errors and timeouts.
    pub fn is_retryable(&self) -> (r: bool)
        ensures
            r == code_retryable(self@),
    {
        let s = self.0.as_str();
        str_starts_with(s, "ERR-EXT") || str_starts_with(s, "ERR-SYS:003")
    }

    /// The code as text.
    pub fn to_string(&self) -> (r: String)
        ensures
            r@ == self@,
    {
        self.0.clone()
    }
}

/// The code of each error.
pub open spec fn error_code_text(e: CoreError) -> Seq<char> {
    match e {
        CoreError::Validation(_) => "ERR-BIZ:001"@,
        CoreError::AuthzDenied(_) => "ERR-BIZ:002"@,
        CoreError::SessionNotFound(_) => "ERR-BIZ:003"@,
        CoreError::CapabilityNotFound(_) => "ERR-BIZ:004"@,
        CoreError::CommandNotFound(_) => "ERR-BIZ:005"@,
        CoreError::CommandPermissionDenied(_) => "ERR-BIZ:006"@,
        CoreError::InvalidArgument(_) => "ERR-BIZ:010"@,
        CoreError::Conflict(_) => "ERR-BIZ:011"@,
        CoreError::Transaction(_) => "ERR-BIZ:012"@,
        CoreError::Provider(_) => "ERR-EXT:001"@,
        CoreError::Network(_) => "ERR-EXT:002"@,
        CoreError::Serialization(_) => "ERR-EXT:003"@,
        CoreError::Internal(_) => "ERR-SYS:001"@,
        CoreError::NotImplemented(_) => "ERR-SYS:002"@,
        CoreError::Timeout(_) => "ERR-SYS:003"@,
        CoreError::Cancelled => "ERR-SYS:004"@,
        CoreError::Io(_) => "ERR-SYS:005"@,
        CoreError::PluginCrashed(_) => "ERR-SYS:006"@,
        CoreError::Config(_) => "ERR-SYS:007"@,
    }
}


/// The human-readable lead of each error's message: its code and what went wrong.
pub open spec fn error_message_lead(e: CoreError) -> Seq<char> {
    match e {
        CoreError::Validation(_) => "ERR-BIZ:001 validation failed: "@,
        CoreError::AuthzDenied(_) => "ERR-BIZ:002 authz denied: "@,
        CoreError::SessionNotFound(_) => "ERR-BIZ:003 session not found: "@,
        CoreError::CapabilityNotFound(_) => "ERR-BIZ:004 capability not found: "@,
        CoreError::CommandNotFound(_) => "ERR-BIZ:005 command not found: "@,
        CoreError::CommandPermissionDenied(_) => "ERR-BIZ:006 permission denied for command: "@,
        CoreError::InvalidArgument(_) => "ERR-BIZ:010 invalid argument: "@,
        CoreError::Conflict(_) => "ERR-BIZ:011 conflict: "@,
        CoreError::Transaction(_) => "ERR-BIZ:012 transaction failed: "@,
        CoreError::Provider(_) => "ERR-EXT:001 provider error: "@,
        CoreError::Network(_) => "ERR-EXT:002 network error: "@,
        CoreError::Serialization(_) => "ERR-EXT:003 serialization error: "@,
        CoreError::Internal(_) => "ERR-SYS:001 internal: "@,
        CoreError::NotImplemented(_) => "ERR-SYS:002 not implemented: "@,
        CoreError::Timeout(_) => "ERR-SYS:003 timeout: "@,
        CoreError::Cancelled => "ERR-SYS:004 cancelled"@,
        CoreError::Io(_) => "ERR-SYS:005 io error: "@,
        CoreError::PluginCrashed(_) => "ERR-SYS:006 plugin crashed: "@,
        CoreError::Config(_) => "ERR-SYS:007 configuration invalid: "@,
    }
}

/// The text an error carries, for every variant but `Cancelled` and `Io`.
pub open spec fn error_detail(e: CoreError) -> Seq<char> {
    match e {
        CoreError::Validation(s) => s@,
        CoreError::AuthzDenied(s) => s@,
        CoreError::SessionNotFound(s) => s@,
        CoreError::CapabilityNotFound(s) => s@,
        CoreError::CommandNotFound(s) => s@,
        CoreError::CommandPermissionDenied(s) => s@,
        CoreError::InvalidArgument(s) => s@,
        CoreError::Conflict(s) => s@,
        CoreError::Transaction(s) => s@,
        CoreError::Provider(s) => s@,
        CoreError::Network(s) => s@,
        CoreError::Serialization(s) => s@,
        CoreError::Internal(s) => s@,
        CoreError::NotImplemented(s) => s@,
        CoreError::Timeout(s) => s@,
        CoreError::PluginCrashed(s) => s@,
        CoreError::Config(s) => s@,
        _ => Seq::empty(),
    }
}

/// The full message of an error that is not an I/O error: its lead followed
/// by the text it carries.
pub open spec fn error_message(e: CoreError) -> Seq<char> {
    error_message_lead(e) + error_detail(e)
}

impl CoreError {
    /// The machine-readable code of the error.
    pub fn code(&self) -> (r: ErrorCode)
        ensures
            r@ == error_code_text(*self),
    {
        let raw: &str = match self {
            CoreError::Validation(_) => "ERR-BIZ:001",
            CoreError::AuthzDenied(_) => "ERR-BIZ:002",
            CoreError::SessionNotFound(_) => "ERR-BIZ:003",
            CoreError::CapabilityNotFound(_) => "ERR-BIZ:004",
            CoreError::CommandNotFound(_) => "ERR-BIZ:005",
            CoreError::CommandPermissionDenied(_) => "ERR-BIZ:006",
            CoreError::InvalidArgument(_) => "ERR-BIZ:010",
            CoreError::Conflict(_) => "ERR-BIZ:011",
            CoreError::Transaction(_) => "ERR-BIZ:012",
            CoreError::Provider(_) => "ERR-EXT:001",
            CoreError::Network(_) => "ERR-EXT:002",
            CoreError::Serialization(_) => "ERR-EXT:003",
            CoreError::Internal(_) => "ERR-SYS:001",
            CoreError::NotImplemented(_) => "ERR-SYS:002",
            CoreError::Timeout(_) => "ERR-SYS:003",
            CoreError::Cancelled => "ERR-SYS:004",
            CoreError::Io(_) => "ERR-SYS:005",
            CoreError::PluginCrashed(_) => "ERR-SYS:006",
            CoreError::Config(_) => "ERR-SYS:007",
        };
        ErrorCode(String::from_str(raw))
    }


    /// The error's message: its code, what went wrong and the text it
    /// carries; for an I/O error, the I/O error's own message follows the lead.
    pub fn to_string(&self) -> (r: String)
        ensures
            !(*self is Io) ==> r@ == error_message(*self),
            *self is Io ==> exists|t: String|
                to_string_from_display_ensures::<std::io::Error>(&self->Io_0, t) && r@
                    == error_message_lead(*self) + t@,
    {
        let (lead, detail): (&str, Option<&String>) = match self {
            CoreError::Validation(s) => ("ERR-BIZ:001 validation failed: ", Some(s)),
            CoreError::AuthzDenied(s) => ("ERR-BIZ:002 authz denied: ", Some(s)),
            CoreError::SessionNotFound(s) => ("ERR-BIZ:003 session not found: ", Some(s)),
            CoreError::CapabilityNotFound(s) => ("ERR-BIZ:004 capability not found: ", Some(s)),
            CoreError::CommandNotFound(s) => ("ERR-BIZ:005 command not found: ", Some(s)),
            CoreError::CommandPermissionDenied(s) => (
                "ERR-BIZ:006 permission denied for command: ",
                Some(s),
            ),
            CoreError::InvalidArgument(s) => ("ERR-BIZ:010 invalid argument: ", Some(s)),
            CoreError::Conflict(s) => ("ERR-BIZ:011 conflict: ", Some(s)),
            CoreError::Transaction(s) => ("ERR-BIZ:012 transaction failed: ", Some(s)),
            CoreError::Provider(s) => ("ERR-EXT:001 provider error: ", Some(s)),
            CoreError::Network(s) => ("ERR-EXT:002 network error: ", Some(s)),
            CoreError::Serialization(s) => ("ERR-EXT:003 serialization error: ", Some(s)),
            CoreError::Internal(s) => ("ERR-SYS:001 internal: ", Some(s)),
            CoreError::NotImplemented(s) => ("ERR-SYS:002 not implemented: ", Some(s)),
            CoreError::Timeout(s) => ("ERR-SYS:003 timeout: ", Some(s)),
            CoreError::Cancelled => ("ERR-SYS:004 cancelled", None),
            CoreError::Io(_) => ("ERR-SYS:005 io error: ", None),
            CoreError::PluginCrashed(s) => ("ERR-SYS:006 plugin crashed: ", Some(s)),
            CoreError::Config(s) => ("ERR-SYS:007 configuration invalid: ", Some(s)),
        };
        let mut out = String::from_str(lead);
        match detail {
            Some(s) => {
                out.append(s.as_str());
            },
            None => {
                if let CoreError::Io(io) = self {
                    let t = io.to_string();
                    out.append(t.as_str());
                } else {
                    assert(error_detail(*self) =~= Seq::<char>::empty());
                }
            },
        }
        out
    }

    /// Whether a retry may succeed (see [`ErrorCode::is_retryable`]).
    pub fn is_retryable(&self) -> (r: bool)
        ensures
            r == code_retryable(error_code_text(*self)),
    {
        self.code().is_retryable()
    }

    /// The HTTP status for the error's category; 500 when the code has none.
    pub fn into_http_status(&self) -> (r: u16)
        ensures
            r == match code_category(error_code_text(*self)) {
                Some(c) => category_http_status(c),
                None => 500,
            },
    {
        match self.code().category() {
            Some(c) => c.into_http_status(),
            None => 500,
        }
    }
}

/// The category each error belongs to.
pub open spec fn error_category(e: CoreError) -> ErrorCategory {
    match e {
        CoreError::Provider(_) | CoreError::Network(_) | CoreError::Serialization(_) => ErrorCategory::Ext,
        CoreError::Internal(_) | CoreError::NotImplemented(_) | CoreError::Timeout(_)
        | CoreError::Cancelled | CoreError::Io(_) | CoreError::PluginCrashed(_)
        | CoreError::Config(_) => ErrorCategory::Sys,
        _ => ErrorCategory::Biz,
    }
}

/// Every error's code announces its category (so an error's HTTP status is
/// 400 for business errors, 502 for external ones and 500 for system ones),
/// and exactly provider, network, serialization and timeout errors are
/// retryable.
pub proof fn lemma_error_classification(e: CoreError)
    ensures
        code_category(error_code_text(e)) == Some(error_category(e)),
        code_retryable(error_code_text(e)) <==> (e is Provider || e is Network || e is Serialization
            || e is Timeout),
{
    reveal_strlit("ERR-BIZ");
    reveal_strlit("ERR-EXT");
    reveal_strlit("ERR-SYS");
    reveal_strlit("ERR-SYS:003");
    let t = error_code_text(e);
    match e {
        CoreError::Validation(_) => {
            reveal_strlit("ERR-BIZ:001");
            assert(t.subrange(0, 7) =~= "ERR-BIZ"@);
            assert(t.subrange(0, 7)[4] != "ERR-EXT"@[4]);
            assert(t.subrange(0, 7)[4] != "ERR-SYS"@[4]);
            assert(t.subrange(0, 11)[4] != "ERR-SYS:003"@[4]);
        },
        CoreError::AuthzDenied(_) => {
            reveal_strlit("ERR-BIZ:002");
            assert(t.subrange(0, 7) =~= "ERR-BIZ"@);
            assert(t.subrange(0, 7)[4] != "ERR-EXT"@[4]);
            assert(t.subrange(0, 7)[4] != "ERR-SYS"@[4]);
            assert(t.subrange(0, 11)[4] != "ERR-SYS:003"@[4]);
        },
        CoreError::SessionNotFound(_) => {
            reveal_strlit("ERR-BIZ:003");
            assert(t.subrange(0, 7) =~= "ERR-BIZ"@);
            assert(t.subrange(0, 7)[4] != "ERR-EXT"@[4]);
            assert(t.subrange(0, 7)[4] != "ERR-SYS"@[4]);
            assert(t.subrange(0, 11)[4] != "ERR-SYS:003"@[4]);
        },
        CoreError::CapabilityNotFound(_) => {
            reveal_strlit("ERR-BIZ:004");
            assert(t.subrange(0, 7) =~= "ERR-BIZ"@);
            assert(t.subrange(0, 7)[4] != "ERR-EXT"@[4]);
            assert(t.subrange(0, 7)[4] != "ERR-SYS"@[4]);
            assert(t.subrange(0, 11)[4] != "ERR-SYS:003"@[4]);
        },
        CoreError::CommandNotFound(_) => {
            reveal_strlit("ERR-BIZ:005");
            assert(t.subrange(0, 7) =~= "ERR-BIZ"@);
            assert(t.subrange(0, 7)[4] != "ERR-EXT"@[4]);
            assert(t.subrange(0, 7)[4] != "ERR-SYS"@[4]);
            assert(t.subrange(0, 11)[4] != "ERR-SYS:003"@[4]);
        },
        CoreError::CommandPermissionDenied(_) => {
            reveal_strlit("ERR-BIZ:006");
            assert(t.subrange(0, 7) =~= "ERR-BIZ"@);
            assert(t.subrange(0, 7)[4] != "ERR-EXT"@[4]);
            assert(t.subrange(0, 7)[4] != "ERR-SYS"@[4]);
            assert(t.subrange(0, 11)[4] != "ERR-SYS:003"@[4]);
        },
        CoreError::InvalidArgument(_) => {
            reveal_strlit("ERR-BIZ:010");
            assert(t.subrange(0, 7) =~= "ERR-BIZ"@);
            assert(t.subrange(0, 7)[4] != "ERR-EXT"@[4]);
            assert(t.subrange(0, 7)[4] != "ERR-SYS"@[4]);
            assert(t.subrange(0, 11)[4] != "ERR-SYS:003"@[4]);
        },
        CoreError::Conflict(_) => {
            reveal_strlit("ERR-BIZ:011");
            assert(t.subrange(0, 7) =~= "ERR-BIZ"@);
            assert(t.subrange(0, 7)[4] != "ERR-EXT"@[4]);
            assert(t.subrange(0, 7)[4] != "ERR-SYS"@[4]);
            assert(t.subrange(0, 11)[4] != "ERR-SYS:003"@[4]);
        },
        CoreError::Transaction(_) => {
            reveal_strlit("ERR-BIZ:012");
            assert(t.subrange(0, 7) =~= "ERR-BIZ"@);
            assert(t.subrange(0, 7)[4] != "ERR-EXT"@[4]);
            assert(t.subrange(0, 7)[4] != "ERR-SYS"@[4]);
            assert(t.subrange(0, 11)[4] != "ERR-SYS:003"@[4]);
        },
        CoreError::Provider(_) => {
            reveal_strlit("ERR-EXT:001");
            assert(t.subrange(0, 7) =~= "ERR-EXT"@);
            assert(t.subrange(0, 7)[4] != "ERR-BIZ"@[4]);
            assert(t.subrange(0, 7)[4] != "ERR-SYS"@[4]);
            assert(t.subrange(0, 11)[4] != "ERR-SYS:003"@[4]);
        },
        CoreError::Network(_) => {
            reveal_strlit("ERR-EXT:002");
            assert(t.subrange(0, 7) =~= "ERR-EXT"@);
            assert(t.subrange(0, 7)[4] != "ERR-BIZ"@[4]);
            assert(t.subrange(0, 7)[4] != "ERR-SYS"@[4]);
            assert(t.subrange(0, 11)[4] != "ERR-SYS:003"@[4]);
        },
        CoreError::Serialization(_) => {
            reveal_strlit("ERR-EXT:003");
            assert(t.subrange(0, 7) =~= "ERR-EXT"@);
            assert(t.subrange(0, 7)[4] != "ERR-BIZ"@[4]);
            assert(t.subrange(0, 7)[4] != "ERR-SYS"@[4]);
            assert(t.subrange(0, 11)[4] != "ERR-SYS:003"@[4]);
        },
        CoreError::Internal(_) => {
            reveal_strlit("ERR-SYS:001");
            assert(t.subrange(0, 7) =~= "ERR-SYS"@);
            assert(t.subrange(0, 7)[4] != "ERR-BIZ"@[4]);
            assert(t.subrange(0, 7)[4] != "ERR-EXT"@[4]);
            assert(t.subrange(0, 11)[10] != "ERR-SYS:003"@[10]);
        },
        CoreError::NotImplemented(_) => {
            reveal_strlit("ERR-SYS:002");
            assert(t.subrange(0, 7) =~= "ERR-SYS"@);
            assert(t.subrange(0, 7)[4] != "ERR-BIZ"@[4]);
            assert(t.subrange(0, 7)[4] != "ERR-EXT"@[4]);
            assert(t.subrange(0, 11)[10] != "ERR-SYS:003"@[10]);
        },
        CoreError::Timeout(_) => {
            reveal_strlit("ERR-SYS:003");
            assert(t.subrange(0, 7) =~= "ERR-SYS"@);
            assert(t.subrange(0, 7)[4] != "ERR-BIZ"@[4]);
            assert(t.subrange(0, 7)[4] != "ERR-EXT"@[4]);
            assert(t.subrange(0, 11) =~= "ERR-SYS:003"@);
        },
        CoreError::Cancelled => {
            reveal_strlit("ERR-SYS:004");
            assert(t.subrange(0, 7) =~= "ERR-SYS"@);
            assert(t.subrange(0, 7)[4] != "ERR-BIZ"@[4]);
            assert(t.subrange(0, 7)[4] != "ERR-EXT"@[4]);
            assert(t.subrange(0, 11)[10] != "ERR-SYS:003"@[10]);
        },
        CoreError::Io(_) => {
            reveal_strlit("ERR-SYS:005");
            assert(t.subrange(0, 7) =~= "ERR-SYS"@);
            assert(t.subrange(0, 7)[4] != "ERR-BIZ"@[4]);
            assert(t.subrange(0, 7)[4] != "ERR-EXT"@[4]);
            assert(t.subrange(0, 11)[10] != "ERR-SYS:003"@[10]);
        },
        CoreError::PluginCrashed(_) => {
            reveal_strlit("ERR-SYS:006");
            assert(t.subrange(0, 7) =~= "ERR-SYS"@);
            assert(t.subrange(0, 7)[4] != "ERR-BIZ"@[4]);
            assert(t.subrange(0, 7)[4] != "ERR-EXT"@[4]);
            assert(t.subrange(0, 11)[10] != "ERR-SYS:003"@[10]);
        },
        CoreError::Config(_) => {
            reveal_strlit("ERR-SYS:007");
            assert(t.subrange(0, 7) =~= "ERR-SYS"@);
            assert(t.subrange(0, 7)[4] != "ERR-BIZ"@[4]);
            assert(t.subrange(0, 7)[4] != "ERR-EXT"@[4]);
            assert(t.subrange(0, 11)[10] != "ERR-SYS:003"@[10]);
        },
    }
}

/// The HTTP status of an error: 400 for business errors, 502 for errors of
/// an external system, 500 for system errors.
pub proof fn lemma_error_http_status(e: CoreError)
    ensures
        (match code_category(error_code_text(e)) {
            Some(c) => category_http_status(c),
            None => 500,
        }) == category_http_status(error_category(e)),
{
    lemma_error_classification(e);
}

impl From<std::io::Error> for CoreError {
    /// Wraps an I/O error as [`CoreError::Io`].
    fn from(e: std::io::Error) -> (r: Self) {
        CoreError::Io(e)
    }
}

impl vstd::std_specs::convert::FromSpecImpl<std::io::Error> for CoreError {
    open spec fn obeys_from_spec() -> bool {
        true
    }

    open spec fn from_spec(e: std::io::Error) -> Self {
        CoreError::Io(e)
    }
}

/// Results of kernel operations.
pub type CoreResult<T> = Result<T, CoreError>;

} // verus!
