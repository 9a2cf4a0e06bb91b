//! Versions and the stable error vocabulary shared with plugins.
use vstd::prelude::*;

use crate::text::push_str;

verus! {

/// Wire format version carried by every message.
///
/// A mismatch is fatal for the message, not merely a warning: the two sides
/// disagree about what the remaining fields mean.
pub const PROTOCOL_VERSION: u32 = 1;

/// Extension API generation that manifests declare and the handshake reports.
///
/// This is versioned separately from [`PROTOCOL_VERSION`] so the set of methods
/// can grow without rewriting the envelope, and vice versa.
pub const API_VERSION: u32 = 1;

/// Stable machine-readable failure reason. These strings are public API.
#[derive(Debug, Copy, Clone, PartialEq, Eq, Hash, Structural)]
pub enum ErrorCode {
    PluginNotFound,
    PluginFailed,
    PermissionDenied,
    UnsupportedCapability,
    WorkspaceMissing,
    RepositoryMissing,
    SessionDisconnected,
    ExecutionFailed,
    TargetStale,
    OperationConflict,
    InvalidRequest,
    ProtocolMismatch,
}

/// The wire name of each error code.
pub open spec fn code_name(c: ErrorCode) -> Seq<char> {
    match c {
        ErrorCode::PluginNotFound => "plugin_not_found"@,
        ErrorCode::PluginFailed => "plugin_failed"@,
        ErrorCode::PermissionDenied => "permission_denied"@,
        ErrorCode::UnsupportedCapability => "unsupported_capability"@,
        ErrorCode::WorkspaceMissing => "workspace_missing"@,
        ErrorCode::RepositoryMissing => "repository_missing"@,
        ErrorCode::SessionDisconnected => "session_disconnected"@,
        ErrorCode::ExecutionFailed => "execution_failed"@,
        ErrorCode::TargetStale => "target_stale"@,
        ErrorCode::OperationConflict => "operation_conflict"@,
        ErrorCode::InvalidRequest => "invalid_request"@,
        ErrorCode::ProtocolMismatch => "protocol_mismatch"@,
    }
}

/// The error code a wire name names, if any.
pub open spec fn code_named(name: Seq<char>) -> Option<ErrorCode> {
    if name == "plugin_not_found"@ {
        Some(ErrorCode::PluginNotFound)
    } else if name == "plugin_failed"@ {
        Some(ErrorCode::PluginFailed)
    } else if name == "permission_denied"@ {
        Some(ErrorCode::PermissionDenied)
    } else if name == "unsupported_capability"@ {
        Some(ErrorCode::UnsupportedCapability)
    } else if name == "workspace_missing"@ {
        Some(ErrorCode::WorkspaceMissing)
    } else if name == "repository_missing"@ {
        Some(ErrorCode::RepositoryMissing)
    } else if name == "session_disconnected"@ {
        Some(ErrorCode::SessionDisconnected)
    } else if name == "execution_failed"@ {
        Some(ErrorCode::ExecutionFailed)
    } else if name == "target_stale"@ {
        Some(ErrorCode::TargetStale)
    } else if name == "operation_conflict"@ {
        Some(ErrorCode::OperationConflict)
    } else if name == "invalid_request"@ {
        Some(ErrorCode::InvalidRequest)
    } else if name == "protocol_mismatch"@ {
        Some(ErrorCode::ProtocolMismatch)
    } else {
        None
    }
}

/// An error code's wire name reads back as that code, so no two codes share
/// a name.
pub proof fn lemma_code_names_round_trip(code: ErrorCode)
    ensures
        code_named(code_name(code)) == Some(code),
{
    reveal_strlit("plugin_not_found");
    reveal_strlit("plugin_failed");
    reveal_strlit("permission_denied");
    reveal_strlit("unsupported_capability");
    reveal_strlit("workspace_missing");
    reveal_strlit("repository_missing");
    reveal_strlit("session_disconnected");
    reveal_strlit("execution_failed");
    reveal_strlit("target_stale");
    reveal_strlit("operation_conflict");
    reveal_strlit("invalid_request");
    reveal_strlit("protocol_mismatch");
    // Names of one length differ at one position.
    let name = code_name(code);
    assert(name.len() == 16 ==> name[0] != "plugin_not_found"@[0] || name[0] != "execution_failed"@[0]);
    assert(name.len() == 17 ==> name[1] != "permission_denied"@[1] || name[1] != "workspace_missing"@[1] || name[1] != "protocol_mismatch"@[1]);
    assert(name.len() == 18 ==> name[0] != "repository_missing"@[0] || name[0] != "operation_conflict"@[0]);
}

impl ErrorCode {
    pub fn as_str(self) -> (s: &'static str)
        ensures
            s@ == code_name(self),
    {
        match self {
            ErrorCode::PluginNotFound => "plugin_not_found",
            ErrorCode::PluginFailed => "plugin_failed",
            ErrorCode::PermissionDenied => "permission_denied",
            ErrorCode::UnsupportedCapability => "unsupported_capability",
            ErrorCode::WorkspaceMissing => "workspace_missing",
            ErrorCode::RepositoryMissing => "repository_missing",
            ErrorCode::SessionDisconnected => "session_disconnected",
            ErrorCode::ExecutionFailed => "execution_failed",
            ErrorCode::TargetStale => "target_stale",
            ErrorCode::OperationConflict => "operation_conflict",
            ErrorCode::InvalidRequest => "invalid_request",
            ErrorCode::ProtocolMismatch => "protocol_mismatch",
        }
    }
}

/// Structured failure returned to a plugin instead of a response result.
#[derive(Debug, Clone, PartialEq, Eq)]
pub struct ExtensionError {
    pub code: ErrorCode,
    pub message: String,
    pub details: Option<String>,
}

/// An [`ExtensionError`] as plain values.
pub struct ErrorView {
    pub code: ErrorCode,
    pub message: Seq<char>,
    pub details: Option<Seq<char>>,
}

/// The view of an optional string.
pub open spec fn opt_view(s: Option<String>) -> Option<Seq<char>> {
    match s {
        Some(t) => Some(t@),
        None => None,
    }
}

/// An error with no details.
pub open spec fn plain_error(code: ErrorCode, message: Seq<char>) -> ErrorView {
    ErrorView { code, message, details: None }
}

/// An error carrying details.
pub open spec fn detailed_error(code: ErrorCode, message: Seq<char>, details: Seq<char>) -> ErrorView {
    ErrorView { code, message, details: Some(details) }
}

/// The text an error displays as: its code, a colon, and its message.
pub open spec fn error_text(e: ErrorView) -> Seq<char> {
    code_name(e.code) + ": "@ + e.message
}

impl View for ExtensionError {
    type V = ErrorView;

    open spec fn view(&self) -> ErrorView {
        ErrorView { code: self.code, message: self.message@, details: opt_view(self.details) }
    }
}

impl ExtensionError {
    pub fn new(code: ErrorCode, message: String) -> (e: ExtensionError)
        ensures
            e@ == plain_error(code, message@),
    {
        ExtensionError { code, message, details: None }
    }

    pub fn with_details(code: ErrorCode, message: String, details: String) -> (e: ExtensionError)
        ensures
            e@ == detailed_error(code, message@, details@),
    {
        ExtensionError { code, message, details: Some(details) }
    }

    /// The error as it displays: `code: message`.
    pub fn text(&self) -> (s: String)
        ensures
            s@ == error_text(self@),
    {
        let mut s = String::new();
        push_str(&mut s, self.code.as_str());
        push_str(&mut s, ": ");
        push_str(&mut s, self.message.as_str());
        s
    }
}

} // verus!
