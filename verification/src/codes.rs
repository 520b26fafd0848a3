//! Result codes of the host authentication service, the primitive-operation
//! log over which the library's contracts speak, and the error taxonomy
//! surfaced to callers.

use vstd::prelude::*;

verus! {

/// The fixed enumerated domain of outcomes of a primitive service operation.
#[derive(Clone, Copy, Debug, PartialEq, Eq, Structural)]
pub enum ResultCode {
    Success,
    OpenErr,
    SymbolErr,
    ServiceErr,
    SystemErr,
    BufErr,
    PermDenied,
    AuthErr,
    CredInsufficient,
    AuthinfoUnavail,
    UserUnknown,
    MaxTries,
    NewAuthtokReqd,
    AcctExpired,
    SessionErr,
    CredUnavail,
    CredExpired,
    CredErr,
    NoModuleData,
    ConvErr,
    AuthtokErr,
    AuthtokRecoverErr,
    AuthtokLockBusy,
    AuthtokDisableAging,
    TryAgain,
    Ignore,
    Abort,
    AuthtokExpired,
    ModuleUnknown,
    BadItem,
    ConvAgain,
    Incomplete,
}

/// Credential-management flags accepted by the set-credentials primitive.
#[derive(Clone, Copy, Debug, PartialEq, Eq, Structural)]
pub enum CredFlag {
    Establish,
    Delete,
    Reinitialize,
    Refresh,
}

/// One primitive operation issued to the authentication service, together
/// with the result code it produced (for the end operation: the code it was
/// handed).  Sequences of these form the operation log that the contracts of
/// [`crate::service::Service`] and [`crate::auth::Authenticator`] speak of.
#[derive(Clone, Copy, Debug, PartialEq, Eq, Structural)]
pub enum Op {
    Start(ResultCode),
    Authenticate(ResultCode),
    AcctMgmt(ResultCode),
    SetCred(CredFlag, ResultCode),
    OpenSession(ResultCode),
    CloseSession(ResultCode),
    PutEnv(ResultCode),
    End(ResultCode),
}

/// The error taxonomy surfaced to callers, collapsing the service's result
/// codes to semantic kinds.
#[derive(Clone, Copy, Debug, PartialEq, Eq, Structural)]
pub enum Error {
    /// A primitive operation returned the carried non-success result code.
    Service(ResultCode),
    /// A supplied string cannot be represented in the encoding the service
    /// requires; reported by the service as its buffer-error code.
    Encoding,
    /// A session operation was invoked before a successful authentication.
    NotAuthenticated,
    /// The conversation failed to answer a prompt.
    Conversation,
    /// The session user cannot be resolved on the host; fatal and not
    /// retried.
    EnvironmentResolution,
}

/// Result type used throughout the library.
pub type PamResult<T> = Result<T, Error>;

/// How a non-success result code maps to the error taxonomy: the
/// conversation-failure and buffer-error codes carry their own semantic
/// kinds, every other code is surfaced verbatim.
pub open spec fn spec_error_of(code: ResultCode) -> Error {
    match code {
        ResultCode::ConvErr => Error::Conversation,
        ResultCode::BufErr => Error::Encoding,
        _ => Error::Service(code),
    }
}

/// Executable mapping from a result code to the error surfaced to callers.
pub fn error_of(code: ResultCode) -> (e: Error)
    ensures
        e == spec_error_of(code),
{
    match code {
        ResultCode::ConvErr => Error::Conversation,
        ResultCode::BufErr => Error::Encoding,
        _ => Error::Service(code),
    }
}

} // verus!
