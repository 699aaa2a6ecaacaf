//! How an exchange with an identity provider can fail, and how a login
//! attempt can end in failure.

use vstd::prelude::*;

verus! {

/// The HTTP status with which a provider turns down a token that it no longer
/// accepts.
pub const HTTP_UNAUTHORIZED: u16 = 401;

/// Why the authorization through the browser did not yield tokens.
#[derive(Clone, Copy, Debug, PartialEq, Eq, Structural)]
pub enum ProcessAuthorizationError {
    /// The listener for the redirect could not be bound.
    ListenerBindFailed,
    /// No redirect arrived.
    NoRedirect,
    /// The redirect carried no authorization code.
    MissingCode,
    /// The redirect carried no state, or not the state of this authorization.
    StateMismatch,
    /// The token endpoint did not accept the authorization code.
    CodeRejected,
}

/// Why a call to the Microsoft token endpoint failed.
#[derive(Clone, Copy, Debug, PartialEq, Eq, Structural)]
pub enum MsaAuthorizationError {
    /// The provider could not be reached: name lookup, TLS or a timeout.
    ConnectionError,
    /// The provider answered with a status other than OK.
    NonOkHttpStatus(u16),
    /// The provider reported the grant as invalid.
    InvalidGrant,
    /// The provider turned the request down for another reason.
    Rejected,
    /// The answer could not be read.
    MalformedResponse,
}

/// Why a call to Xbox Live or to the game service failed.
#[derive(Clone, Copy, Debug, PartialEq, Eq, Structural)]
pub enum XboxAuthenticateError {
    /// The provider could not be reached: name lookup, TLS or a timeout.
    ConnectionError,
    /// The provider answered with a status other than OK.
    NonOkHttpStatus(u16),
    /// The answer could not be read.
    MalformedResponse,
    /// The answer carried no userhash among its claims.
    MissingUserhash,
}

impl MsaAuthorizationError {
    /// The failure says nothing of the token that was used: the provider was
    /// not reached.
    pub open spec fn connection_error(self) -> bool {
        self is ConnectionError
    }

    /// Whether the provider was not reached.
    pub fn is_connection_error(&self) -> (unreached: bool)
        ensures
            unreached == self.connection_error(),
    {
        matches!(self, MsaAuthorizationError::ConnectionError)
    }

    /// Whether the provider reported the grant as invalid.
    pub fn is_invalid_grant(&self) -> (invalid: bool)
        ensures
            invalid == (*self is InvalidGrant),
    {
        matches!(self, MsaAuthorizationError::InvalidGrant)
    }
}

impl XboxAuthenticateError {
    /// The failure says nothing of the token that was used: the provider was
    /// not reached.
    pub open spec fn connection_error(self) -> bool {
        self is ConnectionError
    }

    /// The provider answered that the token is not accepted: the sign of a
    /// token that has just expired.
    pub open spec fn unauthorized(self) -> bool {
        self == XboxAuthenticateError::NonOkHttpStatus(HTTP_UNAUTHORIZED)
    }

    /// Whether the provider was not reached.
    pub fn is_connection_error(&self) -> (unreached: bool)
        ensures
            unreached == self.connection_error(),
    {
        matches!(self, XboxAuthenticateError::ConnectionError)
    }

    /// Whether the provider answered that the token is not accepted.
    pub fn is_unauthorized(&self) -> (refused: bool)
        ensures
            refused == self.unauthorized(),
    {
        match self {
            XboxAuthenticateError::NonOkHttpStatus(status) => *status == HTTP_UNAUTHORIZED,
            _ => false,
        }
    }
}

/// How a login attempt ends when it does not end with a profile.
#[derive(Clone, Copy, Debug, PartialEq, Eq, Structural)]
pub enum LoginError {
    /// The stage moved back after the attempt had moved forward.
    LoginStageErrorBackwards,
    /// Two iterations in a row resolved to the same stage.
    LoginStageErrorDidntChange,
    ProcessAuthorizationError(ProcessAuthorizationError),
    MsaAuthorizationError(MsaAuthorizationError),
    XboxAuthenticateError(XboxAuthenticateError),
    CancelledByUser,
}

/// The kinds of end that a failed attempt can have, by what the failure says.
#[derive(Clone, Copy, Debug, PartialEq, Eq, Structural)]
pub enum LoginFailureKind {
    /// A provider was not reached: nothing is known of any credential.
    Connection,
    /// A provider turned a credential down, or the authorization failed.
    Authorization,
    /// The stages of the attempt did not follow each other as they must: a
    /// defect, not something to try again.
    InternalConsistency,
    /// The user ended the attempt.
    Cancellation,
}

impl LoginError {
    /// The kind of the failure.
    pub open spec fn failure_kind(self) -> LoginFailureKind {
        match self {
            LoginError::LoginStageErrorBackwards | LoginError::LoginStageErrorDidntChange => {
                LoginFailureKind::InternalConsistency
            },
            LoginError::CancelledByUser => LoginFailureKind::Cancellation,
            LoginError::MsaAuthorizationError(error) => if error.connection_error() {
                LoginFailureKind::Connection
            } else {
                LoginFailureKind::Authorization
            },
            LoginError::XboxAuthenticateError(error) => if error.connection_error() {
                LoginFailureKind::Connection
            } else {
                LoginFailureKind::Authorization
            },
            LoginError::ProcessAuthorizationError(_) => LoginFailureKind::Authorization,
        }
    }

    /// The kind of the failure.
    pub fn kind(&self) -> (kind: LoginFailureKind)
        ensures
            kind == self.failure_kind(),
    {
        match self {
            LoginError::LoginStageErrorBackwards => LoginFailureKind::InternalConsistency,
            LoginError::LoginStageErrorDidntChange => LoginFailureKind::InternalConsistency,
            LoginError::CancelledByUser => LoginFailureKind::Cancellation,
            LoginError::MsaAuthorizationError(error) => {
                if error.is_connection_error() {
                    LoginFailureKind::Connection
                } else {
                    LoginFailureKind::Authorization
                }
            },
            LoginError::XboxAuthenticateError(error) => {
                if error.is_connection_error() {
                    LoginFailureKind::Connection
                } else {
                    LoginFailureKind::Authorization
                }
            },
            LoginError::ProcessAuthorizationError(_) => LoginFailureKind::Authorization,
        }
    }
}

impl From<ProcessAuthorizationError> for LoginError {
    fn from(error: ProcessAuthorizationError) -> (wrapped: LoginError) {
        LoginError::ProcessAuthorizationError(error)
    }
}

impl vstd::std_specs::convert::FromSpecImpl<ProcessAuthorizationError> for LoginError {
    open spec fn obeys_from_spec() -> bool {
        true
    }

    open spec fn from_spec(error: ProcessAuthorizationError) -> LoginError {
        LoginError::ProcessAuthorizationError(error)
    }
}

impl From<MsaAuthorizationError> for LoginError {
    fn from(error: MsaAuthorizationError) -> (wrapped: LoginError) {
        LoginError::MsaAuthorizationError(error)
    }
}

impl vstd::std_specs::convert::FromSpecImpl<MsaAuthorizationError> for LoginError {
    open spec fn obeys_from_spec() -> bool {
        true
    }

    open spec fn from_spec(error: MsaAuthorizationError) -> LoginError {
        LoginError::MsaAuthorizationError(error)
    }
}

impl From<XboxAuthenticateError> for LoginError {
    fn from(error: XboxAuthenticateError) -> (wrapped: LoginError) {
        LoginError::XboxAuthenticateError(error)
    }
}

impl vstd::std_specs::convert::FromSpecImpl<XboxAuthenticateError> for LoginError {
    open spec fn obeys_from_spec() -> bool {
        true
    }

    open spec fn from_spec(error: XboxAuthenticateError) -> LoginError {
        LoginError::XboxAuthenticateError(error)
    }
}

} // verus!
