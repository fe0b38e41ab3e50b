use vstd::prelude::*;

verus! {

/// The kinds of failure of the credential service.
///
/// Every credential-related failure of a user is reported as
/// `InvalidCredential`, and every failure to authenticate an app as
/// `InvalidAppCredential`, whatever the cause, so that callers cannot tell
/// an unknown account from a wrong secret.
#[derive(Debug, Clone, PartialEq, Eq)]
pub enum Error {
    /// Neither a phone number nor an e-mail address was given.
    MissingContact,
    /// The app id and app secret do not authenticate an app.
    InvalidAppCredential,
    /// The user does not exist, or the password or secret is wrong.
    InvalidCredential,
    /// The verification code does not match the one issued.
    InvalidVerifyCode,
    /// A secret rotation did not affect exactly one stored user.
    SecretRotationFailed,
    /// The store failed; the cause is kept for logs.
    RepositoryError(String),
    /// The cache failed; the cause is kept for logs.
    CacherError(String),
}

impl Error {
    /// Whether the error is the caller's: a failure of the store or of the
    /// cache is not.
    pub fn is_caller_error(&self) -> (r: bool)
        ensures
            r == !(self is RepositoryError || self is CacherError),
    {
        match self {
            Error::RepositoryError(_) | Error::CacherError(_) => false,
            _ => true,
        }
    }

    /// A short description of the error, for logs and responses; for a
    /// wrapped failure, its cause.
    pub fn message(&self) -> (r: String)
        ensures
            self matches Error::RepositoryError(cause) ==> r@ == cause@,
            self matches Error::CacherError(cause) ==> r@ == cause@,
    {
        match self {
            Error::MissingContact => "a phone number or an e-mail address is required".to_owned(),
            Error::InvalidAppCredential => "invalid app credential".to_owned(),
            Error::InvalidCredential => "user does not exist or credential is invalid".to_owned(),
            Error::InvalidVerifyCode => "invalid verification code".to_owned(),
            Error::SecretRotationFailed => "failed to update the user secret".to_owned(),
            Error::RepositoryError(cause) => cause.clone(),
            Error::CacherError(cause) => cause.clone(),
        }
    }
}

} // verus!
