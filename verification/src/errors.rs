use vstd::prelude::*;
use vstd::string::StringExecFns;

verus! {

/// A raw input failed validation (malformed email, short password, and so
/// on).  The orchestrator maps it to a generic "invalid credentials" answer
/// so that callers cannot probe which field was wrong.
#[derive(Clone, Copy, Debug, PartialEq, Eq, Structural)]
pub struct ValidationError;

/// The request-level error taxonomy.  Each variant corresponds to one
/// response class of the service.
#[derive(Clone, Copy, Debug, PartialEq, Eq, Structural)]
pub enum AuthAPIError {
    UserNotFound,
    UserAlreadyExists,
    InvalidCredentials,
    UnexpectedError,
    IncorrectCredentials,
    MissingToken,
    InvalidToken,
}

impl AuthAPIError {
    /// The HTTP status class each error maps to.
    pub open spec fn spec_status_code(self) -> u16 {
        match self {
            AuthAPIError::UserAlreadyExists => 409,
            AuthAPIError::InvalidCredentials => 400,
            AuthAPIError::UserNotFound => 404,
            AuthAPIError::IncorrectCredentials => 401,
            AuthAPIError::UnexpectedError => 500,
            AuthAPIError::InvalidToken => 401,
            AuthAPIError::MissingToken => 400,
        }
    }

    pub fn status_code(&self) -> (r: u16)
        ensures
            r == self.spec_status_code(),
    {
        match self {
            AuthAPIError::UserAlreadyExists => 409,
            AuthAPIError::InvalidCredentials => 400,
            AuthAPIError::UserNotFound => 404,
            AuthAPIError::IncorrectCredentials => 401,
            AuthAPIError::UnexpectedError => 500,
            AuthAPIError::InvalidToken => 401,
            AuthAPIError::MissingToken => 400,
        }
    }

    /// The message shown to the caller for each error.
    pub open spec fn spec_message(self) -> Seq<char> {
        match self {
            AuthAPIError::UserAlreadyExists => "User already exists"@,
            AuthAPIError::InvalidCredentials => "Invalid credentials"@,
            AuthAPIError::UserNotFound => "User not found"@,
            AuthAPIError::IncorrectCredentials => "Incorrect credentials"@,
            AuthAPIError::UnexpectedError => "Unexpected error"@,
            AuthAPIError::InvalidToken => "Invalid auth token"@,
            AuthAPIError::MissingToken => "Missing cookie"@,
        }
    }

    pub fn message(&self) -> (r: String)
        ensures
            r@ == self.spec_message(),
    {
        match self {
            AuthAPIError::UserAlreadyExists => String::from_str("User already exists"),
            AuthAPIError::InvalidCredentials => String::from_str("Invalid credentials"),
            AuthAPIError::UserNotFound => String::from_str("User not found"),
            AuthAPIError::IncorrectCredentials => String::from_str("Incorrect credentials"),
            AuthAPIError::UnexpectedError => String::from_str("Unexpected error"),
            AuthAPIError::InvalidToken => String::from_str("Invalid auth token"),
            AuthAPIError::MissingToken => String::from_str("Missing cookie"),
        }
    }

    /// The response body for this error, paired with [`Self::status_code`]
    /// by the HTTP layer.
    pub fn to_error_response(&self) -> (r: ErrorResponse)
        ensures
            r.error@ == self.spec_message(),
    {
        ErrorResponse { error: self.message() }
    }
}

/// The JSON error body shape: `{"error": string}`.
pub struct ErrorResponse {
    pub error: String,
}

/// Errors of the credential store.
#[derive(Clone, Copy, Debug, PartialEq, Eq, Structural)]
pub enum UserStoreError {
    UserAlreadyExists,
    UserNotFound,
    InvalidCredentials,
    UnexpectedError,
}

/// Errors of the token revocation registry.
#[derive(Clone, Copy, Debug, PartialEq, Eq, Structural)]
pub enum BannedTokenStoreError {
    UnexpectedError,
}

/// Errors of the two-factor challenge store.
#[derive(Clone, Copy, Debug, PartialEq, Eq, Structural)]
pub enum TwoFACodeStoreError {
    LoginAttemptIdNotFound,
    UnexpectedError,
}

pub open spec fn spec_chain_sep() -> Seq<char> {
    "\n---------------------------------------------\n"@
}

/// The cause lines of a diagnostic report, one paragraph per cause.
pub open spec fn spec_caused_by(causes: Seq<Seq<char>>) -> Seq<char>
    decreases causes.len(),
{
    if causes.len() == 0 {
        Seq::empty()
    } else {
        spec_caused_by(causes.drop_last()) + "\n"@ + "Caused by: \n\n"@ + causes.last()
    }
}

/// The full diagnostic report for an error and its chain of causes.
pub open spec fn spec_error_chain(error: Seq<char>, causes: Seq<Seq<char>>) -> Seq<char> {
    spec_chain_sep() + error + "\n"@ + spec_caused_by(causes) + "\n"@ + spec_chain_sep()
}

/// Builds the diagnostic report for an error and its chain of causes; the
/// caller hands the report to its logger.  `error` is the error's own
/// rendering, `causes` the renderings of its sources, outermost first.
pub fn log_error_chain(error: &String, causes: &Vec<String>) -> (report: String)
    ensures
        report@ == spec_error_chain(error@, causes@.map_values(|c: String| c@)),
{
    let ghost cause_views = causes@.map_values(|c: String| c@);
    let mut report = String::from_str("\n---------------------------------------------\n");
    report.append(error.as_str());
    report.append("\n");
    let n = causes.len();
    assert(cause_views.take(0) =~= Seq::<Seq<char>>::empty());
    for i in 0..n
        invariant
            n == causes.len(),
            cause_views == causes@.map_values(|c: String| c@),
            report@ == spec_chain_sep() + error@ + "\n"@ + spec_caused_by(cause_views.take(i as int)),
    {
        report.append("\n");
        report.append("Caused by: \n\n");
        report.append(causes[i].as_str());
        proof {
            assert(cause_views.take(i + 1).drop_last() =~= cause_views.take(i as int));
            assert(cause_views.take(i + 1).last() == causes@[i as int]@);
            assert(report@ =~= spec_chain_sep() + error@ + "\n"@
                + spec_caused_by(cause_views.take(i + 1)));
        }
    }
    report.append("\n");
    report.append("\n---------------------------------------------\n");
    proof {
        assert(cause_views.take(n as int) =~= cause_views);
        assert(report@ =~= spec_error_chain(error@, cause_views));
    }
    report
}

} // verus!
