use vstd::prelude::*;

verus! {

/// Errors of the database layer.
#[derive(Debug, Clone, PartialEq, Eq)]
pub enum DBError {
    /// An error of the database itself, by its message.
    DBError(String),
    /// The username is already registered.
    UsernameTaken,
    /// The email is already registered.
    EmailTaken,
    /// The secret is already in use.
    SecretTaken,
    /// The captcha key is already in use.
    CaptchaKeyTaken,
    /// No such account.
    AccountNotFound,
    /// No such captcha.
    CaptchaNotFound,
    /// No traffic pattern stored for the captcha.
    TrafficPatternNotFound,
    /// No such notification.
    NotificationNotFound,
}

/// How a query failed, as far as the logic here needs to know: either the
/// query matched no row, or it failed otherwise, already classified as a
/// `DBError` (unique-key violations become the matching `*Taken` variant).
#[derive(Debug, Clone, PartialEq, Eq)]
pub enum QueryFailure {
    RowNotFound,
    Other(DBError),
}

/// The error that a failed query is reported as, where a missing row means
/// `row_not_found`.
pub open spec fn spec_row_not_found_err(e: QueryFailure, row_not_found: DBError) -> DBError {
    match e {
        QueryFailure::RowNotFound => row_not_found,
        QueryFailure::Other(err) => err,
    }
}

/// Reports a failed query: a missing row becomes `row_not_found`, any other
/// failure keeps its classification.
pub fn map_row_not_found_err(e: QueryFailure, row_not_found: DBError) -> (r: DBError)
    ensures
        r == spec_row_not_found_err(e, row_not_found),
        e == QueryFailure::RowNotFound ==> r == row_not_found,
        e matches QueryFailure::Other(err) ==> r == err,
{
    match e {
        QueryFailure::RowNotFound => row_not_found,
        QueryFailure::Other(err) => err,
    }
}

/// What an existence check reports for the outcome of its lookup.
pub open spec fn spec_lookup_exists(found: Result<(), QueryFailure>) -> Result<bool, DBError> {
    match found {
        Ok(()) => Ok(true),
        Err(QueryFailure::RowNotFound) => Ok(false),
        Err(QueryFailure::Other(err)) => Err(err),
    }
}

/// Existence check (username, email, captcha): a row found means `true`, no
/// row means `false`, any other failure is passed on.
pub fn lookup_exists(found: Result<(), QueryFailure>) -> (r: Result<bool, DBError>)
    ensures
        r == spec_lookup_exists(found),
        r == Ok::<bool, DBError>(true) <==> found is Ok,
        r == Ok::<bool, DBError>(false) <==> found == Err::<(), QueryFailure>(QueryFailure::RowNotFound),
{
    match found {
        Ok(()) => Ok(true),
        Err(QueryFailure::RowNotFound) => Ok(false),
        Err(QueryFailure::Other(err)) => Err(err),
    }
}

} // verus!
