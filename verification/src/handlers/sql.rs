//! The sql domain: the typed inputs and verdicts of the predefined
//! queries.
//!
//! The queries themselves run in the persistence layer; what lives here
//! is their typed surface — the input shapes a query takes, the verdict
//! shapes an authorization check produces, and the mapping from those
//! verdicts to this domain's error.

use vstd::prelude::*;
use crate::ids::Uuid;
use crate::incoming::Link;
use crate::outgoing::FromSqlErr;
use crate::sql::CiText;

verus! {

/// The stored form of a caller's proof of identity: an OAuth binding, or
/// a finished password hash.
#[derive(Clone, Debug)]
pub enum Auth {
    OAuth { sub: String, provider: String, oauth_allow_token: String },
    Pass { hash: String },
}

/// The fields of a new user row.
#[derive(Clone, Debug)]
pub struct NewUserInput {
    pub name: String,
    pub email: String,
    pub eligible: bool,
    pub admin: bool,
    pub auth: Auth,
}

/// The changes an existing user row may receive.
#[derive(Clone, Debug)]
pub struct UserInput {
    pub id: Uuid,
    pub name: Option<String>,
    pub eligible: Option<bool>,
    pub admin: Option<bool>,
}

/// The fields of a new team row; the password arrives already hashed.
#[derive(Clone, Debug)]
pub struct NewTeamInput {
    pub name: String,
    pub description: String,
    pub eligible: bool,
    pub affiliation: Option<String>,
    pub hashed_password: String,
}

/// The changes an existing team row may receive.
#[derive(Clone, Debug)]
pub struct TeamInput {
    pub id: Uuid,
    pub name: Option<String>,
    pub description: Option<String>,
    pub eligible: Option<bool>,
    pub affiliation: Option<Option<String>>,
}

/// The changes an existing challenge row may receive.
#[derive(Clone, Debug)]
pub struct ChallInput {
    pub name: Option<String>,
    pub description: Option<String>,
    pub points: Option<i32>,
    pub authors: Option<Vec<String>>,
    pub hints: Option<Vec<String>>,
    pub categories: Option<Vec<String>>,
    pub tags: Option<Vec<String>>,
    pub links: Option<Vec<Link>>,
    pub visible: Option<bool>,
    pub source_folder: Option<String>,
}

/// The fields of a new challenge row.
#[derive(Clone, Debug)]
pub struct NewChallInput {
    pub id: Option<Uuid>,
    pub name: String,
    pub description: String,
    pub points: i32,
    pub authors: Vec<String>,
    pub hints: Vec<String>,
    pub categories: Vec<String>,
    pub tags: Vec<String>,
    pub links: Vec<Link>,
    pub visible: bool,
    pub source_folder: String,
    pub flag: String,
}

/// One flag guess to record.
#[derive(Clone, Debug)]
pub struct SolveAttemptInput {
    pub user_id: Uuid,
    pub team_id: Uuid,
    pub chall_id: Uuid,
    pub flag_guess: String,
}

/// A row holding at most one record identifier.
#[derive(Clone, Copy, PartialEq, Eq, Structural, Debug)]
pub struct IdRow {
    pub id: Option<Uuid>,
}

/// Who earned a first blood: the challenge and the solver.
#[derive(Clone, Debug)]
pub struct FirstBloodInfo {
    pub chall: CiText,
    pub user: CiText,
    pub team: CiText,
}

/// Whether a user belongs to a team.
#[derive(Clone, Copy, PartialEq, Eq, Structural, Debug)]
pub enum UserIsOnTeamOutcome {
    DoesNotExist,
    NotOnTeam,
    IsOnTeam,
}

/// Why a user authorization check could not answer: the persistence
/// layer failed, the hash could not be verified, the user does not
/// exist, or the presented OAuth token is not allowed at all.
#[derive(Clone, Copy, PartialEq, Eq, Structural, Debug)]
pub enum CheckUserAuthError {
    Sql,
    Hashing,
    NotFound(Uuid),
    NotAllowed,
}

impl CheckUserAuthError {
    /// The domain error this verdict surfaces as.
    pub fn into_err(self) -> (r: FromSqlErr)
        ensures
            match self {
                CheckUserAuthError::Hashing => r matches FromSqlErr::OtherServerError(m) && m@
                    == "Failed to verify team password."@,
                CheckUserAuthError::Sql => r == FromSqlErr::DatabaseError,
                CheckUserAuthError::NotAllowed => r == FromSqlErr::Auth,
                CheckUserAuthError::NotFound(id) => r == FromSqlErr::DoesNotExist(id),
            },
    {
        match self {
            CheckUserAuthError::Hashing => FromSqlErr::OtherServerError(
                "Failed to verify team password.".to_owned(),
            ),
            CheckUserAuthError::Sql => FromSqlErr::DatabaseError,
            CheckUserAuthError::NotAllowed => FromSqlErr::Auth,
            CheckUserAuthError::NotFound(id) => FromSqlErr::DoesNotExist(id),
        }
    }
}

/// Admits a top-teams request only up to a fixed batch size, so one
/// badly written client cannot ask the persistence layer for everything
/// at once.
pub fn cap_top_teams(limit: u32) -> (r: Result<u32, FromSqlErr>)
    ensures
        limit > 100 ==> r == Err::<u32, FromSqlErr>(FromSqlErr::RequestTooBig(limit as u64, 100)),
        limit <= 100 ==> r == Ok::<u32, FromSqlErr>(limit),
{
    if limit > 100 {
        Err(FromSqlErr::RequestTooBig(limit as u64, 100))
    } else {
        Ok(limit)
    }
}

/// Why a team authorization check could not answer.
#[derive(Clone, Copy, PartialEq, Eq, Structural, Debug)]
pub enum CheckTeamAuthError {
    Sql,
    Hashing,
    NotFound(Uuid),
}

impl CheckTeamAuthError {
    /// The domain error this verdict surfaces as.
    pub fn into_err(self) -> (r: FromSqlErr)
        ensures
            match self {
                CheckTeamAuthError::Hashing => r matches FromSqlErr::OtherServerError(m) && m@
                    == "Failed to verify team password."@,
                CheckTeamAuthError::Sql => r == FromSqlErr::DatabaseError,
                CheckTeamAuthError::NotFound(id) => r == FromSqlErr::DoesNotExist(id),
            },
    {
        match self {
            CheckTeamAuthError::Hashing => FromSqlErr::OtherServerError(
                "Failed to verify team password.".to_owned(),
            ),
            CheckTeamAuthError::Sql => FromSqlErr::DatabaseError,
            CheckTeamAuthError::NotFound(id) => FromSqlErr::DoesNotExist(id),
        }
    }
}

} // verus!
