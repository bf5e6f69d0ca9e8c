//! The shape of an inbound request.
//!
//! One call carries up to four independent sub-requests, one per domain.
//! The transport layer decodes the wire form (rejecting the whole request
//! when any present slot is malformed) and hands the engine these
//! already-validated values; identifiers and timestamps arrive as the
//! plain values their wire form decodes to.

use vstd::prelude::*;
use crate::ids::Uuid;
use crate::json::JsonValue;

verus! {

/// The urgency of a developer-facing notification.
#[derive(Clone, Copy, PartialEq, Eq, Structural, Debug)]
pub enum AlertLevel {
    Info,
    Warn,
    Erro,
}

impl AlertLevel {
    /// The fixed-width urgency label used in rendered notifications.
    pub fn label(&self) -> (r: &'static str)
        ensures
            r@ == self.spec_label(),
    {
        match self {
            AlertLevel::Erro => "Error",
            AlertLevel::Warn => "Warn ",
            AlertLevel::Info => "Info ",
        }
    }

    /// The text of [`Self::label`].
    pub open spec fn spec_label(self) -> Seq<char> {
        match self {
            AlertLevel::Erro => "Error"@,
            AlertLevel::Warn => "Warn "@,
            AlertLevel::Info => "Info "@,
        }
    }
}

/// A notification addressed to the organizing staff.
#[derive(Debug)]
pub struct DeveloperDiscordMessage {
    pub level: AlertLevel,
    pub message: String,
    pub data: JsonValue,
    pub include_chall_writers: bool,
}

/// A notification addressed to the participants.
#[derive(Clone, Debug)]
pub enum ParticipantMessage {
    FirstBlood { chall_name: String, team: String, user: String },
    Alert { message: String },
}

/// The discord slot of an envelope.
#[derive(Debug)]
pub enum ToDiscord {
    Developer(DeveloperDiscordMessage),
    Participant(ParticipantMessage),
}

/// How a deploy request names the challenge it concerns.
#[derive(Clone, Debug)]
pub enum ChallIdentifier {
    CurrDeployedId(Uuid),
    Folder(String),
}

/// The deploy slot of an envelope.
#[derive(Clone, Debug)]
pub enum ToDeploy {
    Deploy {
        chall: ChallIdentifier,
        force_wipe: bool,
    },
    Poll { id: Uuid },
    Remove { chall: Uuid },
    ModifyMeta {
        id: Uuid,
        name: Option<String>,
        desc: Option<String>,
        points: Option<u64>,
        categories: Option<Vec<String>>,
        tags: Option<Option<Vec<String>>>,
        visible: Option<bool>,
    },
}

/// Which cached records the frontend is asked to refresh.
#[derive(Clone, Copy, Debug)]
pub enum SyncType {
    Chall(Uuid),
    AllChalls,
    User(Uuid),
    AllUsers,
    Team(Uuid),
    AllTeams,
    Solves,
    All,
}

/// The frontend slot of an envelope.
#[derive(Clone, Copy, Debug)]
pub enum ToFrontend {
    Sync(SyncType),
}

/// How a caller proves it may act for a user or team.
#[derive(Clone, Debug)]
pub enum Auth {
    OAuth { sub: String, provider: String, oauth_allow_token: String },
    Pass { password: String },
}

/// The kind of service a challenge link points at.
#[derive(Clone, Copy, PartialEq, Eq, Structural, Debug)]
pub enum LinkType {
    Nc,
    Web,
    Admin,
    Static,
}

/// One link attached to a challenge.
#[derive(Clone, Debug)]
pub struct Link {
    pub link_type: LinkType,
    pub location: String,
}

/// A predefined query against the user records.
#[derive(Clone, Debug)]
pub enum UserQuery {
    CheckUsernameAvailability {
        name: String,
    },
    CreateNewUser {
        email: String,
        name: String,
        eligible: bool,
        admin: bool,
        auth: Auth,
    },
    Promote {
        admin_id: Uuid,
        admin_auth: Auth,
        user_to_promote: Uuid,
    },
    CheckUserAuth {
        id: Uuid,
        auth: Auth,
    },
    UpdateUserAuth {
        id: Uuid,
        old_auth: Auth,
        new_auth: Auth,
    },
    JoinTeam {
        id: Uuid,
        auth: Auth,
        team_name: String,
        team_pass: String,
    },
    GetUser {
        id: Uuid,
    },
    GetAllUsers,
}

/// A predefined query against the team records; times are unix
/// timestamps in seconds.
#[derive(Clone, Debug)]
pub enum TeamQuery {
    CheckTeamnameAvailability {
        name: String,
    },
    CreateNewTeam {
        name: String,
        description: String,
        eligible: bool,
        affiliation: Option<String>,
        password: String,
        initial_user: Uuid,
        user_auth: Auth,
    },
    UpdateTeam {
        id: Uuid,
        name: Option<String>,
        description: Option<String>,
        eligible: Option<bool>,
        affiliation: Option<Option<String>>,
        password: String,
    },
    GetTeam {
        id: Uuid,
    },
    GetAllTeams,
    GetTopTeams {
        limit: u32,
    },
    GetTopTeamsScoreHistory {
        limit: u32,
        start_time: i64,
    },
}

/// A predefined query against the challenge records.
#[derive(Clone, Debug)]
pub enum ChallQuery {
    CreateChallenge {
        id: Option<Uuid>,
        name: String,
        description: String,
        points: i32,
        authors: Vec<String>,
        hints: Vec<String>,
        categories: Vec<String>,
        tags: Vec<String>,
        links: Vec<Link>,
        visible: bool,
        source_folder: String,
        flag: String,
    },
    UpdateChallenge {
        id: Uuid,
        name: Option<String>,
        description: Option<String>,
        points: Option<i32>,
        authors: Option<Vec<String>>,
        hints: Option<Vec<String>>,
        categories: Option<Vec<String>>,
        tags: Option<Vec<String>>,
        links: Option<Vec<Link>>,
        visible: Option<bool>,
        source_folder: Option<String>,
    },
    GetChallenge {
        id: Uuid,
    },
    GetAllChallenges,
}

/// A predefined query against the solve records.
#[derive(Clone, Debug)]
pub enum SolveQuery {
    GetAllSolves,
    GetSolve { id: Uuid },
    GetAllSolvesByChall { chall_id: Uuid },
    GetAllSolvesByTeam { team_id: Uuid },
    GetAllSolvesByUser { user_id: Uuid },
    AttemptSolve {
        user_id: Uuid,
        team_id: Uuid,
        chall_id: Uuid,
        user_auth: Auth,
        flag_guess: String,
    },
    ClearAllSolvesForChallenge { id: Uuid },
}

/// A predefined query against the attempt records.
#[derive(Clone, Copy, Debug)]
pub enum AttemptQuery {
    GetAllAttemptsByChall { chall_id: Uuid },
    GetAllAttemptsByTeam { team_id: Uuid },
    GetAllAttempts,
}

/// The sql slot of an envelope.
#[derive(Clone, Debug)]
pub enum ToSql {
    User(UserQuery),
    Team(TeamQuery),
    Chall(ChallQuery),
    Solve(SolveQuery),
    Attempt(AttemptQuery),
}

/// The parsed envelope of one inbound call: up to one sub-request per
/// domain. A slot's presence or absence is preserved unchanged through
/// dispatch; the engine neither synthesizes nor drops slots.
#[derive(Debug)]
pub struct Incoming {
    /// Deploy query (create, poll, and stop deployments).
    pub depl: Option<ToDeploy>,
    /// Discord query (first blood and organizer notifications).
    pub disc: Option<ToDiscord>,
    /// Frontend query (resync cache).
    pub fron: Option<ToFrontend>,
    /// Sql query (predefined record queries and updates).
    pub sqll: Option<ToSql>,
}

} // verus!
