//! The record shapes the sql domain reports back.
//!
//! Each record type mirrors a database row with identifiers and times as
//! plain values (128-bit numbers and unix timestamps in seconds). The
//! `Serializable*` forms are the wire shapes: times become unsigned
//! seconds there, and each knows how to render itself as a JSON document.

use vstd::prelude::*;
use crate::ids::{spec_uuid_text, Uuid};
use crate::json::{
    json_obj_new, json_obj_push, json_str_arr, spec_str_arr, JsonModel, JsonValue,
};
use crate::sql::CiText;

verus! {

/// A team row; `last_solve` is a unix timestamp in seconds.
#[derive(Clone, Debug)]
pub struct Team {
    pub id: Uuid,
    pub name: CiText,
    pub score: i32,
    pub last_solve: Option<i64>,
    pub eligible: bool,
    pub affiliation: Option<String>,
}

/// The wire shape of a [`Team`].
#[derive(Clone, Debug)]
pub struct SerializableTeam {
    pub id: Uuid,
    pub name: CiText,
    pub score: i32,
    pub last_solve: Option<u64>,
    pub eligible: bool,
    pub affiliation: Option<String>,
}

impl SerializableTeam {
    /// The value a [`Team`] converts to.
    pub open spec fn spec_from(t: Team) -> SerializableTeam {
        SerializableTeam {
            id: t.id,
            name: t.name,
            score: t.score,
            last_solve: match t.last_solve {
                Some(secs) => Some(#[verifier::truncate] (secs as u64)),
                None => None,
            },
            eligible: t.eligible,
            affiliation: t.affiliation,
        }
    }

    /// Converts a [`Team`].
    pub fn from(t: Team) -> (r: SerializableTeam)
        ensures
            r == SerializableTeam::spec_from(t),
    {
        SerializableTeam {
            id: t.id,
            name: t.name,
            score: t.score,
            last_solve: match t.last_solve {
                Some(secs) => Some(#[verifier::truncate] (secs as u64)),
                None => None,
            },
            eligible: t.eligible,
            affiliation: t.affiliation,
        }
    }
}

/// The document a [`SerializableTeam`] renders to.
pub open spec fn spec_team_json(t: SerializableTeam) -> JsonModel {
    JsonModel::Obj(
        seq![
            ("id"@, JsonModel::Str(spec_uuid_text(t.id.value))),
            ("name"@, JsonModel::Str(t.name.spec_str())),
            ("score"@, JsonModel::Int(t.score as i64)),
            (
                "last_solve"@,
                match t.last_solve {
                    Some(secs) => JsonModel::UInt(secs),
                    None => JsonModel::Null,
                },
            ),
            ("eligible"@, JsonModel::Bool(t.eligible)),
            (
                "affiliation"@,
                match t.affiliation {
                    Some(a) => JsonModel::Str(a@),
                    None => JsonModel::Null,
                },
            ),
        ],
    )
}

impl SerializableTeam {
    /// Renders the wire document of this team.
    pub fn to_json(self) -> (r: JsonValue)
        ensures
            r@ == spec_team_json(self),
    {
        let mut o = json_obj_new();
        json_obj_push(&mut o, "id", JsonValue::Str(self.id.hyphenated()));
        json_obj_push(&mut o, "name", JsonValue::Str(self.name.string()));
        json_obj_push(&mut o, "score", JsonValue::Int(self.score as i64));
        json_obj_push(
            &mut o,
            "last_solve",
            match self.last_solve {
                Some(secs) => JsonValue::UInt(secs),
                None => JsonValue::Null,
            },
        );
        json_obj_push(&mut o, "eligible", JsonValue::Bool(self.eligible));
        json_obj_push(
            &mut o,
            "affiliation",
            match self.affiliation {
                Some(a) => JsonValue::Str(a),
                None => JsonValue::Null,
            },
        );
        proof {
            let entries = spec_team_json(self)->Obj_0;
            assert(o@->Obj_0 =~= entries);
            assert(o@ == JsonModel::Obj(entries));
        }
        o
    }
}

/// One point of a team's score history, used to assemble [`History`].
#[derive(Clone, Copy, Debug)]
pub struct ScoreEntry {
    pub team_id: Uuid,
    pub score: i32,
    pub time: i64,
}

/// A user row; `last_solve` is a unix timestamp in seconds.
#[derive(Clone, Debug)]
pub struct User {
    pub id: Uuid,
    pub email: CiText,
    pub name: CiText,
    pub team_id: Option<Uuid>,
    pub score: i32,
    pub last_solve: Option<i64>,
    pub eligible: bool,
    pub admin: bool,
}

/// The wire shape of a [`User`].
#[derive(Clone, Debug)]
pub struct SerializableUser {
    pub id: Uuid,
    pub email: CiText,
    pub name: CiText,
    pub team_id: Option<Uuid>,
    pub score: i32,
    pub last_solve: Option<u64>,
    pub eligible: bool,
    pub admin: bool,
}

impl SerializableUser {
    /// The value a [`User`] converts to.
    pub open spec fn spec_from(u: User) -> SerializableUser {
        SerializableUser {
            id: u.id,
            email: u.email,
            name: u.name,
            team_id: u.team_id,
            score: u.score,
            last_solve: match u.last_solve {
                Some(secs) => Some(#[verifier::truncate] (secs as u64)),
                None => None,
            },
            eligible: u.eligible,
            admin: u.admin,
        }
    }

    /// Converts a [`User`].
    pub fn from(u: User) -> (r: SerializableUser)
        ensures
            r == SerializableUser::spec_from(u),
    {
        SerializableUser {
            id: u.id,
            email: u.email,
            name: u.name,
            team_id: u.team_id,
            score: u.score,
            last_solve: match u.last_solve {
                Some(secs) => Some(#[verifier::truncate] (secs as u64)),
                None => None,
            },
            eligible: u.eligible,
            admin: u.admin,
        }
    }
}

/// The document a [`SerializableUser`] renders to.
pub open spec fn spec_user_json(u: SerializableUser) -> JsonModel {
    JsonModel::Obj(
        seq![
            ("id"@, JsonModel::Str(spec_uuid_text(u.id.value))),
            ("email"@, JsonModel::Str(u.email.spec_str())),
            ("name"@, JsonModel::Str(u.name.spec_str())),
            (
                "team_id"@,
                match u.team_id {
                    Some(t) => JsonModel::Str(spec_uuid_text(t.value)),
                    None => JsonModel::Null,
                },
            ),
            ("score"@, JsonModel::Int(u.score as i64)),
            (
                "last_solve"@,
                match u.last_solve {
                    Some(secs) => JsonModel::UInt(secs),
                    None => JsonModel::Null,
                },
            ),
            ("eligible"@, JsonModel::Bool(u.eligible)),
            ("admin"@, JsonModel::Bool(u.admin)),
        ],
    )
}

impl SerializableUser {
    /// Renders the wire document of this user.
    pub fn to_json(self) -> (r: JsonValue)
        ensures
            r@ == spec_user_json(self),
    {
        let mut o = json_obj_new();
        json_obj_push(&mut o, "id", JsonValue::Str(self.id.hyphenated()));
        json_obj_push(&mut o, "email", JsonValue::Str(self.email.string()));
        json_obj_push(&mut o, "name", JsonValue::Str(self.name.string()));
        json_obj_push(
            &mut o,
            "team_id",
            match &self.team_id {
                Some(t) => JsonValue::Str(t.hyphenated()),
                None => JsonValue::Null,
            },
        );
        json_obj_push(&mut o, "score", JsonValue::Int(self.score as i64));
        json_obj_push(
            &mut o,
            "last_solve",
            match self.last_solve {
                Some(secs) => JsonValue::UInt(secs),
                None => JsonValue::Null,
            },
        );
        json_obj_push(&mut o, "eligible", JsonValue::Bool(self.eligible));
        json_obj_push(&mut o, "admin", JsonValue::Bool(self.admin));
        proof {
            let entries = spec_user_json(self)->Obj_0;
            assert(o@->Obj_0 =~= entries);
            assert(o@ == JsonModel::Obj(entries));
        }
        o
    }
}

/// A solve row; `time` is a unix timestamp in seconds.
#[derive(Clone, Copy, Debug)]
pub struct Solve {
    pub id: Uuid,
    pub user_id: Uuid,
    pub team_id: Uuid,
    pub chall_id: Uuid,
    pub correct: bool,
    pub counted: bool,
    pub time: i64,
}

/// The wire shape of a [`Solve`].
#[derive(Clone, Copy, Debug)]
pub struct SerializableSolve {
    pub id: Uuid,
    pub user_id: Uuid,
    pub team_id: Uuid,
    pub chall_id: Uuid,
    pub correct: bool,
    pub counted: bool,
    pub time: u64,
}

impl SerializableSolve {
    /// The value a [`Solve`] converts to.
    pub open spec fn spec_from(s: Solve) -> SerializableSolve {
        SerializableSolve {
            id: s.id,
            user_id: s.user_id,
            team_id: s.team_id,
            chall_id: s.chall_id,
            correct: s.correct,
            counted: s.counted,
            time: #[verifier::truncate] (s.time as u64),
        }
    }

    /// Converts a [`Solve`].
    pub fn from(s: Solve) -> (r: SerializableSolve)
        ensures
            r == SerializableSolve::spec_from(s),
    {
        SerializableSolve {
            id: s.id,
            user_id: s.user_id,
            team_id: s.team_id,
            chall_id: s.chall_id,
            correct: s.correct,
            counted: s.counted,
            time: #[verifier::truncate] (s.time as u64),
        }
    }
}

/// The document a [`SerializableSolve`] renders to.
pub open spec fn spec_solve_json(s: SerializableSolve) -> JsonModel {
    JsonModel::Obj(
        seq![
            ("id"@, JsonModel::Str(spec_uuid_text(s.id.value))),
            ("user_id"@, JsonModel::Str(spec_uuid_text(s.user_id.value))),
            ("team_id"@, JsonModel::Str(spec_uuid_text(s.team_id.value))),
            ("chall_id"@, JsonModel::Str(spec_uuid_text(s.chall_id.value))),
            ("correct"@, JsonModel::Bool(s.correct)),
            ("counted"@, JsonModel::Bool(s.counted)),
            ("time"@, JsonModel::UInt(s.time)),
        ],
    )
}

impl SerializableSolve {
    /// Renders the wire document of this solve.
    pub fn to_json(self) -> (r: JsonValue)
        ensures
            r@ == spec_solve_json(self),
    {
        let mut o = json_obj_new();
        json_obj_push(&mut o, "id", JsonValue::Str(self.id.hyphenated()));
        json_obj_push(&mut o, "user_id", JsonValue::Str(self.user_id.hyphenated()));
        json_obj_push(&mut o, "team_id", JsonValue::Str(self.team_id.hyphenated()));
        json_obj_push(&mut o, "chall_id", JsonValue::Str(self.chall_id.hyphenated()));
        json_obj_push(&mut o, "correct", JsonValue::Bool(self.correct));
        json_obj_push(&mut o, "counted", JsonValue::Bool(self.counted));
        json_obj_push(&mut o, "time", JsonValue::UInt(self.time));
        proof {
            let entries = spec_solve_json(self)->Obj_0;
            assert(o@->Obj_0 =~= entries);
            assert(o@ == JsonModel::Obj(entries));
        }
        o
    }
}

/// An aggregate count of flag attempts, for a challenge, a team, or the
/// whole event.
#[derive(Clone, Copy, Debug)]
pub struct Attempts {
    pub chall_id: Option<Uuid>,
    pub team_id: Option<Uuid>,
    pub correct: u64,
    pub incorrect: u64,
}

/// The wire shape of an [`Attempts`] count.
#[derive(Clone, Copy, Debug)]
pub struct SerializableAttempts {
    pub chall_id: Option<Uuid>,
    pub team_id: Option<Uuid>,
    pub correct: u64,
    pub incorrect: u64,
}

impl SerializableAttempts {
    /// The value a [`Attempts`] converts to.
    pub open spec fn spec_from(a: Attempts) -> SerializableAttempts {
        SerializableAttempts {
            chall_id: a.chall_id,
            team_id: a.team_id,
            correct: a.correct,
            incorrect: a.incorrect,
        }
    }

    /// Converts a [`Attempts`].
    pub fn from(a: Attempts) -> (r: SerializableAttempts)
        ensures
            r == SerializableAttempts::spec_from(a),
    {
        SerializableAttempts {
            chall_id: a.chall_id,
            team_id: a.team_id,
            correct: a.correct,
            incorrect: a.incorrect,
        }
    }
}

/// The document a [`SerializableAttempts`] renders to.
pub open spec fn spec_attempts_json(a: SerializableAttempts) -> JsonModel {
    JsonModel::Obj(
        seq![
            (
                "chall_id"@,
                match a.chall_id {
                    Some(c) => JsonModel::Str(spec_uuid_text(c.value)),
                    None => JsonModel::Null,
                },
            ),
            (
                "team_id"@,
                match a.team_id {
                    Some(t) => JsonModel::Str(spec_uuid_text(t.value)),
                    None => JsonModel::Null,
                },
            ),
            ("correct"@, JsonModel::UInt(a.correct)),
            ("incorrect"@, JsonModel::UInt(a.incorrect)),
        ],
    )
}

impl SerializableAttempts {
    /// Renders the wire document of this attempt count.
    pub fn to_json(self) -> (r: JsonValue)
        ensures
            r@ == spec_attempts_json(self),
    {
        let mut o = json_obj_new();
        json_obj_push(
            &mut o,
            "chall_id",
            match &self.chall_id {
                Some(c) => JsonValue::Str(c.hyphenated()),
                None => JsonValue::Null,
            },
        );
        json_obj_push(
            &mut o,
            "team_id",
            match &self.team_id {
                Some(t) => JsonValue::Str(t.hyphenated()),
                None => JsonValue::Null,
            },
        );
        json_obj_push(&mut o, "correct", JsonValue::UInt(self.correct));
        json_obj_push(&mut o, "incorrect", JsonValue::UInt(self.incorrect));
        proof {
            let entries = spec_attempts_json(self)->Obj_0;
            assert(o@->Obj_0 =~= entries);
            assert(o@ == JsonModel::Obj(entries));
        }
        o
    }
}

/// One point of a team's reported score history.
#[derive(Clone, Copy, Debug)]
pub struct SimpleHistoryEntry {
    pub points: u64,
    pub time: u64,
}

/// The document a [`SimpleHistoryEntry`] renders to.
pub open spec fn spec_history_entry_json(e: SimpleHistoryEntry) -> JsonModel {
    JsonModel::Obj(
        seq![("points"@, JsonModel::UInt(e.points)), ("time"@, JsonModel::UInt(e.time))],
    )
}

impl SimpleHistoryEntry {
    /// Renders the wire document of this history point.
    pub fn to_json(self) -> (r: JsonValue)
        ensures
            r@ == spec_history_entry_json(self),
    {
        let mut o = json_obj_new();
        json_obj_push(&mut o, "points", JsonValue::UInt(self.points));
        json_obj_push(&mut o, "time", JsonValue::UInt(self.time));
        proof {
            let entries = spec_history_entry_json(self)->Obj_0;
            assert(o@->Obj_0 =~= entries);
            assert(o@ == JsonModel::Obj(entries));
        }
        o
    }
}

/// A team's score history, as reported to the caller.
#[derive(Clone, Debug)]
pub struct History {
    pub team_id: Uuid,
    pub entries: Vec<SimpleHistoryEntry>,
}

/// The document a [`History`] renders to.
pub open spec fn spec_history_json(h: History) -> JsonModel {
    JsonModel::Obj(
        seq![
            ("team_id"@, JsonModel::Str(spec_uuid_text(h.team_id.value))),
            (
                "entries"@,
                JsonModel::Arr(
                    Seq::new(h.entries@.len(), |i: int| spec_history_entry_json(h.entries@[i])),
                ),
            ),
        ],
    )
}

impl History {
    /// Renders the wire document of this history.
    pub fn to_json(self) -> (r: JsonValue)
        ensures
            r@ == spec_history_json(self),
    {
        let ghost source = self.entries@;
        let mut items: Vec<JsonValue> = Vec::new();
        let mut i: usize = 0;
        while i < self.entries.len()
            invariant
                i <= source.len(),
                self.entries@ == source,
                items@.len() == i,
                forall|j: int|
                    0 <= j < i ==> #[trigger] items@[j]@ == spec_history_entry_json(source[j]),
            decreases source.len() - i,
        {
            items.push(self.entries[i].to_json());
            i += 1;
        }
        let mut o = json_obj_new();
        json_obj_push(&mut o, "team_id", JsonValue::Str(self.team_id.hyphenated()));
        let ghost items_seq = items@;
        proof {
            crate::json::lemma_item_models(items_seq);
            let target = Seq::new(source.len(), |j: int| spec_history_entry_json(source[j]));
            assert forall|j: int| 0 <= j < source.len() implies crate::json::spec_item_models(
                items_seq,
            )[j] == target[j] by {
                assert(items@[j]@ == spec_history_entry_json(source[j]));
            }
            assert(crate::json::spec_item_models(items_seq) =~= target);
        }
        let arr = JsonValue::Arr(items);
        json_obj_push(&mut o, "entries", arr);
        proof {
            let entries = spec_history_json(self)->Obj_0;
            assert(o@->Obj_0 =~= entries);
            assert(o@ == JsonModel::Obj(entries));
        }
        o
    }
}

/// The challenge links grouped by kind, as they appear on the wire.
#[derive(Clone, Debug)]
pub struct Links {
    pub nc: Vec<String>,
    pub web: Vec<String>,
    pub admin: Vec<String>,
    pub static_links: Vec<String>,
}

/// The document a [`Links`] group renders to; the `static` key loses the
/// suffix its field name carries.
pub open spec fn spec_links_json(l: Links) -> JsonModel {
    JsonModel::Obj(
        seq![
            ("nc"@, spec_str_arr(l.nc@)),
            ("web"@, spec_str_arr(l.web@)),
            ("admin"@, spec_str_arr(l.admin@)),
            ("static"@, spec_str_arr(l.static_links@)),
        ],
    )
}

impl Links {
    /// Renders the wire document of this link group.
    pub fn to_json(self) -> (r: JsonValue)
        ensures
            r@ == spec_links_json(self),
    {
        let mut o = json_obj_new();
        json_obj_push(&mut o, "nc", json_str_arr(self.nc));
        json_obj_push(&mut o, "web", json_str_arr(self.web));
        json_obj_push(&mut o, "admin", json_str_arr(self.admin));
        json_obj_push(&mut o, "static", json_str_arr(self.static_links));
        proof {
            let entries = spec_links_json(self)->Obj_0;
            assert(o@->Obj_0 =~= entries);
            assert(o@ == JsonModel::Obj(entries));
        }
        o
    }
}

/// A challenge row with its links flattened by kind.
#[derive(Clone, Debug)]
pub struct Chall {
    pub id: Uuid,
    pub name: CiText,
    pub description: String,
    pub points: i32,
    pub authors: Vec<String>,
    pub hints: Vec<String>,
    pub categories: Vec<String>,
    pub tags: Vec<String>,
    pub solve_count: i32,
    pub visible: bool,
    pub source_folder: String,
    pub links_nc: Vec<String>,
    pub links_web: Vec<String>,
    pub links_admin: Vec<String>,
    pub links_static: Vec<String>,
}

/// The wire shape of a [`Chall`], with the links grouped.
#[derive(Clone, Debug)]
pub struct SerializableChall {
    pub id: Uuid,
    pub name: CiText,
    pub description: String,
    pub points: i32,
    pub authors: Vec<String>,
    pub hints: Vec<String>,
    pub categories: Vec<String>,
    pub tags: Vec<String>,
    pub solve_count: i32,
    pub visible: bool,
    pub source_folder: String,
    pub links: Links,
}

impl SerializableChall {
    /// The value a [`Chall`] converts to.
    pub open spec fn spec_from(c: Chall) -> SerializableChall {
        SerializableChall {
            id: c.id,
            name: c.name,
            description: c.description,
            points: c.points,
            authors: c.authors,
            hints: c.hints,
            categories: c.categories,
            tags: c.tags,
            solve_count: c.solve_count,
            visible: c.visible,
            source_folder: c.source_folder,
            links: Links {
                nc: c.links_nc,
                web: c.links_web,
                admin: c.links_admin,
                static_links: c.links_static,
            },
        }
    }

    /// Converts a [`Chall`].
    pub fn from(c: Chall) -> (r: SerializableChall)
        ensures
            r == SerializableChall::spec_from(c),
    {
        SerializableChall {
            id: c.id,
            name: c.name,
            description: c.description,
            points: c.points,
            authors: c.authors,
            hints: c.hints,
            categories: c.categories,
            tags: c.tags,
            solve_count: c.solve_count,
            visible: c.visible,
            source_folder: c.source_folder,
            links: Links {
                nc: c.links_nc,
                web: c.links_web,
                admin: c.links_admin,
                static_links: c.links_static,
            },
        }
    }
}

impl Chall {
    /// The value a [`SerializableChall`] converts to.
    pub open spec fn spec_from(c: SerializableChall) -> Chall {
        Chall {
            id: c.id,
            name: c.name,
            description: c.description,
            points: c.points,
            authors: c.authors,
            hints: c.hints,
            categories: c.categories,
            tags: c.tags,
            solve_count: c.solve_count,
            visible: c.visible,
            source_folder: c.source_folder,
            links_nc: c.links.nc,
            links_web: c.links.web,
            links_admin: c.links.admin,
            links_static: c.links.static_links,
        }
    }

    /// Converts a [`SerializableChall`].
    pub fn from(c: SerializableChall) -> (r: Chall)
        ensures
            r == Chall::spec_from(c),
    {
        Chall {
            id: c.id,
            name: c.name,
            description: c.description,
            points: c.points,
            authors: c.authors,
            hints: c.hints,
            categories: c.categories,
            tags: c.tags,
            solve_count: c.solve_count,
            visible: c.visible,
            source_folder: c.source_folder,
            links_nc: c.links.nc,
            links_web: c.links.web,
            links_admin: c.links.admin,
            links_static: c.links.static_links,
        }
    }
}

/// The document a [`SerializableChall`] renders to.
pub open spec fn spec_chall_json(c: SerializableChall) -> JsonModel {
    JsonModel::Obj(
        seq![
            ("id"@, JsonModel::Str(spec_uuid_text(c.id.value))),
            ("name"@, JsonModel::Str(c.name.spec_str())),
            ("description"@, JsonModel::Str(c.description@)),
            ("points"@, JsonModel::Int(c.points as i64)),
            ("authors"@, spec_str_arr(c.authors@)),
            ("hints"@, spec_str_arr(c.hints@)),
            ("categories"@, spec_str_arr(c.categories@)),
            ("tags"@, spec_str_arr(c.tags@)),
            ("solve_count"@, JsonModel::Int(c.solve_count as i64)),
            ("visible"@, JsonModel::Bool(c.visible)),
            ("source_folder"@, JsonModel::Str(c.source_folder@)),
            ("links"@, spec_links_json(c.links)),
        ],
    )
}

impl SerializableChall {
    /// Renders the wire document of this challenge.
    pub fn to_json(self) -> (r: JsonValue)
        ensures
            r@ == spec_chall_json(self),
    {
        let mut o = json_obj_new();
        json_obj_push(&mut o, "id", JsonValue::Str(self.id.hyphenated()));
        json_obj_push(&mut o, "name", JsonValue::Str(self.name.string()));
        json_obj_push(&mut o, "description", JsonValue::Str(self.description));
        json_obj_push(&mut o, "points", JsonValue::Int(self.points as i64));
        json_obj_push(&mut o, "authors", json_str_arr(self.authors));
        json_obj_push(&mut o, "hints", json_str_arr(self.hints));
        json_obj_push(&mut o, "categories", json_str_arr(self.categories));
        json_obj_push(&mut o, "tags", json_str_arr(self.tags));
        json_obj_push(&mut o, "solve_count", JsonValue::Int(self.solve_count as i64));
        json_obj_push(&mut o, "visible", JsonValue::Bool(self.visible));
        json_obj_push(&mut o, "source_folder", JsonValue::Str(self.source_folder));
        json_obj_push(&mut o, "links", self.links.to_json());
        proof {
            let entries = spec_chall_json(self)->Obj_0;
            assert(o@->Obj_0 =~= entries);
            assert(o@ == JsonModel::Obj(entries));
        }
        o
    }
}

} // verus!
