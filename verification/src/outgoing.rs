//! Per-domain outcomes and their wire documents.
//!
//! Each domain reports either a success payload or a structured,
//! self-describing error. An error knows its status code and renders its
//! own error body; a success payload renders the document the caller
//! sees under `data`. The aggregation over all four domains lives in
//! [`crate::response`].

use vstd::prelude::*;
use crate::ids::{spec_uuid_text, Uuid};
use crate::incoming::SyncType;
use crate::json::{
    json_obj_new, json_obj_push, json_str, json_str_arr, spec_str_arr, JsonModel, JsonValue,
};
use crate::records::{
    spec_attempts_json, spec_chall_json, spec_history_json, spec_solve_json, spec_team_json,
    spec_user_json, Attempts, Chall, History, SerializableAttempts, SerializableChall,
    SerializableSolve, SerializableTeam, SerializableUser, Solve, Team, User,
};

verus! {

/// The name of a lossy text decoding, as `String::from_utf8_lossy`
/// computes it: a function of the bytes alone.
pub uninterp spec fn lossy_utf8(bytes: Seq<u8>) -> Seq<char>;

/// Relies on `String::from_utf8_lossy`: decodes the bytes as UTF-8,
/// substituting the replacement character for invalid sequences; the
/// result depends on the bytes alone.
#[verifier::external_body]
fn utf8_lossy(bytes: &[u8]) -> (r: String)
    ensures
        r@ == lossy_utf8(bytes@),
{
    String::from_utf8_lossy(bytes).into_owned()
}

/// How a domain error presents itself to the response: a status code and
/// an error body, where rendering the body may itself fail with a
/// diagnostic.
pub trait OutgoingErr: Sized {
    /// The status code this error asks for.
    spec fn spec_status_code(&self) -> u16;

    /// The document (or rendering diagnostic) this error produces.
    spec fn spec_body(self) -> Result<JsonModel, Seq<char>>;

    /// Reports the status code this error asks for. It may not become
    /// the response's overall code: that is decided across all domains.
    fn status_code(&self) -> (r: u16)
        ensures
            r == self.spec_status_code(),
    ;

    /// Renders the error body, or a diagnostic when rendering fails.
    fn body(self) -> (r: Result<JsonValue, String>)
        ensures
            body_result_matches(r, self.spec_body()),
    ;
}

/// Whether a rendered body agrees with its specified document.
pub open spec fn body_result_matches(
    r: Result<JsonValue, String>,
    m: Result<JsonModel, Seq<char>>,
) -> bool {
    match r {
        Ok(v) => m matches Ok(mm) && v@ == mm,
        Err(s) => m matches Err(t) && s@ == t,
    }
}

// ---------------------------------------------------------------------
// deploy
// ---------------------------------------------------------------------

/// Where a deployment currently stands.
#[derive(Clone, Copy, PartialEq, Eq, Structural, Debug)]
pub enum Status {
    Started,
    Building,
    Pulling,
    Pushing,
    Uploading,
    Success,
    Failure,
    Unknown,
}

impl Status {
    /// The wire name of this status.
    pub open spec fn spec_label(self) -> Seq<char> {
        match self {
            Status::Started => "started"@,
            Status::Building => "building"@,
            Status::Pulling => "pulling"@,
            Status::Pushing => "pushing"@,
            Status::Uploading => "uploading"@,
            Status::Success => "success"@,
            Status::Failure => "failure"@,
            Status::Unknown => "unknown"@,
        }
    }

    /// Renders the wire name of this status.
    pub fn label(&self) -> (r: &'static str)
        ensures
            r@ == self.spec_label(),
    {
        match self {
            Status::Started => "started",
            Status::Building => "building",
            Status::Pulling => "pulling",
            Status::Pushing => "pushing",
            Status::Uploading => "uploading",
            Status::Success => "success",
            Status::Failure => "failure",
            Status::Unknown => "unknown",
        }
    }
}

/// A span of time as the deploy server reports it.
#[derive(Clone, Copy, PartialEq, Eq, Structural, Debug)]
pub struct Duration {
    pub secs: u64,
    pub nanos: u32,
}

/// A deployment poll answer.
#[derive(Clone, Debug)]
pub struct DeploymentStatus {
    pub status: Status,
    pub status_time: Duration,
    pub chall_name: Option<String>,
    pub poll_id: Uuid,
    pub err_msg: Option<String>,
}

/// The document a [`DeploymentStatus`] renders to.
pub open spec fn spec_deployment_status_json(d: DeploymentStatus) -> JsonModel {
    JsonModel::Obj(
        seq![
            ("status"@, JsonModel::Str(d.status.spec_label())),
            (
                "status_time"@,
                JsonModel::Obj(
                    seq![
                        ("secs"@, JsonModel::UInt(d.status_time.secs)),
                        ("nanos"@, JsonModel::UInt(d.status_time.nanos as u64)),
                    ],
                ),
            ),
            (
                "chall_name"@,
                match d.chall_name {
                    Some(n) => JsonModel::Str(n@),
                    None => JsonModel::Null,
                },
            ),
            ("poll_id"@, JsonModel::Str(spec_uuid_text(d.poll_id.value))),
            (
                "err_msg"@,
                match d.err_msg {
                    Some(m) => JsonModel::Str(m@),
                    None => JsonModel::Null,
                },
            ),
        ],
    )
}

impl DeploymentStatus {
    /// Renders the wire document of this poll answer.
    pub fn to_json(self) -> (r: JsonValue)
        ensures
            r@ == spec_deployment_status_json(self),
    {
        let mut time = json_obj_new();
        json_obj_push(&mut time, "secs", JsonValue::UInt(self.status_time.secs));
        json_obj_push(&mut time, "nanos", JsonValue::UInt(self.status_time.nanos as u64));
        proof {
            let time_entries = seq![
                ("secs"@, JsonModel::UInt(self.status_time.secs)),
                ("nanos"@, JsonModel::UInt(self.status_time.nanos as u64)),
            ];
            assert(time@->Obj_0 =~= time_entries);
            assert(time@ == JsonModel::Obj(time_entries));
        }
        let mut o = json_obj_new();
        json_obj_push(&mut o, "status", json_str(self.status.label()));
        json_obj_push(&mut o, "status_time", time);
        json_obj_push(
            &mut o,
            "chall_name",
            match self.chall_name {
                Some(n) => JsonValue::Str(n),
                None => JsonValue::Null,
            },
        );
        json_obj_push(&mut o, "poll_id", JsonValue::Str(self.poll_id.hyphenated()));
        json_obj_push(
            &mut o,
            "err_msg",
            match self.err_msg {
                Some(m) => JsonValue::Str(m),
                None => JsonValue::Null,
            },
        );
        proof {
            let entries = spec_deployment_status_json(self)->Obj_0;
            assert(o@->Obj_0 =~~= entries);
            assert(o@ == JsonModel::Obj(entries));
        }
        o
    }
}

/// The deploy domain's success payload.
#[derive(Clone, Debug)]
pub enum FromDeploy {
    Status(DeploymentStatus),
    ChallNameList(Vec<String>),
}

/// The document a [`FromDeploy`] renders to.
pub open spec fn spec_from_deploy_json(f: FromDeploy) -> JsonModel {
    match f {
        FromDeploy::Status(d) => JsonModel::Obj(
            seq![
                ("__type"@, JsonModel::Str("status"@)),
                ("data"@, spec_deployment_status_json(d)),
            ],
        ),
        FromDeploy::ChallNameList(names) => JsonModel::Obj(
            seq![
                ("__type"@, JsonModel::Str("chall_name_list"@)),
                ("data"@, spec_str_arr(names@)),
            ],
        ),
    }
}

impl FromDeploy {
    /// Renders the wire document of this payload.
    pub fn body(self) -> (r: JsonValue)
        ensures
            r@ == spec_from_deploy_json(self),
    {
        let ghost model = spec_from_deploy_json(self);
        let mut o = json_obj_new();
        match self {
            FromDeploy::Status(d) => {
                json_obj_push(&mut o, "__type", json_str("status"));
                json_obj_push(&mut o, "data", d.to_json());
            }
            FromDeploy::ChallNameList(names) => {
                json_obj_push(&mut o, "__type", json_str("chall_name_list"));
                json_obj_push(&mut o, "data", json_str_arr(names));
            }
        }
        proof {
            assert(o@->Obj_0 =~= model->Obj_0);
            assert(o@ == JsonModel::Obj(model->Obj_0));
        }
        o
    }
}

/// The deploy domain's error.
#[derive(Clone, Debug)]
pub enum FromDeployErr {
    BadSend,
    BadResponse,
    DbError,
    DeployServer { code: u16, body: Vec<u8> },
}

impl OutgoingErr for FromDeployErr {
    open spec fn spec_status_code(&self) -> u16 {
        match self {
            FromDeployErr::BadSend | FromDeployErr::BadResponse | FromDeployErr::DbError => 500,
            FromDeployErr::DeployServer { code, .. } => *code,
        }
    }

    open spec fn spec_body(self) -> Result<JsonModel, Seq<char>> {
        match self {
            FromDeployErr::BadSend => Ok(
                JsonModel::Str("Failed to forward request to the deploy server"@),
            ),
            FromDeployErr::BadResponse => Ok(
                JsonModel::Str("The deploy server responded with an invalid data shape."@),
            ),
            FromDeployErr::DbError => Ok(
                JsonModel::Str(
                    "There was a database issue that prevented the deploy message from being sent."@,
                ),
            ),
            FromDeployErr::DeployServer { body, .. } => Ok(JsonModel::Str(lossy_utf8(body@))),
        }
    }

    fn status_code(&self) -> (r: u16) {
        match self {
            FromDeployErr::BadSend | FromDeployErr::BadResponse | FromDeployErr::DbError => 500,
            FromDeployErr::DeployServer { code, .. } => *code,
        }
    }

    fn body(self) -> (r: Result<JsonValue, String>) {
        match self {
            FromDeployErr::BadSend => Ok(
                json_str("Failed to forward request to the deploy server"),
            ),
            FromDeployErr::BadResponse => Ok(
                json_str("The deploy server responded with an invalid data shape."),
            ),
            FromDeployErr::DbError => Ok(
                json_str(
                    "There was a database issue that prevented the deploy message from being sent.",
                ),
            ),
            FromDeployErr::DeployServer { body, .. } => Ok(
                JsonValue::Str(utf8_lossy(body.as_slice())),
            ),
        }
    }
}

// ---------------------------------------------------------------------
// discord
// ---------------------------------------------------------------------

/// The discord domain's success payload: the notification went out.
#[derive(Clone, Copy, Debug)]
pub struct FromDiscord;

impl FromDiscord {
    /// Renders the wire document of this payload.
    pub fn body(self) -> (r: JsonValue)
        ensures
            r@ == JsonModel::Str("success"@),
    {
        json_str("success")
    }
}

/// The discord domain's error: what the notification service answered.
#[derive(Clone, Debug)]
pub struct FromDiscordErr {
    pub status_code: u16,
    pub status_message: String,
    pub body: Vec<u8>,
}

impl OutgoingErr for FromDiscordErr {
    open spec fn spec_status_code(&self) -> u16 {
        self.status_code
    }

    open spec fn spec_body(self) -> Result<JsonModel, Seq<char>> {
        Ok(
            JsonModel::Obj(
                seq![
                    ("message"@, JsonModel::Str("failed to send discord message"@)),
                    ("code"@, JsonModel::UInt(self.status_code as u64)),
                    ("status_message"@, JsonModel::Str(self.status_message@)),
                    ("body"@, JsonModel::Str(lossy_utf8(self.body@))),
                ],
            ),
        )
    }

    fn status_code(&self) -> (r: u16) {
        self.status_code
    }

    fn body(self) -> (r: Result<JsonValue, String>) {
        let ghost model = self.spec_body();
        let mut o = json_obj_new();
        json_obj_push(&mut o, "message", json_str("failed to send discord message"));
        json_obj_push(&mut o, "code", JsonValue::UInt(self.status_code as u64));
        json_obj_push(&mut o, "status_message", JsonValue::Str(self.status_message));
        json_obj_push(&mut o, "body", JsonValue::Str(utf8_lossy(self.body.as_slice())));
        proof {
            assert(o@->Obj_0 =~= model->Ok_0->Obj_0);
            assert(o@ == JsonModel::Obj(model->Ok_0->Obj_0));
        }
        Ok(o)
    }
}

// ---------------------------------------------------------------------
// frontend
// ---------------------------------------------------------------------

impl SyncType {
    /// The wire name of this sync scope.
    pub open spec fn spec_label(self) -> Seq<char> {
        match self {
            SyncType::Chall(_) => "chall"@,
            SyncType::AllChalls => "all_challs"@,
            SyncType::User(_) => "user"@,
            SyncType::AllUsers => "all_users"@,
            SyncType::Team(_) => "team"@,
            SyncType::AllTeams => "all_teams"@,
            SyncType::Solves => "solves"@,
            SyncType::All => "all"@,
        }
    }

    /// The record this sync scope names, if it names one.
    pub open spec fn spec_id(self) -> Option<Uuid> {
        match self {
            SyncType::Chall(id) | SyncType::User(id) | SyncType::Team(id) => Some(id),
            _ => None,
        }
    }

    /// Renders the wire name of this sync scope.
    pub fn label(&self) -> (r: &'static str)
        ensures
            r@ == self.spec_label(),
    {
        match self {
            SyncType::Chall(_) => "chall",
            SyncType::AllChalls => "all_challs",
            SyncType::User(_) => "user",
            SyncType::AllUsers => "all_users",
            SyncType::Team(_) => "team",
            SyncType::AllTeams => "all_teams",
            SyncType::Solves => "solves",
            SyncType::All => "all",
        }
    }

    /// The record this sync scope names, if it names one.
    pub fn id(&self) -> (r: Option<Uuid>)
        ensures
            r == self.spec_id(),
    {
        match self {
            SyncType::Chall(id) | SyncType::User(id) | SyncType::Team(id) => Some(*id),
            _ => None,
        }
    }

    /// The tagged document this sync scope renders to on the way out:
    /// its wire name, and the record it names where it names one.
    pub open spec fn spec_tagged_json(self) -> JsonModel {
        match self.spec_id() {
            Some(id) => JsonModel::Obj(
                seq![
                    ("__sync_type"@, JsonModel::Str(self.spec_label())),
                    ("id"@, JsonModel::Str(spec_uuid_text(id.value))),
                ],
            ),
            None => JsonModel::Obj(seq![("__sync_type"@, JsonModel::Str(self.spec_label()))]),
        }
    }

    /// Renders [`Self::spec_tagged_json`].
    pub fn tagged_json(&self) -> (r: JsonValue)
        ensures
            r@ == self.spec_tagged_json(),
    {
        let ghost model = self.spec_tagged_json();
        let mut o = json_obj_new();
        json_obj_push(&mut o, "__sync_type", json_str(self.label()));
        match self.id() {
            Some(id) => {
                json_obj_push(&mut o, "id", JsonValue::Str(id.hyphenated()));
            }
            None => {}
        }
        proof {
            assert(o@->Obj_0 =~= model->Obj_0);
            assert(o@ == JsonModel::Obj(model->Obj_0));
        }
        o
    }
}

/// The frontend domain's success payload.
#[derive(Clone, Copy, Debug)]
pub enum FromFrontend {
    Synced(SyncType),
}

/// The document a [`FromFrontend`] renders to.
pub open spec fn spec_from_frontend_json(f: FromFrontend) -> JsonModel {
    match f {
        FromFrontend::Synced(s) => JsonModel::Obj(
            seq![("__type"@, JsonModel::Str("synced"@)), ("details"@, s.spec_tagged_json())],
        ),
    }
}

impl FromFrontend {
    /// Renders the wire document of this payload.
    pub fn body(self) -> (r: JsonValue)
        ensures
            r@ == spec_from_frontend_json(self),
    {
        let ghost model = spec_from_frontend_json(self);
        let mut o = json_obj_new();
        match self {
            FromFrontend::Synced(s) => {
                json_obj_push(&mut o, "__type", json_str("synced"));
                json_obj_push(&mut o, "details", s.tagged_json());
            }
        }
        proof {
            assert(o@->Obj_0 =~= model->Obj_0);
            assert(o@ == JsonModel::Obj(model->Obj_0));
        }
        o
    }
}

/// The frontend domain's error.
#[derive(Clone, Debug)]
pub enum FromFrontendErr {
    FailedToSync(SyncType),
    WebhookServerError(String),
}

/// The sync scope a frontend error reports, keyed `type` rather than the
/// tagged `__sync_type` of the success path.
pub open spec fn spec_sync_failure_json(s: SyncType) -> JsonModel {
    match s.spec_id() {
        Some(id) => JsonModel::Obj(
            seq![
                ("type"@, JsonModel::Str(s.spec_label())),
                ("id"@, JsonModel::Str(spec_uuid_text(id.value))),
            ],
        ),
        None => JsonModel::Obj(seq![("type"@, JsonModel::Str(s.spec_label()))]),
    }
}

impl OutgoingErr for FromFrontendErr {
    open spec fn spec_status_code(&self) -> u16 {
        500
    }

    open spec fn spec_body(self) -> Result<JsonModel, Seq<char>> {
        match self {
            FromFrontendErr::FailedToSync(s) => Ok(
                JsonModel::Obj(
                    seq![
                        ("message"@, JsonModel::Str("failed to sync"@)),
                        ("sync_type"@, spec_sync_failure_json(s)),
                    ],
                ),
            ),
            FromFrontendErr::WebhookServerError(reason) => Ok(
                JsonModel::Obj(
                    seq![
                        ("message"@, JsonModel::Str("failed to forward the sync req"@)),
                        ("reason"@, JsonModel::Str(reason@)),
                    ],
                ),
            ),
        }
    }

    fn status_code(&self) -> (r: u16) {
        500
    }

    fn body(self) -> (r: Result<JsonValue, String>) {
        let ghost model = self.spec_body();
        let mut o = json_obj_new();
        match self {
            FromFrontendErr::FailedToSync(s) => {
                let ghost inner = spec_sync_failure_json(s);
                let mut sync = json_obj_new();
                json_obj_push(&mut sync, "type", json_str(s.label()));
                match s.id() {
                    Some(id) => {
                        json_obj_push(&mut sync, "id", JsonValue::Str(id.hyphenated()));
                    }
                    None => {}
                }
                proof {
                    assert(sync@->Obj_0 =~= inner->Obj_0);
                    assert(sync@ == JsonModel::Obj(inner->Obj_0));
                }
                json_obj_push(&mut o, "message", json_str("failed to sync"));
                json_obj_push(&mut o, "sync_type", sync);
            }
            FromFrontendErr::WebhookServerError(reason) => {
                json_obj_push(&mut o, "message", json_str("failed to forward the sync req"));
                json_obj_push(&mut o, "reason", JsonValue::Str(reason));
            }
        }
        proof {
            assert(o@->Obj_0 =~= model->Ok_0->Obj_0);
            assert(o@ == JsonModel::Obj(model->Ok_0->Obj_0));
        }
        Ok(o)
    }
}

// ---------------------------------------------------------------------
// sql
// ---------------------------------------------------------------------

/// The wire document of one challenge row.
pub open spec fn spec_chall_wire(c: Chall) -> JsonModel {
    spec_chall_json(SerializableChall::spec_from(c))
}

/// The wire document of one team row.
pub open spec fn spec_team_wire(t: Team) -> JsonModel {
    spec_team_json(SerializableTeam::spec_from(t))
}

/// The wire document of one user row.
pub open spec fn spec_user_wire(u: User) -> JsonModel {
    spec_user_json(SerializableUser::spec_from(u))
}

/// The wire document of one solve row.
pub open spec fn spec_solve_wire(s: Solve) -> JsonModel {
    spec_solve_json(SerializableSolve::spec_from(s))
}

/// The wire document of one attempt count.
pub open spec fn spec_attempts_wire(a: Attempts) -> JsonModel {
    spec_attempts_json(SerializableAttempts::spec_from(a))
}

fn chall_arr_json(items: Vec<Chall>) -> (r: JsonValue)
    ensures
        r@ == JsonModel::Arr(Seq::new(items@.len(), |i: int| spec_chall_wire(items@[i]))),
{
    let ghost source = items@;
    let mut out: Vec<JsonValue> = Vec::new();
    let mut rest = items;
    let n = rest.len();
    let mut i: usize = 0;
    proof {
        assert(rest@ =~= source.subrange(i as int, source.len() as int));
    }
    while i < n
        invariant
            i <= n,
            n == source.len(),
            rest@ == source.subrange(i as int, source.len() as int),
            out@.len() == i,
            forall|j: int| 0 <= j < i ==> #[trigger] out@[j]@ == spec_chall_wire(source[j]),
        decreases n - i,
    {
        let item = rest.remove(0);
        out.push(SerializableChall::from(item).to_json());
        i += 1;
        proof {
            assert(rest@ =~= source.subrange(i as int, source.len() as int));
        }
    }
    proof {
        crate::json::lemma_item_models(out@);
        let target = Seq::new(source.len(), |j: int| spec_chall_wire(source[j]));
        assert forall|j: int| 0 <= j < source.len() implies crate::json::spec_item_models(
            out@,
        )[j] == target[j] by {
            assert(out@[j]@ == spec_chall_wire(source[j]));
        }
        assert(crate::json::spec_item_models(out@) =~= target);
    }
    let r = JsonValue::Arr(out);
    proof {
        assert(r@ == JsonModel::Arr(Seq::new(source.len(), |j: int| spec_chall_wire(source[j]))));
    }
    r
}

fn team_arr_json(items: Vec<Team>) -> (r: JsonValue)
    ensures
        r@ == JsonModel::Arr(Seq::new(items@.len(), |i: int| spec_team_wire(items@[i]))),
{
    let ghost source = items@;
    let mut out: Vec<JsonValue> = Vec::new();
    let mut rest = items;
    let n = rest.len();
    let mut i: usize = 0;
    proof {
        assert(rest@ =~= source.subrange(i as int, source.len() as int));
    }
    while i < n
        invariant
            i <= n,
            n == source.len(),
            rest@ == source.subrange(i as int, source.len() as int),
            out@.len() == i,
            forall|j: int| 0 <= j < i ==> #[trigger] out@[j]@ == spec_team_wire(source[j]),
        decreases n - i,
    {
        let item = rest.remove(0);
        out.push(SerializableTeam::from(item).to_json());
        i += 1;
        proof {
            assert(rest@ =~= source.subrange(i as int, source.len() as int));
        }
    }
    proof {
        crate::json::lemma_item_models(out@);
        let target = Seq::new(source.len(), |j: int| spec_team_wire(source[j]));
        assert forall|j: int| 0 <= j < source.len() implies crate::json::spec_item_models(
            out@,
        )[j] == target[j] by {
            assert(out@[j]@ == spec_team_wire(source[j]));
        }
        assert(crate::json::spec_item_models(out@) =~= target);
    }
    let r = JsonValue::Arr(out);
    proof {
        assert(r@ == JsonModel::Arr(Seq::new(source.len(), |j: int| spec_team_wire(source[j]))));
    }
    r
}

fn user_arr_json(items: Vec<User>) -> (r: JsonValue)
    ensures
        r@ == JsonModel::Arr(Seq::new(items@.len(), |i: int| spec_user_wire(items@[i]))),
{
    let ghost source = items@;
    let mut out: Vec<JsonValue> = Vec::new();
    let mut rest = items;
    let n = rest.len();
    let mut i: usize = 0;
    proof {
        assert(rest@ =~= source.subrange(i as int, source.len() as int));
    }
    while i < n
        invariant
            i <= n,
            n == source.len(),
            rest@ == source.subrange(i as int, source.len() as int),
            out@.len() == i,
            forall|j: int| 0 <= j < i ==> #[trigger] out@[j]@ == spec_user_wire(source[j]),
        decreases n - i,
    {
        let item = rest.remove(0);
        out.push(SerializableUser::from(item).to_json());
        i += 1;
        proof {
            assert(rest@ =~= source.subrange(i as int, source.len() as int));
        }
    }
    proof {
        crate::json::lemma_item_models(out@);
        let target = Seq::new(source.len(), |j: int| spec_user_wire(source[j]));
        assert forall|j: int| 0 <= j < source.len() implies crate::json::spec_item_models(
            out@,
        )[j] == target[j] by {
            assert(out@[j]@ == spec_user_wire(source[j]));
        }
        assert(crate::json::spec_item_models(out@) =~= target);
    }
    let r = JsonValue::Arr(out);
    proof {
        assert(r@ == JsonModel::Arr(Seq::new(source.len(), |j: int| spec_user_wire(source[j]))));
    }
    r
}

fn solve_arr_json(items: Vec<Solve>) -> (r: JsonValue)
    ensures
        r@ == JsonModel::Arr(Seq::new(items@.len(), |i: int| spec_solve_wire(items@[i]))),
{
    let ghost source = items@;
    let mut out: Vec<JsonValue> = Vec::new();
    let mut rest = items;
    let n = rest.len();
    let mut i: usize = 0;
    proof {
        assert(rest@ =~= source.subrange(i as int, source.len() as int));
    }
    while i < n
        invariant
            i <= n,
            n == source.len(),
            rest@ == source.subrange(i as int, source.len() as int),
            out@.len() == i,
            forall|j: int| 0 <= j < i ==> #[trigger] out@[j]@ == spec_solve_wire(source[j]),
        decreases n - i,
    {
        let item = rest.remove(0);
        out.push(SerializableSolve::from(item).to_json());
        i += 1;
        proof {
            assert(rest@ =~= source.subrange(i as int, source.len() as int));
        }
    }
    proof {
        crate::json::lemma_item_models(out@);
        let target = Seq::new(source.len(), |j: int| spec_solve_wire(source[j]));
        assert forall|j: int| 0 <= j < source.len() implies crate::json::spec_item_models(
            out@,
        )[j] == target[j] by {
            assert(out@[j]@ == spec_solve_wire(source[j]));
        }
        assert(crate::json::spec_item_models(out@) =~= target);
    }
    let r = JsonValue::Arr(out);
    proof {
        assert(r@ == JsonModel::Arr(Seq::new(source.len(), |j: int| spec_solve_wire(source[j]))));
    }
    r
}

fn attempts_arr_json(items: Vec<Attempts>) -> (r: JsonValue)
    ensures
        r@ == JsonModel::Arr(Seq::new(items@.len(), |i: int| spec_attempts_wire(items@[i]))),
{
    let ghost source = items@;
    let mut out: Vec<JsonValue> = Vec::new();
    let mut rest = items;
    let n = rest.len();
    let mut i: usize = 0;
    proof {
        assert(rest@ =~= source.subrange(i as int, source.len() as int));
    }
    while i < n
        invariant
            i <= n,
            n == source.len(),
            rest@ == source.subrange(i as int, source.len() as int),
            out@.len() == i,
            forall|j: int| 0 <= j < i ==> #[trigger] out@[j]@ == spec_attempts_wire(source[j]),
        decreases n - i,
    {
        let item = rest.remove(0);
        out.push(SerializableAttempts::from(item).to_json());
        i += 1;
        proof {
            assert(rest@ =~= source.subrange(i as int, source.len() as int));
        }
    }
    proof {
        crate::json::lemma_item_models(out@);
        let target = Seq::new(source.len(), |j: int| spec_attempts_wire(source[j]));
        assert forall|j: int| 0 <= j < source.len() implies crate::json::spec_item_models(
            out@,
        )[j] == target[j] by {
            assert(out@[j]@ == spec_attempts_wire(source[j]));
        }
        assert(crate::json::spec_item_models(out@) =~= target);
    }
    let r = JsonValue::Arr(out);
    proof {
        assert(r@ == JsonModel::Arr(Seq::new(source.len(), |j: int| spec_attempts_wire(source[j]))));
    }
    r
}

fn history_arr_json(items: Vec<History>) -> (r: JsonValue)
    ensures
        r@ == JsonModel::Arr(Seq::new(items@.len(), |i: int| spec_history_json(items@[i]))),
{
    let ghost source = items@;
    let mut out: Vec<JsonValue> = Vec::new();
    let mut rest = items;
    let n = rest.len();
    let mut i: usize = 0;
    proof {
        assert(rest@ =~= source.subrange(i as int, source.len() as int));
    }
    while i < n
        invariant
            i <= n,
            n == source.len(),
            rest@ == source.subrange(i as int, source.len() as int),
            out@.len() == i,
            forall|j: int| 0 <= j < i ==> #[trigger] out@[j]@ == spec_history_json(source[j]),
        decreases n - i,
    {
        let item = rest.remove(0);
        out.push(item.to_json());
        i += 1;
        proof {
            assert(rest@ =~= source.subrange(i as int, source.len() as int));
        }
    }
    proof {
        crate::json::lemma_item_models(out@);
        let target = Seq::new(source.len(), |j: int| spec_history_json(source[j]));
        assert forall|j: int| 0 <= j < source.len() implies crate::json::spec_item_models(
            out@,
        )[j] == target[j] by {
            assert(out@[j]@ == spec_history_json(source[j]));
        }
        assert(crate::json::spec_item_models(out@) =~= target);
    }
    let r = JsonValue::Arr(out);
    proof {
        assert(r@ == JsonModel::Arr(Seq::new(source.len(), |j: int| spec_history_json(source[j]))));
    }
    r
}

/// The sql domain's success payload: the answer to one predefined query.
#[derive(Clone, Debug)]
pub enum FromSql {
    Chall(Chall),
    ChallArr(Vec<Chall>),
    Team(Team),
    TeamArr(Vec<Team>),
    User(User),
    UserArr(Vec<User>),
    Solve(Solve),
    SolveArr(Vec<Solve>),
    Availability(bool),
    AuthStatus(bool),
    Attempts(Attempts),
    AttemptsArr(Vec<Attempts>),
    History(History),
    HistoryArr(Vec<History>),
}

impl FromSql {
    /// The wire name of this answer's kind.
    pub open spec fn spec_label(self) -> Seq<char> {
        match self {
            FromSql::Chall(_) => "chall"@,
            FromSql::ChallArr(_) => "chall_arr"@,
            FromSql::Team(_) => "team"@,
            FromSql::TeamArr(_) => "team_arr"@,
            FromSql::User(_) => "user"@,
            FromSql::UserArr(_) => "user_arr"@,
            FromSql::Solve(_) => "solve"@,
            FromSql::SolveArr(_) => "solve_arr"@,
            FromSql::Availability(_) => "availability"@,
            FromSql::AuthStatus(_) => "auth_status"@,
            FromSql::Attempts(_) => "attempts"@,
            FromSql::AttemptsArr(_) => "attempts_arr"@,
            FromSql::History(_) => "history"@,
            FromSql::HistoryArr(_) => "history_arr"@,
        }
    }

    /// The document under this answer's `data` key.
    pub open spec fn spec_data_json(self) -> JsonModel {
        match self {
            FromSql::Chall(c) => spec_chall_wire(c),
            FromSql::ChallArr(v) => JsonModel::Arr(
                Seq::new(v@.len(), |i: int| spec_chall_wire(v@[i])),
            ),
            FromSql::Team(t) => spec_team_wire(t),
            FromSql::TeamArr(v) => JsonModel::Arr(
                Seq::new(v@.len(), |i: int| spec_team_wire(v@[i])),
            ),
            FromSql::User(u) => spec_user_wire(u),
            FromSql::UserArr(v) => JsonModel::Arr(
                Seq::new(v@.len(), |i: int| spec_user_wire(v@[i])),
            ),
            FromSql::Solve(s) => spec_solve_wire(s),
            FromSql::SolveArr(v) => JsonModel::Arr(
                Seq::new(v@.len(), |i: int| spec_solve_wire(v@[i])),
            ),
            FromSql::Availability(b) => JsonModel::Bool(b),
            FromSql::AuthStatus(b) => JsonModel::Bool(b),
            FromSql::Attempts(a) => spec_attempts_wire(a),
            FromSql::AttemptsArr(v) => JsonModel::Arr(
                Seq::new(v@.len(), |i: int| spec_attempts_wire(v@[i])),
            ),
            FromSql::History(h) => spec_history_json(h),
            FromSql::HistoryArr(v) => JsonModel::Arr(
                Seq::new(v@.len(), |i: int| spec_history_json(v@[i])),
            ),
        }
    }

    /// Renders the wire document of this answer: its kind under
    /// `__type`, its content under `data`.
    pub fn body(self) -> (r: JsonValue)
        ensures
            r@ == JsonModel::Obj(
                seq![
                    ("__type"@, JsonModel::Str(self.spec_label())),
                    ("data"@, self.spec_data_json()),
                ],
            ),
    {
        let ghost labelled = self.spec_label();
        let ghost data_model = self.spec_data_json();
        let mut o = json_obj_new();
        match self {
            FromSql::Chall(c) => {
                json_obj_push(&mut o, "__type", json_str("chall"));
                json_obj_push(&mut o, "data", SerializableChall::from(c).to_json());
            }
            FromSql::ChallArr(v) => {
                json_obj_push(&mut o, "__type", json_str("chall_arr"));
                json_obj_push(&mut o, "data", chall_arr_json(v));
            }
            FromSql::Team(t) => {
                json_obj_push(&mut o, "__type", json_str("team"));
                json_obj_push(&mut o, "data", SerializableTeam::from(t).to_json());
            }
            FromSql::TeamArr(v) => {
                json_obj_push(&mut o, "__type", json_str("team_arr"));
                json_obj_push(&mut o, "data", team_arr_json(v));
            }
            FromSql::User(u) => {
                json_obj_push(&mut o, "__type", json_str("user"));
                json_obj_push(&mut o, "data", SerializableUser::from(u).to_json());
            }
            FromSql::UserArr(v) => {
                json_obj_push(&mut o, "__type", json_str("user_arr"));
                json_obj_push(&mut o, "data", user_arr_json(v));
            }
            FromSql::Solve(s) => {
                json_obj_push(&mut o, "__type", json_str("solve"));
                json_obj_push(&mut o, "data", SerializableSolve::from(s).to_json());
            }
            FromSql::SolveArr(v) => {
                json_obj_push(&mut o, "__type", json_str("solve_arr"));
                json_obj_push(&mut o, "data", solve_arr_json(v));
            }
            FromSql::Availability(b) => {
                json_obj_push(&mut o, "__type", json_str("availability"));
                json_obj_push(&mut o, "data", JsonValue::Bool(b));
            }
            FromSql::AuthStatus(b) => {
                json_obj_push(&mut o, "__type", json_str("auth_status"));
                json_obj_push(&mut o, "data", JsonValue::Bool(b));
            }
            FromSql::Attempts(a) => {
                json_obj_push(&mut o, "__type", json_str("attempts"));
                json_obj_push(&mut o, "data", SerializableAttempts::from(a).to_json());
            }
            FromSql::AttemptsArr(v) => {
                json_obj_push(&mut o, "__type", json_str("attempts_arr"));
                json_obj_push(&mut o, "data", attempts_arr_json(v));
            }
            FromSql::History(h) => {
                json_obj_push(&mut o, "__type", json_str("history"));
                json_obj_push(&mut o, "data", h.to_json());
            }
            FromSql::HistoryArr(v) => {
                json_obj_push(&mut o, "__type", json_str("history_arr"));
                json_obj_push(&mut o, "data", history_arr_json(v));
            }
        }
        proof {
            let entries = seq![
                ("__type"@, JsonModel::Str(labelled)),
                ("data"@, data_model),
            ];
            assert(o@->Obj_0 =~= entries);
            assert(o@ == JsonModel::Obj(entries));
        }
        o
    }
}

/// The sql domain's error.
#[derive(Clone, Debug)]
pub enum FromSqlErr {
    OtherServerError(String),
    DatabaseError,
    Auth,
    DoesNotExist(Uuid),
    NameDoesNotExist(String),
    NameIsTaken(String),
    RequestTooBig(u64, u64),
}

impl OutgoingErr for FromSqlErr {
    open spec fn spec_status_code(&self) -> u16 {
        match self {
            FromSqlErr::OtherServerError(_) | FromSqlErr::DatabaseError => 500,
            FromSqlErr::RequestTooBig(_, _) => 413,
            FromSqlErr::DoesNotExist(_) | FromSqlErr::NameDoesNotExist(_) => 404,
            FromSqlErr::Auth => 403,
            FromSqlErr::NameIsTaken(_) => 400,
        }
    }

    open spec fn spec_body(self) -> Result<JsonModel, Seq<char>> {
        match self {
            FromSqlErr::OtherServerError(description) => Ok(
                JsonModel::Obj(
                    seq![
                        ("err"@, JsonModel::Str("An unknown server error occured."@)),
                        ("info"@, JsonModel::Str(description@)),
                    ],
                ),
            ),
            FromSqlErr::DatabaseError => Ok(
                JsonModel::Obj(
                    seq![("err"@, JsonModel::Str("Unexpected database error encountered."@))],
                ),
            ),
            FromSqlErr::Auth => Ok(
                JsonModel::Obj(seq![("err"@, JsonModel::Str("Unauthorized access."@))]),
            ),
            FromSqlErr::DoesNotExist(id) => Ok(
                JsonModel::Obj(
                    seq![
                        ("err"@, JsonModel::Str("This id does not exist."@)),
                        ("id"@, JsonModel::Str(spec_uuid_text(id.value))),
                    ],
                ),
            ),
            FromSqlErr::NameDoesNotExist(name) => Ok(
                JsonModel::Obj(
                    seq![
                        ("err"@, JsonModel::Str("This name does not exist."@)),
                        ("name"@, JsonModel::Str(name@)),
                    ],
                ),
            ),
            FromSqlErr::NameIsTaken(name) => Ok(
                JsonModel::Obj(
                    seq![
                        ("err"@, JsonModel::Str("A team with this name already exists."@)),
                        ("name"@, JsonModel::Str(name@)),
                    ],
                ),
            ),
            FromSqlErr::RequestTooBig(size, limit) => Ok(
                JsonModel::Obj(
                    seq![
                        (
                            "err"@,
                            JsonModel::Str(
                                "Request too big (Check that your request is in size limits)."@,
                            ),
                        ),
                        ("size"@, JsonModel::UInt(size)),
                        ("limit"@, JsonModel::UInt(limit)),
                    ],
                ),
            ),
        }
    }

    fn status_code(&self) -> (r: u16) {
        match self {
            FromSqlErr::OtherServerError(_) | FromSqlErr::DatabaseError => 500,
            FromSqlErr::RequestTooBig(_, _) => 413,
            FromSqlErr::DoesNotExist(_) | FromSqlErr::NameDoesNotExist(_) => 404,
            FromSqlErr::Auth => 403,
            FromSqlErr::NameIsTaken(_) => 400,
        }
    }

    fn body(self) -> (r: Result<JsonValue, String>) {
        let ghost model = self.spec_body();
        let mut o = json_obj_new();
        match self {
            FromSqlErr::OtherServerError(description) => {
                json_obj_push(&mut o, "err", json_str("An unknown server error occured."));
                json_obj_push(&mut o, "info", JsonValue::Str(description));
            }
            FromSqlErr::DatabaseError => {
                json_obj_push(&mut o, "err", json_str("Unexpected database error encountered."));
            }
            FromSqlErr::Auth => {
                json_obj_push(&mut o, "err", json_str("Unauthorized access."));
            }
            FromSqlErr::DoesNotExist(id) => {
                json_obj_push(&mut o, "err", json_str("This id does not exist."));
                json_obj_push(&mut o, "id", JsonValue::Str(id.hyphenated()));
            }
            FromSqlErr::NameDoesNotExist(name) => {
                json_obj_push(&mut o, "err", json_str("This name does not exist."));
                json_obj_push(&mut o, "name", JsonValue::Str(name));
            }
            FromSqlErr::NameIsTaken(name) => {
                json_obj_push(&mut o, "err", json_str("A team with this name already exists."));
                json_obj_push(&mut o, "name", JsonValue::Str(name));
            }
            FromSqlErr::RequestTooBig(size, limit) => {
                json_obj_push(
                    &mut o,
                    "err",
                    json_str("Request too big (Check that your request is in size limits)."),
                );
                json_obj_push(&mut o, "size", JsonValue::UInt(size));
                json_obj_push(&mut o, "limit", JsonValue::UInt(limit));
            }
        }
        proof {
            assert(o@->Obj_0 =~= model->Ok_0->Obj_0);
            assert(o@ == JsonModel::Obj(model->Ok_0->Obj_0));
        }
        Ok(o)
    }
}

} // verus!
