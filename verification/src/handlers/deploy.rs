//! The deploy domain: planning the request to the deploy server and
//! reading its answer.
//!
//! Some deploy requests need outside work before the request body can be
//! built — a fresh identifier, or a database lookup. [`ToDeploy::preparation`]
//! says which; the transport layer performs it and hands the results to
//! [`ToDeploy::request_body`].

use vstd::prelude::*;
use vstd::slice::slice_to_vec;
use vstd::string::StringSliceAdditionalSpecFns;
use crate::ids::{spec_uuid_text, Uuid};
use crate::incoming::{ChallIdentifier, ToDeploy};
use crate::json::{
    json_obj_new, json_obj_push, json_str, json_str_arr, spec_str_arr, JsonModel, JsonValue,
};
use crate::outgoing::{DeploymentStatus, FromDeploy, FromDeployErr};

verus! {

/// The outside work a deploy request needs before its body can be built.
pub enum DeployPrep {
    /// Draw a fresh identifier: a deployment that wipes state never
    /// reuses one.
    FreshId,
    /// Look the challenge's identifier up by its source folder; a
    /// challenge not found falls back to a fresh identifier.
    FolderLookup(String),
    /// Look the challenge's source folder up by its identifier; the
    /// identifier itself is already the polling identifier.
    SourceFolderLookup(Uuid),
    /// Nothing: this identifier is already the polling identifier.
    Ready(Uuid),
}

impl ToDeploy {
    /// The wire name of this request's kind.
    pub open spec fn spec_kind(self) -> Seq<char> {
        match self {
            ToDeploy::Deploy { .. } => "deploy"@,
            ToDeploy::Poll { .. } => "poll"@,
            ToDeploy::Remove { .. } => "delete"@,
            ToDeploy::ModifyMeta { .. } => "modify_meta"@,
        }
    }

    /// Renders the wire name of this request's kind.
    pub fn kind(&self) -> (r: &'static str)
        ensures
            r@ == self.spec_kind(),
    {
        match self {
            ToDeploy::Deploy { .. } => "deploy",
            ToDeploy::Poll { .. } => "poll",
            ToDeploy::Remove { .. } => "delete",
            ToDeploy::ModifyMeta { .. } => "modify_meta",
        }
    }

    /// Decides the outside work this request needs before sending: a
    /// wiping deployment draws a fresh identifier, a deployment named by
    /// folder looks the identifier up, a metadata change looks the source
    /// folder up, and everything else is ready as it stands.
    pub fn preparation(&self) -> (r: DeployPrep)
        ensures
            match self {
                ToDeploy::Deploy { chall, force_wipe } => if *force_wipe {
                    r is FreshId
                } else {
                    match chall {
                        ChallIdentifier::CurrDeployedId(id) => r == DeployPrep::Ready(*id),
                        ChallIdentifier::Folder(f) => r matches DeployPrep::FolderLookup(g) && g@
                            == f@,
                    }
                },
                ToDeploy::Poll { id } => r == DeployPrep::Ready(*id),
                ToDeploy::Remove { chall } => r == DeployPrep::Ready(*chall),
                ToDeploy::ModifyMeta { id, .. } => r == DeployPrep::SourceFolderLookup(*id),
            },
    {
        match self {
            ToDeploy::Deploy { chall, force_wipe } => {
                if *force_wipe {
                    DeployPrep::FreshId
                } else {
                    match chall {
                        ChallIdentifier::CurrDeployedId(id) => DeployPrep::Ready(*id),
                        ChallIdentifier::Folder(f) => DeployPrep::FolderLookup(f.clone()),
                    }
                }
            }
            ToDeploy::Poll { id } => DeployPrep::Ready(*id),
            ToDeploy::Remove { chall } => DeployPrep::Ready(*chall),
            ToDeploy::ModifyMeta { id, .. } => DeployPrep::SourceFolderLookup(*id),
        }
    }
}

impl ChallIdentifier {
    /// The challenge name sent along with a deployment: the identifier's
    /// canonical text, or the folder name as given.
    pub open spec fn spec_wire_name(self) -> Seq<char> {
        match self {
            ChallIdentifier::CurrDeployedId(id) => spec_uuid_text(id.value),
            ChallIdentifier::Folder(f) => f@,
        }
    }

    /// Renders [`Self::spec_wire_name`].
    pub fn wire_name(self) -> (r: String)
        ensures
            r@ == self.spec_wire_name(),
    {
        match self {
            ChallIdentifier::CurrDeployedId(id) => id.hyphenated(),
            ChallIdentifier::Folder(f) => f,
        }
    }
}

/// The `modifications` document of a metadata change: absent fields stay
/// null; tags distinguish "leave alone" from "clear" only by the inner
/// option, so both render null unless new tags are given.
pub open spec fn spec_modifications_json(
    name: Option<String>,
    desc: Option<String>,
    points: Option<u64>,
    categories: Option<Vec<String>>,
    tags: Option<Option<Vec<String>>>,
) -> JsonModel {
    JsonModel::Obj(
        seq![
            (
                "name"@,
                match name {
                    Some(n) => JsonModel::Str(n@),
                    None => JsonModel::Null,
                },
            ),
            (
                "desc"@,
                match desc {
                    Some(d) => JsonModel::Str(d@),
                    None => JsonModel::Null,
                },
            ),
            (
                "points"@,
                match points {
                    Some(p) => JsonModel::UInt(p),
                    None => JsonModel::Null,
                },
            ),
            (
                "categories"@,
                match categories {
                    Some(c) => spec_str_arr(c@),
                    None => JsonModel::Null,
                },
            ),
            (
                "tags"@,
                match tags {
                    Some(Some(t)) => spec_str_arr(t@),
                    _ => JsonModel::Null,
                },
            ),
        ],
    )
}

/// The document a [`ToDeploy`] request posts to the deploy server, once
/// its polling identifier and challenge name are resolved.
pub open spec fn spec_deploy_request_json(
    req: ToDeploy,
    polling_id: Uuid,
    chall_name: Seq<char>,
) -> JsonModel {
    JsonModel::Obj(
        seq![
            ("__type"@, JsonModel::Str(req.spec_kind())),
            ("deploy_identifier"@, JsonModel::Str(spec_uuid_text(polling_id.value))),
            ("chall_name"@, JsonModel::Str(chall_name)),
            (
                "modifications"@,
                match req {
                    ToDeploy::ModifyMeta { name, desc, points, categories, tags, .. } =>
                        spec_modifications_json(name, desc, points, categories, tags),
                    _ => JsonModel::Null,
                },
            ),
        ],
    )
}

impl ToDeploy {
    /// Renders the body posted to the deploy server. `polling_id` is the
    /// identifier resolved per [`Self::preparation`]; `chall_name` is the
    /// challenge's wire name for a deployment, the looked-up source
    /// folder for a metadata change, and empty otherwise.
    pub fn request_body(self, polling_id: Uuid, chall_name: String) -> (r: JsonValue)
        ensures
            r@ == spec_deploy_request_json(self, polling_id, chall_name@),
    {
        let ghost model = spec_deploy_request_json(self, polling_id, chall_name@);
        let kind = self.kind();
        let mut o = json_obj_new();
        json_obj_push(&mut o, "__type", json_str(kind));
        json_obj_push(&mut o, "deploy_identifier", JsonValue::Str(polling_id.hyphenated()));
        json_obj_push(&mut o, "chall_name", JsonValue::Str(chall_name));
        let mods = match self {
            ToDeploy::ModifyMeta { name, desc, points, categories, tags, .. } => {
                let ghost inner = spec_modifications_json(name, desc, points, categories, tags);
                let mut m = json_obj_new();
                json_obj_push(
                    &mut m,
                    "name",
                    match name {
                        Some(n) => JsonValue::Str(n),
                        None => JsonValue::Null,
                    },
                );
                json_obj_push(
                    &mut m,
                    "desc",
                    match desc {
                        Some(d) => JsonValue::Str(d),
                        None => JsonValue::Null,
                    },
                );
                json_obj_push(
                    &mut m,
                    "points",
                    match points {
                        Some(p) => JsonValue::UInt(p),
                        None => JsonValue::Null,
                    },
                );
                json_obj_push(
                    &mut m,
                    "categories",
                    match categories {
                        Some(c) => json_str_arr(c),
                        None => JsonValue::Null,
                    },
                );
                json_obj_push(
                    &mut m,
                    "tags",
                    match tags {
                        Some(Some(t)) => json_str_arr(t),
                        _ => JsonValue::Null,
                    },
                );
                proof {
                    assert(m@->Obj_0 =~= inner->Obj_0);
                    assert(m@ == JsonModel::Obj(inner->Obj_0));
                }
                m
            }
            _ => JsonValue::Null,
        };
        json_obj_push(&mut o, "modifications", mods);
        proof {
            assert(o@->Obj_0 =~= model->Obj_0);
            assert(o@ == JsonModel::Obj(model->Obj_0));
        }
        o
    }
}

/// What came back from the deploy server, as the transport layer saw it.
pub enum DeploySendEvent {
    /// The request could not be sent at all.
    SendFailed,
    /// The server answered success but its body did not decode as a
    /// deployment status.
    BadBody,
    /// The server answered success with a deployment status.
    Accepted(DeploymentStatus),
    /// The server answered with a non-success status; the body is absent
    /// when reading it failed.
    Refused { code: u16, body: Option<Vec<u8>> },
}

impl ToDeploy {
    /// Maps the deploy server's answer to this domain's outcome: a
    /// decoded status is the success payload; a refusal carries the
    /// server's status and body; a refusal whose body could not be read
    /// becomes a 500 with a fixed diagnostic; an undecodable or unsent
    /// answer becomes the matching structural error.
    pub fn conclude(event: DeploySendEvent) -> (r: Result<FromDeploy, FromDeployErr>)
        ensures
            match event {
                DeploySendEvent::SendFailed => r == Err::<FromDeploy, FromDeployErr>(
                    FromDeployErr::BadSend,
                ),
                DeploySendEvent::BadBody => r == Err::<FromDeploy, FromDeployErr>(
                    FromDeployErr::BadResponse,
                ),
                DeploySendEvent::Accepted(d) => r == Ok::<FromDeploy, FromDeployErr>(
                    FromDeploy::Status(d),
                ),
                DeploySendEvent::Refused { code, body } => match body {
                    Some(bytes) => r matches Err(FromDeployErr::DeployServer {
                        code: c,
                        body: b,
                    }) && c == code && b@ == bytes@,
                    None => r matches Err(FromDeployErr::DeployServer { code: c, body: b }) && c
                        == 500 && b@ == "Failed to read deploy server response".spec_bytes(),
                },
            },
    {
        match event {
            DeploySendEvent::SendFailed => Err(FromDeployErr::BadSend),
            DeploySendEvent::BadBody => Err(FromDeployErr::BadResponse),
            DeploySendEvent::Accepted(d) => Ok(FromDeploy::Status(d)),
            DeploySendEvent::Refused { code, body } => match body {
                Some(bytes) => Err(FromDeployErr::DeployServer { code, body: bytes }),
                None => Err(
                    FromDeployErr::DeployServer {
                        code: 500,
                        body: slice_to_vec("Failed to read deploy server response".as_bytes()),
                    },
                ),
            },
        }
    }
}

} // verus!
