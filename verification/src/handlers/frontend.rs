//! The frontend domain: building the cache-refresh request and reading
//! the frontend's answer.

use vstd::prelude::*;
use crate::ids::spec_uuid_text;
use crate::incoming::{SyncType, ToFrontend};
use crate::json::{json_obj_new, json_obj_push, json_str, JsonModel, JsonValue};
use crate::outgoing::{FromFrontend, FromFrontendErr};

verus! {

/// The body posted to the frontend for one sync scope: its wire name
/// under `__type`, and the record it names where it names one.
pub open spec fn spec_sync_request_json(s: SyncType) -> JsonModel {
    match s.spec_id() {
        Some(id) => JsonModel::Obj(
            seq![
                ("__type"@, JsonModel::Str(s.spec_label())),
                ("id"@, JsonModel::Str(spec_uuid_text(id.value))),
            ],
        ),
        None => JsonModel::Obj(seq![("__type"@, JsonModel::Str(s.spec_label()))]),
    }
}

/// What came back from the frontend, as the transport layer saw it.
pub enum FrontendSendEvent {
    /// The request could not be sent; the transport's description of why.
    SendFailed(String),
    /// The frontend answered with a success status.
    Accepted,
    /// The frontend answered with a non-success status.
    Refused,
}

impl ToFrontend {
    /// Renders the body posted to the frontend.
    pub fn request_body(&self) -> (r: JsonValue)
        ensures
            match self {
                ToFrontend::Sync(s) => r@ == spec_sync_request_json(*s),
            },
    {
        match self {
            ToFrontend::Sync(s) => {
                let ghost model = spec_sync_request_json(*s);
                let mut o = json_obj_new();
                json_obj_push(&mut o, "__type", json_str(s.label()));
                match s.id() {
                    Some(id) => {
                        json_obj_push(&mut o, "id", JsonValue::Str(id.hyphenated()));
                    }
                    None => {}
                }
                proof {
                    assert(o@->Obj_0 =~= model->Obj_0);
                    assert(o@ == JsonModel::Obj(model->Obj_0));
                }
                o
            }
        }
    }

    /// Maps the frontend's answer to this domain's outcome: acceptance
    /// reports the scope as synced, a refusal as failed to sync, and a
    /// failed send carries the transport's description.
    pub fn conclude(self, event: FrontendSendEvent) -> (r: Result<FromFrontend, FromFrontendErr>)
        ensures
            match (self, event) {
                (ToFrontend::Sync(s), FrontendSendEvent::Accepted) => r == Ok::<
                    FromFrontend,
                    FromFrontendErr,
                >(FromFrontend::Synced(s)),
                (ToFrontend::Sync(s), FrontendSendEvent::Refused) => r == Err::<
                    FromFrontend,
                    FromFrontendErr,
                >(FromFrontendErr::FailedToSync(s)),
                (ToFrontend::Sync(_), FrontendSendEvent::SendFailed(reason)) => r matches Err(
                    FromFrontendErr::WebhookServerError(m),
                ) && m@ == reason@,
            },
    {
        match self {
            ToFrontend::Sync(s) => match event {
                FrontendSendEvent::Accepted => Ok(FromFrontend::Synced(s)),
                FrontendSendEvent::Refused => Err(FromFrontendErr::FailedToSync(s)),
                FrontendSendEvent::SendFailed(reason) => Err(
                    FromFrontendErr::WebhookServerError(reason),
                ),
            },
        }
    }
}

} // verus!
