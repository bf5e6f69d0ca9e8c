//! The discord domain: formatting notifications and reading the
//! notification service's answer.

use vstd::prelude::*;
use vstd::string::{StringExecFns, StrSliceExecFns};
use crate::incoming::{DeveloperDiscordMessage, ParticipantMessage, ToDiscord};
use crate::json::{json_obj_new, json_obj_push, JsonModel, JsonValue};
use crate::outgoing::{FromDiscord, FromDiscordErr};
use crate::strings::{spec_without_backticks, without_backticks};

verus! {

/// The notification endpoints and mention targets, read once at process
/// start and handed in by reference.
pub struct DiscordConfig {
    pub admin_url: String,
    pub chall_writer_url: String,
    pub participant_url: String,
    pub admin_role: String,
    pub chall_writer_role: String,
    pub participant_role: String,
    /// The display name for participant messages, when configured.
    pub bot_name: Option<String>,
}

/// The mention targets of one message, each rendered as a role mention.
pub struct Pings(pub Vec<String>);

/// The rendered mentions: `<@&role> ` for each role, in order.
pub open spec fn spec_pings(roles: Seq<String>) -> Seq<char>
    decreases roles.len(),
{
    if roles.len() == 0 {
        Seq::empty()
    } else {
        spec_pings(roles.drop_last()) + "<@&"@ + roles.last()@ + "> "@
    }
}

impl Pings {
    /// Renders the mentions.
    pub fn string(&self) -> (r: String)
        ensures
            r@ == spec_pings(self.0@),
    {
        let mut out = String::new();
        let mut i: usize = 0;
        let n = self.0.len();
        while i < n
            invariant
                i <= n,
                n == self.0@.len(),
                out@ == spec_pings(self.0@.take(i as int)),
            decreases n - i,
        {
            out.append("<@&");
            out.append(self.0[i].as_str());
            out.append("> ");
            i += 1;
            proof {
                assert(self.0@.take(i as int).drop_last() =~= self.0@.take(i - 1));
            }
        }
        proof {
            assert(self.0@.take(n as int) =~= self.0@);
        }
        out
    }
}

/// Where one notification goes and what it says.
pub struct PayloadDetails {
    pub url: String,
    pub username: String,
    pub message: String,
}

/// The rendered text of a developer notification: a rule line, the
/// urgency, the mentions, and the message itself.
pub open spec fn spec_developer_message(
    level: Seq<char>,
    pings: Seq<char>,
    message: Seq<char>,
) -> Seq<char> {
    "-------------------\n# Urgency: "@ + level + "\n"@ + pings + "\n"@ + message
}

/// The rendered text of a first-blood announcement; backticks in
/// user-entered names become straight quotes so they cannot close the
/// code spans around them.
pub open spec fn spec_first_blood_message(
    chall_name: Seq<char>,
    team: Seq<char>,
    user: Seq<char>,
) -> Seq<char> {
    "First :drop_of_blood: by `"@ + spec_without_backticks(user) + "` from `"@
        + spec_without_backticks(team) + "` on challenge `"@ + chall_name + "`!"@
}

/// The details a [`ToDiscord`] request resolves to, given the configured
/// endpoints.
pub open spec fn spec_payload_details(req: ToDiscord, cfg: DiscordConfig) -> (
    Seq<char>,
    Seq<char>,
    Seq<char>,
) {
    match req {
        ToDiscord::Developer(dev) => {
            let url = if dev.include_chall_writers {
                cfg.chall_writer_url@
            } else {
                cfg.admin_url@
            };
            let pings = if dev.include_chall_writers {
                spec_pings(seq![cfg.chall_writer_role, cfg.admin_role])
            } else {
                spec_pings(seq![cfg.admin_role])
            };
            (url, "ARCS Alerts"@, spec_developer_message(dev.level.spec_label(), pings, dev.message@))
        }
        ToDiscord::Participant(msg) => {
            let username = match cfg.bot_name {
                Some(name) => name@,
                None => "CTF Updates"@,
            };
            let text = match msg {
                ParticipantMessage::Alert { message } => message@,
                ParticipantMessage::FirstBlood { chall_name, team, user } =>
                    spec_first_blood_message(chall_name@, team@, user@),
            };
            (cfg.participant_url@, username, text)
        }
    }
}

impl ToDiscord {
    /// Resolves where this notification goes and what it says: staff
    /// messages go to the admin hook (and also mention challenge writers
    /// when asked), participant messages to the participant hook.
    pub fn get_payload_details(self, cfg: &DiscordConfig) -> (r: PayloadDetails)
        ensures
            (r.url@, r.username@, r.message@) == spec_payload_details(self, *cfg),
    {
        match self {
            ToDiscord::Developer(dev) => {
                let DeveloperDiscordMessage { level, message, data: _, include_chall_writers } =
                    dev;
                let url = if include_chall_writers {
                    cfg.chall_writer_url.clone()
                } else {
                    cfg.admin_url.clone()
                };
                let mut roles: Vec<String> = Vec::new();
                if include_chall_writers {
                    roles.push(cfg.chall_writer_role.clone());
                    roles.push(cfg.admin_role.clone());
                } else {
                    roles.push(cfg.admin_role.clone());
                }
                let pings = Pings(roles);
                proof {
                    if include_chall_writers {
                        assert(pings.0@ =~= seq![cfg.chall_writer_role, cfg.admin_role]);
                    } else {
                        assert(pings.0@ =~= seq![cfg.admin_role]);
                    }
                }
                let mut text = String::new();
                text.append("-------------------\n# Urgency: ");
                text.append(level.label());
                text.append("\n");
                let rendered = pings.string();
                text.append(rendered.as_str());
                text.append("\n");
                text.append(message.as_str());
                PayloadDetails { url, username: String::from_str("ARCS Alerts"), message: text }
            }
            ToDiscord::Participant(msg) => {
                let username = match &cfg.bot_name {
                    Some(name) => name.clone(),
                    None => String::from_str("CTF Updates"),
                };
                let url = cfg.participant_url.clone();
                let text = match msg {
                    ParticipantMessage::Alert { message } => message,
                    ParticipantMessage::FirstBlood { chall_name, team, user } => {
                        let mut text = String::new();
                        text.append("First :drop_of_blood: by `");
                        let user_clean = without_backticks(user.as_str());
                        text.append(user_clean.as_str());
                        text.append("` from `");
                        let team_clean = without_backticks(team.as_str());
                        text.append(team_clean.as_str());
                        text.append("` on challenge `");
                        text.append(chall_name.as_str());
                        text.append("`!");
                        text
                    }
                };
                PayloadDetails { url, username, message: text }
            }
        }
    }
}

/// The body posted to the notification service: who appears to speak and
/// what is said.
pub open spec fn spec_webhook_body(username: Seq<char>, message: Seq<char>) -> JsonModel {
    JsonModel::Obj(
        seq![
            ("username"@, JsonModel::Str(username)),
            ("content"@, JsonModel::Str(message)),
        ],
    )
}

impl PayloadDetails {
    /// Renders the body posted to the notification service.
    pub fn webhook_body(self) -> (r: (String, JsonValue))
        ensures
            r.0@ == self.url@,
            r.1@ == spec_webhook_body(self.username@, self.message@),
    {
        let ghost model = spec_webhook_body(self.username@, self.message@);
        let mut o = json_obj_new();
        json_obj_push(&mut o, "username", JsonValue::Str(self.username));
        json_obj_push(&mut o, "content", JsonValue::Str(self.message));
        proof {
            assert(o@->Obj_0 =~= model->Obj_0);
            assert(o@ == JsonModel::Obj(model->Obj_0));
        }
        (self.url, o)
    }
}

/// What came back from the notification service, as the transport layer
/// saw it.
pub enum DiscordSendEvent {
    /// The request could not be sent at all.
    SendFailed,
    /// The service answered with a success status.
    Accepted,
    /// The service answered with a non-success status; the body is absent
    /// when reading it failed.
    Refused { status_code: u16, status_message: String, body: Option<Vec<u8>> },
}

impl ToDiscord {
    /// Maps the service's answer to this domain's outcome: acceptance
    /// succeeds; a refusal carries the service's status and body; a
    /// refusal whose body could not be read, or a failed send, becomes a
    /// 500 with a fixed diagnostic.
    pub fn conclude(event: DiscordSendEvent) -> (r: Result<FromDiscord, FromDiscordErr>)
        ensures
            match event {
                DiscordSendEvent::Accepted => r is Ok,
                DiscordSendEvent::SendFailed => r matches Err(e) && e.status_code == 500
                    && e.status_message@ == "Failed to send request to discord"@ && e.body@
                    =~= Seq::<u8>::empty(),
                DiscordSendEvent::Refused { status_code, status_message, body } => match body {
                    Some(bytes) => r matches Err(e) && e.status_code == status_code
                        && e.status_message@ == status_message@ && e.body@ == bytes@,
                    None => r matches Err(e) && e.status_code == 500 && e.status_message@
                        == "Failed to read discord response"@ && e.body@ =~= Seq::<u8>::empty(),
                },
            },
    {
        match event {
            DiscordSendEvent::Accepted => Ok(FromDiscord),
            DiscordSendEvent::SendFailed => Err(
                FromDiscordErr {
                    status_code: 500,
                    status_message: String::from_str("Failed to send request to discord"),
                    body: Vec::new(),
                },
            ),
            DiscordSendEvent::Refused { status_code, status_message, body } => match body {
                Some(bytes) => Err(
                    FromDiscordErr { status_code, status_message, body: bytes },
                ),
                None => Err(
                    FromDiscordErr {
                        status_code: 500,
                        status_message: String::from_str("Failed to read discord response"),
                        body: Vec::new(),
                    },
                ),
            },
        }
    }
}

} // verus!
