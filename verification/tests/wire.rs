use webhook_rs::handlers::deploy::{DeployPrep, DeploySendEvent};
use webhook_rs::handlers::frontend::FrontendSendEvent;
use webhook_rs::incoming::{ChallIdentifier, SyncType, ToDeploy, ToFrontend};
use webhook_rs::logging::{shortened, Shortened};
use webhook_rs::outgoing::{
    DeploymentStatus, Duration, FromDeploy, FromDeployErr, FromFrontend, FromFrontendErr,
    FromSql, FromSqlErr, OutgoingErr, Status,
};
use webhook_rs::records::{
    Attempts, Chall, History, SerializableChall, SerializableTeam, SimpleHistoryEntry, Team,
};
use webhook_rs::render::render;
use webhook_rs::sql::CiText;
use webhook_rs::{JsonValue, Uuid};

fn obj_get<'a>(v: &'a JsonValue, key: &str) -> &'a JsonValue {
    match v {
        JsonValue::Obj(entries) => {
            for (k, val) in entries {
                if k == key {
                    return val;
                }
            }
            panic!("key {key} not found");
        }
        _ => panic!("not an object"),
    }
}

fn as_str(v: &JsonValue) -> &str {
    match v {
        JsonValue::Str(s) => s.as_str(),
        _ => panic!("not a string"),
    }
}

fn as_uint(v: &JsonValue) -> u64 {
    match v {
        JsonValue::UInt(n) => *n,
        _ => panic!("not an unsigned number"),
    }
}

fn as_int(v: &JsonValue) -> i64 {
    match v {
        JsonValue::Int(n) => *n,
        _ => panic!("not a number"),
    }
}

fn str_items(v: &JsonValue) -> Vec<String> {
    match v {
        JsonValue::Arr(items) => items
            .iter()
            .map(|i| match i {
                JsonValue::Str(s) => s.clone(),
                _ => panic!("not a string item"),
            })
            .collect(),
        _ => panic!("not an array"),
    }
}

#[test]
fn uuid_text_is_canonical_lowercase_hyphenated() {
    let id = Uuid { value: 0x00112233_4455_6677_8899_aabbccddeeff };
    assert_eq!(id.hyphenated(), "00112233-4455-6677-8899-aabbccddeeff");
    assert_eq!(
        Uuid { value: 0 }.hyphenated(),
        "00000000-0000-0000-0000-000000000000"
    );
    assert_eq!(
        Uuid { value: u128::MAX }.hyphenated(),
        "ffffffff-ffff-ffff-ffff-ffffffffffff"
    );
}

#[test]
fn shortened_keeps_short_strings_whole() {
    let s = shortened("short", 13);
    assert_eq!(s.text, "short");
    assert!(!s.truncated);
}

#[test]
fn shortened_cuts_long_strings_to_the_bound() {
    let s = Shortened::new("hello world", 8);
    assert_eq!(s.text, "hello");
    assert!(s.truncated);
    // exactly at the bound still counts as long
    let s = Shortened::new("12345678", 8);
    assert_eq!(s.text, "12345");
    assert!(s.truncated);
}

#[test]
fn citext_wraps_and_unwraps_unchanged() {
    let c = CiText::wrap("MiXeD".to_string());
    assert_eq!(c.str(), "MiXeD");
    assert_eq!(c.string(), "MiXeD");
}

#[test]
fn team_row_renders_every_field() {
    let team = Team {
        id: Uuid { value: 1 },
        name: CiText::wrap("crabs".to_string()),
        score: 250,
        last_solve: Some(1_700_000_000),
        eligible: true,
        affiliation: None,
    };
    let json = SerializableTeam::from(team).to_json();
    assert_eq!(
        as_str(obj_get(&json, "id")),
        "00000000-0000-0000-0000-000000000001"
    );
    assert_eq!(as_str(obj_get(&json, "name")), "crabs");
    assert_eq!(as_int(obj_get(&json, "score")), 250);
    assert_eq!(as_uint(obj_get(&json, "last_solve")), 1_700_000_000);
    assert!(matches!(obj_get(&json, "affiliation"), JsonValue::Null));
}

#[test]
fn chall_row_groups_its_links() {
    let chall = Chall {
        id: Uuid { value: 2 },
        name: CiText::wrap("pwn1".to_string()),
        description: "have fun".to_string(),
        points: 300,
        authors: vec!["ada".to_string()],
        hints: vec![],
        categories: vec!["pwn".to_string()],
        tags: vec!["easy".to_string()],
        solve_count: 4,
        visible: true,
        source_folder: "pwn1".to_string(),
        links_nc: vec!["nc host 1".to_string()],
        links_web: vec![],
        links_admin: vec![],
        links_static: vec!["https://files.example/a".to_string()],
    };
    let json = SerializableChall::from(chall).to_json();
    assert_eq!(as_int(obj_get(&json, "points")), 300);
    assert_eq!(str_items(obj_get(&json, "authors")), vec!["ada".to_string()]);
    let links = obj_get(&json, "links");
    assert_eq!(str_items(obj_get(links, "nc")), vec!["nc host 1".to_string()]);
    assert_eq!(
        str_items(obj_get(links, "static")),
        vec!["https://files.example/a".to_string()]
    );
    assert!(str_items(obj_get(links, "web")).is_empty());
}

#[test]
fn sql_answer_is_tagged_with_its_kind() {
    let history = History {
        team_id: Uuid { value: 3 },
        entries: vec![SimpleHistoryEntry { points: 50, time: 120 }],
    };
    let json = FromSql::History(history).body();
    assert_eq!(as_str(obj_get(&json, "__type")), "history");
    let data = obj_get(&json, "data");
    assert_eq!(
        as_str(obj_get(data, "team_id")),
        "00000000-0000-0000-0000-000000000003"
    );
    match obj_get(data, "entries") {
        JsonValue::Arr(items) => {
            assert_eq!(items.len(), 1);
            assert_eq!(as_uint(obj_get(&items[0], "points")), 50);
            assert_eq!(as_uint(obj_get(&items[0], "time")), 120);
        }
        _ => panic!("entries is not an array"),
    }
}

#[test]
fn attempts_answer_carries_both_counters() {
    let json = FromSql::Attempts(Attempts {
        chall_id: Some(Uuid { value: 4 }),
        team_id: None,
        correct: 3,
        incorrect: 11,
    })
    .body();
    assert_eq!(as_str(obj_get(&json, "__type")), "attempts");
    let data = obj_get(&json, "data");
    assert_eq!(as_uint(obj_get(data, "correct")), 3);
    assert_eq!(as_uint(obj_get(data, "incorrect")), 11);
    assert!(matches!(obj_get(data, "team_id"), JsonValue::Null));
}

#[test]
fn deployment_status_renders_time_and_poll_id() {
    let status = DeploymentStatus {
        status: Status::Building,
        status_time: Duration { secs: 90, nanos: 5 },
        chall_name: Some("pwn1".to_string()),
        poll_id: Uuid { value: 5 },
        err_msg: None,
    };
    let json = FromDeploy::Status(status).body();
    assert_eq!(as_str(obj_get(&json, "__type")), "status");
    let data = obj_get(&json, "data");
    assert_eq!(as_str(obj_get(data, "status")), "building");
    let time = obj_get(data, "status_time");
    assert_eq!(as_uint(obj_get(time, "secs")), 90);
    assert_eq!(as_uint(obj_get(time, "nanos")), 5);
    assert_eq!(
        as_str(obj_get(data, "poll_id")),
        "00000000-0000-0000-0000-000000000005"
    );
    assert!(matches!(obj_get(data, "err_msg"), JsonValue::Null));
}

#[test]
fn deploy_requests_state_their_preparation() {
    let by_id = ToDeploy::Deploy {
        chall: ChallIdentifier::CurrDeployedId(Uuid { value: 6 }),
        force_wipe: false,
    };
    assert!(matches!(by_id.preparation(), DeployPrep::Ready(Uuid { value: 6 })));

    let wiping = ToDeploy::Deploy {
        chall: ChallIdentifier::Folder("pwn1".to_string()),
        force_wipe: true,
    };
    assert!(matches!(wiping.preparation(), DeployPrep::FreshId));

    let by_folder = ToDeploy::Deploy {
        chall: ChallIdentifier::Folder("pwn1".to_string()),
        force_wipe: false,
    };
    match by_folder.preparation() {
        DeployPrep::FolderLookup(f) => assert_eq!(f, "pwn1"),
        _ => panic!("folder deployment should look the id up"),
    }

    let modify = ToDeploy::ModifyMeta {
        id: Uuid { value: 7 },
        name: None,
        desc: None,
        points: None,
        categories: None,
        tags: None,
        visible: None,
    };
    assert!(matches!(
        modify.preparation(),
        DeployPrep::SourceFolderLookup(Uuid { value: 7 })
    ));
}

#[test]
fn deploy_request_body_is_tagged_and_identified() {
    let req = ToDeploy::Poll { id: Uuid { value: 8 } };
    let body = req.request_body(Uuid { value: 8 }, String::new());
    assert_eq!(as_str(obj_get(&body, "__type")), "poll");
    assert_eq!(
        as_str(obj_get(&body, "deploy_identifier")),
        "00000000-0000-0000-0000-000000000008"
    );
    assert_eq!(as_str(obj_get(&body, "chall_name")), "");
    assert!(matches!(obj_get(&body, "modifications"), JsonValue::Null));
}

#[test]
fn modify_meta_body_carries_only_the_given_changes() {
    let req = ToDeploy::ModifyMeta {
        id: Uuid { value: 9 },
        name: Some("New".to_string()),
        desc: None,
        points: Some(450),
        categories: None,
        tags: Some(Some(vec!["hard".to_string()])),
        visible: Some(true),
    };
    let body = req.request_body(Uuid { value: 9 }, "pwn1".to_string());
    assert_eq!(as_str(obj_get(&body, "__type")), "modify_meta");
    assert_eq!(as_str(obj_get(&body, "chall_name")), "pwn1");
    let mods = obj_get(&body, "modifications");
    assert_eq!(as_str(obj_get(mods, "name")), "New");
    assert!(matches!(obj_get(mods, "desc"), JsonValue::Null));
    assert_eq!(as_uint(obj_get(mods, "points")), 450);
    assert_eq!(str_items(obj_get(mods, "tags")), vec!["hard".to_string()]);
}

#[test]
fn deploy_answers_map_to_their_outcomes() {
    assert!(matches!(
        ToDeploy::conclude(DeploySendEvent::SendFailed),
        Err(FromDeployErr::BadSend)
    ));
    assert!(matches!(
        ToDeploy::conclude(DeploySendEvent::BadBody),
        Err(FromDeployErr::BadResponse)
    ));
    match ToDeploy::conclude(DeploySendEvent::Refused { code: 409, body: Some(b"busy".to_vec()) })
    {
        Err(FromDeployErr::DeployServer { code, body }) => {
            assert_eq!(code, 409);
            assert_eq!(body, b"busy".to_vec());
        }
        _ => panic!("refusal should carry the server answer"),
    }
    match ToDeploy::conclude(DeploySendEvent::Refused { code: 409, body: None }) {
        Err(FromDeployErr::DeployServer { code, body }) => {
            assert_eq!(code, 500);
            assert_eq!(body, b"Failed to read deploy server response".to_vec());
        }
        _ => panic!("unreadable refusal should degrade to 500"),
    }
}

#[test]
fn frontend_request_body_names_the_scope() {
    let body = ToFrontend::Sync(SyncType::Chall(Uuid { value: 10 })).request_body();
    assert_eq!(as_str(obj_get(&body, "__type")), "chall");
    assert_eq!(
        as_str(obj_get(&body, "id")),
        "00000000-0000-0000-0000-00000000000a"
    );
    let body = ToFrontend::Sync(SyncType::AllChalls).request_body();
    assert_eq!(as_str(obj_get(&body, "__type")), "all_challs");
    match &body {
        JsonValue::Obj(entries) => assert_eq!(entries.len(), 1),
        _ => panic!("not an object"),
    }
}

#[test]
fn frontend_answers_map_to_their_outcomes() {
    let req = ToFrontend::Sync(SyncType::Solves);
    assert!(matches!(
        req.conclude(FrontendSendEvent::Accepted),
        Ok(FromFrontend::Synced(SyncType::Solves))
    ));
    let req = ToFrontend::Sync(SyncType::Solves);
    assert!(matches!(
        req.conclude(FrontendSendEvent::Refused),
        Err(FromFrontendErr::FailedToSync(SyncType::Solves))
    ));
    let req = ToFrontend::Sync(SyncType::Solves);
    match req.conclude(FrontendSendEvent::SendFailed("refused".to_string())) {
        Err(FromFrontendErr::WebhookServerError(reason)) => assert_eq!(reason, "refused"),
        _ => panic!("failed send should carry the reason"),
    }
}

#[test]
fn frontend_error_body_names_the_scope_with_its_id() {
    let err = FromFrontendErr::FailedToSync(SyncType::Team(Uuid { value: 11 }));
    assert_eq!(err.status_code(), 500);
    let body = err.body().unwrap();
    assert_eq!(as_str(obj_get(&body, "message")), "failed to sync");
    let sync = obj_get(&body, "sync_type");
    assert_eq!(as_str(obj_get(sync, "type")), "team");
    assert_eq!(
        as_str(obj_get(sync, "id")),
        "00000000-0000-0000-0000-00000000000b"
    );
}

#[test]
fn deploy_error_bodies_decode_their_bytes() {
    let err = FromDeployErr::DeployServer { code: 502, body: b"upstream died".to_vec() };
    assert_eq!(err.status_code(), 502);
    let body = err.body().unwrap();
    assert_eq!(as_str(&body), "upstream died");
    assert_eq!(FromDeployErr::BadSend.status_code(), 500);
}

#[test]
fn rendering_covers_every_document_shape() {
    assert_eq!(render(&JsonValue::Null), "null");
    assert_eq!(render(&JsonValue::Bool(true)), "true");
    assert_eq!(render(&JsonValue::Bool(false)), "false");
    assert_eq!(render(&JsonValue::UInt(0)), "0");
    assert_eq!(render(&JsonValue::UInt(1234567890)), "1234567890");
    assert_eq!(render(&JsonValue::Int(-42)), "-42");
    assert_eq!(render(&JsonValue::Int(i64::MIN)), "-9223372036854775808");
    assert_eq!(render(&JsonValue::Str("plain".to_string())), "\"plain\"");
    assert_eq!(render(&JsonValue::Arr(vec![])), "[]");
    assert_eq!(render(&JsonValue::Obj(vec![])), "{}");
}

#[test]
fn rendering_escapes_what_json_requires() {
    assert_eq!(
        render(&JsonValue::Str("say \"hi\"\\\n".to_string())),
        "\"say \\\"hi\\\"\\\\\\n\""
    );
    assert_eq!(
        render(&JsonValue::Str("\u{0001}\t\r\u{0008}\u{000C}\u{001f}".to_string())),
        "\"\\u0001\\t\\r\\b\\f\\u001f\""
    );
    // Characters past the control range pass through unescaped.
    assert_eq!(render(&JsonValue::Str("héllo".to_string())), "\"héllo\"");
}

#[test]
fn rendering_keeps_entry_and_item_order() {
    let doc = JsonValue::Obj(vec![
        (
            "a".to_string(),
            JsonValue::Arr(vec![JsonValue::UInt(1), JsonValue::Str("x".to_string())]),
        ),
        ("b".to_string(), JsonValue::Null),
    ]);
    assert_eq!(render(&doc), "{\"a\":[1,\"x\"],\"b\":null}");
}

#[test]
fn rendered_error_bodies_are_wire_ready() {
    let body = FromSqlErr::DoesNotExist(Uuid { value: 7 }).body().unwrap();
    assert_eq!(
        render(&body),
        "{\"err\":\"This id does not exist.\",\"id\":\"00000000-0000-0000-0000-000000000007\"}"
    );
}
