use webhook_rs::auth::{authorize, unauthorized_body, UNAUTHORIZED_STATUS};
use webhook_rs::handlers::discord::{DiscordConfig, PayloadDetails, Pings};
use webhook_rs::incoming::{AlertLevel, DeveloperDiscordMessage, ParticipantMessage, ToDiscord};
use webhook_rs::outgoing::{
    FromDeploy, FromDiscord, FromDiscordErr, FromFrontend, FromFrontendErr, FromSql, FromSqlErr,
    OutgoingErr, Status,
};
use webhook_rs::response::{failure_entry, resolve_status, success_entry, Domain};
use webhook_rs::{check_matches, Credentials, Incoming, JsonValue, Outgoing, Token, Uuid};

fn creds() -> Credentials {
    Credentials::new([0xAA; 32], [0xBB; 32], [0xCC; 32])
}

fn obj_get<'a>(v: &'a JsonValue, key: &str) -> &'a JsonValue {
    match v {
        JsonValue::Obj(entries) => {
            for (k, val) in entries {
                if k == key {
                    return val;
                }
            }
            panic!("key {key} not found");
        }
        _ => panic!("not an object"),
    }
}

fn obj_keys(v: &JsonValue) -> Vec<String> {
    match v {
        JsonValue::Obj(entries) => entries.iter().map(|(k, _)| k.clone()).collect(),
        _ => panic!("not an object"),
    }
}

fn as_bool(v: &JsonValue) -> bool {
    match v {
        JsonValue::Bool(b) => *b,
        _ => panic!("not a bool"),
    }
}

fn as_str(v: &JsonValue) -> &str {
    match v {
        JsonValue::Str(s) => s.as_str(),
        _ => panic!("not a string"),
    }
}

fn empty_envelope() -> Incoming {
    Incoming { depl: None, disc: None, fron: None, sqll: None }
}

#[test]
fn exact_length_and_matching_secret_authenticate() {
    let c = creds();
    assert!(check_matches(&c, &[Token::Frontend], &[0xAA; 32]));
    assert!(check_matches(&c, &[Token::Deploy], &[0xBB; 32]));
    assert!(check_matches(&c, &[Token::Oauth], &[0xCC; 32]));
}

#[test]
fn wrong_length_never_authenticates() {
    let c = creds();
    assert!(!check_matches(&c, &[Token::Frontend], &[0xAA; 31]));
    assert!(!check_matches(&c, &[Token::Frontend], &[0xAA; 33]));
    assert!(!check_matches(&c, &[Token::Frontend], b""));
}

#[test]
fn match_anywhere_in_the_role_list_authenticates() {
    let c = creds();
    // first, last, and middle position; no short list order dependence
    assert!(check_matches(&c, &[Token::Frontend, Token::Deploy, Token::Oauth], &[0xAA; 32]));
    assert!(check_matches(&c, &[Token::Frontend, Token::Deploy, Token::Oauth], &[0xCC; 32]));
    assert!(check_matches(&c, &[Token::Frontend, Token::Deploy, Token::Oauth], &[0xBB; 32]));
}

#[test]
fn no_matching_secret_never_authenticates() {
    let c = creds();
    assert!(!check_matches(&c, &[Token::Frontend, Token::Deploy, Token::Oauth], &[0xDD; 32]));
    assert!(!check_matches(&c, &[], &[0xAA; 32]));
    // right secret, wrong role list
    assert!(!check_matches(&c, &[Token::Deploy], &[0xAA; 32]));
}

#[test]
fn bearer_prefix_is_required() {
    let c = creds();
    let mut good = b"Bearer ".to_vec();
    good.extend_from_slice(&[0xAA; 32]);
    let header = webhook_rs::AuthHeader::new(good);
    assert!(header.check_matches(&c, &[Token::Frontend]));

    let mut bad = b"Basic  ".to_vec();
    bad.extend_from_slice(&[0xAA; 32]);
    let header = webhook_rs::AuthHeader::new(bad);
    assert!(!header.check_matches(&c, &[Token::Frontend]));

    let header = webhook_rs::AuthHeader::new(b"Bear".to_vec());
    assert!(!header.check_matches(&c, &[Token::Frontend]));
}

#[test]
fn missing_header_is_rejected_before_any_dispatch() {
    let c = creds();
    assert!(!authorize(&c, None, &[Token::Frontend, Token::Deploy, Token::Oauth]));
    assert_eq!(UNAUTHORIZED_STATUS, 401);
    let body = unauthorized_body();
    let keys = obj_keys(&body);
    assert!(!keys.is_empty());
    assert_eq!(as_str(obj_get(&body, "err")), "Unauthorized access.");
}

#[test]
fn empty_envelope_dispatches_nothing_and_aggregates_to_200() {
    let env = empty_envelope();
    assert!(env.domains_to_dispatch().is_empty());
    let out = Outgoing { depl: None, disc: None, fron: None, sqll: None };
    let r = out.response();
    assert_eq!(r.status, 200);
    assert!(obj_keys(&r.body).is_empty());
}

#[test]
fn dispatch_plan_holds_exactly_the_present_slots() {
    let env = Incoming {
        depl: None,
        disc: Some(ToDiscord::Participant(ParticipantMessage::Alert {
            message: "hi".to_string(),
        })),
        fron: None,
        sqll: Some(webhook_rs::incoming::ToSql::Attempt(
            webhook_rs::incoming::AttemptQuery::GetAllAttempts,
        )),
    };
    assert_eq!(env.domains_to_dispatch(), vec![Domain::Discord, Domain::Sql]);
}

#[test]
fn response_keys_equal_present_slots() {
    let out = Outgoing {
        depl: None,
        disc: Some(Ok(FromDiscord)),
        fron: None,
        sqll: Some(Err(FromSqlErr::DatabaseError)),
    };
    let r = out.response();
    assert_eq!(obj_keys(&r.body), vec!["discord".to_string(), "sql".to_string()]);
}

#[test]
fn success_beside_client_failure_resolves_to_the_client_code() {
    let out = Outgoing {
        depl: Some(Ok(FromDeploy::ChallNameList(vec!["one".to_string()]))),
        disc: None,
        fron: None,
        sqll: Some(Err(FromSqlErr::DoesNotExist(Uuid { value: 7 }))),
    };
    let r = out.response();
    assert_eq!(r.status, 404);
    let keys = obj_keys(&r.body);
    assert_eq!(keys, vec!["deploy".to_string(), "sql".to_string()]);
    assert!(as_bool(obj_get(obj_get(&r.body, "deploy"), "ok")));
    assert!(!as_bool(obj_get(obj_get(&r.body, "sql"), "ok")));
}

#[test]
fn client_range_beats_server_range() {
    let out = Outgoing {
        depl: None,
        disc: Some(Err(FromDiscordErr {
            status_code: 503,
            status_message: "unavailable".to_string(),
            body: vec![],
        })),
        fron: None,
        sqll: Some(Err(FromSqlErr::DoesNotExist(Uuid { value: 1 }))),
    };
    assert_eq!(out.response().status, 404);
}

#[test]
fn same_category_failures_resolve_within_the_category() {
    let out = Outgoing {
        depl: None,
        disc: Some(Err(FromDiscordErr {
            status_code: 503,
            status_message: "unavailable".to_string(),
            body: vec![],
        })),
        fron: Some(Err(FromFrontendErr::WebhookServerError("down".to_string()))),
        sqll: None,
    };
    let status = out.response().status;
    assert!(status == 500 || status == 503);
}

#[test]
fn only_sql_success_gives_a_single_ok_entry_and_200() {
    let out = Outgoing {
        depl: None,
        disc: None,
        fron: None,
        sqll: Some(Ok(FromSql::Availability(true))),
    };
    let r = out.response();
    assert_eq!(r.status, 200);
    assert_eq!(obj_keys(&r.body), vec!["sql".to_string()]);
    let entry = obj_get(&r.body, "sql");
    assert!(as_bool(obj_get(entry, "ok")));
    let data = obj_get(entry, "data");
    assert_eq!(as_str(obj_get(data, "__type")), "availability");
    assert!(as_bool(obj_get(data, "data")));
}

#[test]
fn encoding_failure_degrades_to_a_500_failure_entry() {
    let (entry, code) = success_entry(Err("payload would not encode".to_string()));
    assert_eq!(code, 500);
    assert!(!as_bool(obj_get(&entry, "ok")));
    assert_eq!(as_str(obj_get(&entry, "data")), "payload would not encode");
}

#[test]
fn one_failing_domain_leaves_sibling_entries_untouched() {
    let out = Outgoing {
        depl: None,
        disc: Some(Ok(FromDiscord)),
        fron: None,
        sqll: Some(Err(FromSqlErr::OtherServerError("encoding gave out".to_string()))),
    };
    let r = out.response();
    assert_eq!(r.status, 500);
    let discord_entry = obj_get(&r.body, "discord");
    assert!(as_bool(obj_get(discord_entry, "ok")));
    assert_eq!(as_str(obj_get(discord_entry, "data")), "success");
}

#[test]
fn failure_entry_keeps_the_errors_own_code() {
    let (entry, code) = failure_entry(418, Ok(JsonValue::Bool(false)));
    assert_eq!(code, 418);
    assert!(!as_bool(obj_get(&entry, "ok")));
    let (entry, code) = failure_entry(502, Err("no body".to_string()));
    assert_eq!(code, 502);
    assert_eq!(as_str(obj_get(&entry, "data")), "no body");
}

#[test]
fn status_resolution_edge_cases() {
    assert_eq!(resolve_status(&vec![]), 200);
    assert_eq!(resolve_status(&vec![404, 503]), 404);
    assert_eq!(resolve_status(&vec![503, 404]), 404);
    assert_eq!(resolve_status(&vec![503, 500]), 503);
    assert_eq!(resolve_status(&vec![350]), 500);
    assert_eq!(resolve_status(&vec![101, 418]), 418);
}

#[test]
fn sql_error_status_codes_follow_the_error_kind() {
    assert_eq!(FromSqlErr::OtherServerError("x".to_string()).status_code(), 500);
    assert_eq!(FromSqlErr::DatabaseError.status_code(), 500);
    assert_eq!(FromSqlErr::Auth.status_code(), 403);
    assert_eq!(FromSqlErr::DoesNotExist(Uuid { value: 0 }).status_code(), 404);
    assert_eq!(FromSqlErr::NameDoesNotExist("a".to_string()).status_code(), 404);
    assert_eq!(FromSqlErr::NameIsTaken("a".to_string()).status_code(), 400);
    assert_eq!(FromSqlErr::RequestTooBig(9, 5).status_code(), 413);
}

#[test]
fn sql_error_bodies_name_their_cause() {
    let body = FromSqlErr::DoesNotExist(Uuid { value: 0 }).body().unwrap();
    assert_eq!(as_str(obj_get(&body, "err")), "This id does not exist.");
    assert_eq!(
        as_str(obj_get(&body, "id")),
        "00000000-0000-0000-0000-000000000000"
    );
    let body = FromSqlErr::NameIsTaken("crabs".to_string()).body().unwrap();
    assert_eq!(as_str(obj_get(&body, "name")), "crabs");
    let body = FromSqlErr::RequestTooBig(9, 5).body().unwrap();
    match obj_get(&body, "size") {
        JsonValue::UInt(n) => assert_eq!(*n, 9),
        _ => panic!("size is not a number"),
    }
}

#[test]
fn discord_error_body_carries_the_service_answer() {
    let err = FromDiscordErr {
        status_code: 429,
        status_message: "Too Many Requests".to_string(),
        body: b"slow down".to_vec(),
    };
    assert_eq!(err.status_code(), 429);
    let body = err.body().unwrap();
    assert_eq!(as_str(obj_get(&body, "message")), "failed to send discord message");
    match obj_get(&body, "code") {
        JsonValue::UInt(n) => assert_eq!(*n, 429),
        _ => panic!("code is not a number"),
    }
    assert_eq!(as_str(obj_get(&body, "status_message")), "Too Many Requests");
    assert_eq!(as_str(obj_get(&body, "body")), "slow down");
}

#[test]
fn developer_notification_message_is_rendered_verbatim() {
    let cfg = DiscordConfig {
        admin_url: "https://admin.example".to_string(),
        chall_writer_url: "https://writers.example".to_string(),
        participant_url: "https://everyone.example".to_string(),
        admin_role: "11".to_string(),
        chall_writer_role: "22".to_string(),
        participant_role: "33".to_string(),
        bot_name: None,
    };
    let req = ToDiscord::Developer(DeveloperDiscordMessage {
        level: AlertLevel::Erro,
        message: "db is gone".to_string(),
        data: JsonValue::Null,
        include_chall_writers: true,
    });
    let PayloadDetails { url, username, message } = req.get_payload_details(&cfg);
    assert_eq!(url, "https://writers.example");
    assert_eq!(username, "ARCS Alerts");
    assert_eq!(
        message,
        "-------------------\n# Urgency: Error\n<@&22> <@&11> \ndb is gone"
    );
}

#[test]
fn first_blood_message_quotes_backticks_away() {
    let cfg = DiscordConfig {
        admin_url: "a".to_string(),
        chall_writer_url: "w".to_string(),
        participant_url: "p".to_string(),
        admin_role: "1".to_string(),
        chall_writer_role: "2".to_string(),
        participant_role: "3".to_string(),
        bot_name: Some("Flag Bot".to_string()),
    };
    let req = ToDiscord::Participant(ParticipantMessage::FirstBlood {
        chall_name: "pwn1".to_string(),
        team: "back`tick".to_string(),
        user: "ca`t".to_string(),
    });
    let PayloadDetails { url, username, message } = req.get_payload_details(&cfg);
    assert_eq!(url, "p");
    assert_eq!(username, "Flag Bot");
    assert_eq!(
        message,
        "First :drop_of_blood: by `ca't` from `back'tick` on challenge `pwn1`!"
    );
}

#[test]
fn pings_render_one_mention_per_role() {
    let pings = Pings(vec!["5".to_string(), "6".to_string()]);
    assert_eq!(pings.string(), "<@&5> <@&6> ");
    assert_eq!(Pings(vec![]).string(), "");
}

#[test]
fn alert_levels_keep_their_fixed_width_labels() {
    assert_eq!(AlertLevel::Info.label(), "Info ");
    assert_eq!(AlertLevel::Warn.label(), "Warn ");
    assert_eq!(AlertLevel::Erro.label(), "Error");
}

#[test]
fn deploy_status_labels_are_snake_case() {
    assert_eq!(Status::Started.label(), "started");
    assert_eq!(Status::Building.label(), "building");
    assert_eq!(Status::Success.label(), "success");
    assert_eq!(Status::Failure.label(), "failure");
    assert_eq!(Status::Unknown.label(), "unknown");
}

#[test]
fn timing_does_not_depend_on_which_role_matches() {
    // All three scenarios present a correctly sized candidate and the
    // same role list; only where (or whether) the match lands differs.
    // The totals are summed over many runs to drown scheduler noise, and
    // the bound is deliberately loose: a short-circuiting comparison
    // would differ by far more than this.
    let c = creds();
    let list = [Token::Frontend, Token::Deploy, Token::Oauth];
    let first: [u8; 32] = [0xAA; 32];
    let last: [u8; 32] = [0xCC; 32];
    let none: [u8; 32] = [0xDD; 32];

    let mut measure = |candidate: &[u8; 32]| {
        let start = std::time::Instant::now();
        let mut hits = 0u32;
        for _ in 0..5000 {
            if check_matches(&c, &list, candidate) {
                hits += 1;
            }
        }
        (start.elapsed(), hits)
    };
    // Warm caches before measuring.
    let _ = measure(&first);
    let (t_first, h_first) = measure(&first);
    let (t_last, h_last) = measure(&last);
    let (t_none, h_none) = measure(&none);
    assert_eq!(h_first, 5000);
    assert_eq!(h_last, 5000);
    assert_eq!(h_none, 0);

    let times = [t_first.as_nanos(), t_last.as_nanos(), t_none.as_nanos()];
    let slowest = *times.iter().max().unwrap();
    let fastest = *times.iter().min().unwrap().max(&1);
    assert!(
        slowest / fastest < 20,
        "scenario wall times diverged: {times:?}"
    );
}

#[test]
fn salt_is_drawable() {
    let s = webhook_rs::passwords::salt().expect("random source should be available");
    assert_eq!(s.len(), 32);
}
