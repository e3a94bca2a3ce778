use slippi_rust_extensions::game_reporter::graphql::{
    graphql_request_body, graphql_response_data, read_report_response, ReportSendErrorKind,
    GRAPHQL_URL,
};
use slippi_rust_extensions::game_reporter::iso_md5_hasher::{
    is_known_desync_iso, record_iso_hash, run, IsoHasher,
};
use slippi_rust_extensions::game_reporter::queue::{
    GameReporterQueue, ProcessingEvent, ReportStep, MAX_REPORT_ATTEMPTS,
};
use slippi_rust_extensions::game_reporter::requests::{
    read_confirmation, read_report_outcome, report_request_body,
};
use slippi_rust_extensions::game_reporter::replay::{
    try_upload_replay_data, upload_request, wrap_replay_data,
};
use slippi_rust_extensions::game_reporter::types::{
    GameReport, GameReportRequestPayload, OnlinePlayMode, PlayerReport,
};
use slippi_rust_extensions::game_reporter::worker::WorkerState;
use slippi_rust_extensions::game_reporter::SlippiGameReporter;
use slippi_rust_extensions::osd::{Color, Duration};

fn player(uid: &str) -> PlayerReport {
    PlayerReport {
        uid: uid.to_string(),
        slot_type: 0,
        damage_done: serde_json::Value::from(112.5f64),
        stocks_remaining: 2,
        character_id: 9,
        color_id: 1,
        starting_stocks: 4,
        starting_percent: -1,
    }
}

fn report(match_id: &str, mode: OnlinePlayMode) -> GameReport {
    GameReport {
        uid: "abc".to_string(),
        play_key: "key".to_string(),
        online_mode: mode,
        match_id: match_id.to_string(),
        attempts: 0,
        duration_frames: 7200,
        game_index: 1,
        tie_break_index: 0,
        winner_index: -1,
        game_end_method: 2,
        lras_initiator: -1,
        stage_id: 31,
        players: Vec::new(),
        replay_data: Vec::new(),
    }
}

fn accepted(url: Option<&str>) -> Result<String, String> {
    Ok(match url {
        Some(url) => format!(
            "{{\"data\":{{\"reportOnlineGame\":{{\"success\":true,\"uploadUrl\":\"{}\"}}}}}}",
            url
        ),
        None => "{\"data\":{\"reportOnlineGame\":{\"success\":true,\"uploadUrl\":null}}}".to_string(),
    })
}

fn refused() -> Result<String, String> {
    Ok("{\"data\":{\"reportOnlineGame\":{\"success\":false}}}".to_string())
}

fn match_ids(queue: &mut GameReporterQueue) -> Vec<String> {
    let mut ids = Vec::new();
    while !queue.is_empty() {
        let body = queue.next_request();
        let doc: serde_json::Value = serde_json::from_str(&body).unwrap();
        ids.push(doc["variables"]["report"]["matchId"].as_str().unwrap().to_string());
        queue.process_next_report(ProcessingEvent::ReportAvailable, accepted(None));
    }
    ids
}

#[test]
fn online_play_mode_has_its_wire_code() {
    assert_eq!(OnlinePlayMode::Ranked.to_u8(), 0);
    assert_eq!(OnlinePlayMode::Unranked.to_u8(), 1);
    assert_eq!(OnlinePlayMode::Direct.to_u8(), 2);
    assert_eq!(OnlinePlayMode::Teams.to_u8(), 3);
}

#[test]
fn payload_keeps_the_scalar_fields() {
    let mut game = report("m1", OnlinePlayMode::Ranked);
    game.players.push(player("alice"));
    let payload = GameReportRequestPayload::with(&game, "hash");
    assert_eq!(payload.uid, "abc");
    assert_eq!(payload.play_key, "key");
    assert_eq!(payload.iso_hash, "hash");
    assert_eq!(payload.match_id, "m1");
    assert_eq!(payload.mode, OnlinePlayMode::Ranked);
    assert_eq!(payload.duration_frames, 7200);
    assert_eq!(payload.game_index, 1);
    assert_eq!(payload.tie_break_index, 0);
    assert_eq!(payload.winner_index, -1);
    assert_eq!(payload.game_end_method, 2);
    assert_eq!(payload.lras_initiator, -1);
    assert_eq!(payload.stage_id, 31);
    assert_eq!(payload.players.len(), 1);
    assert_eq!(payload.players[0].uid, "alice");
}

#[test]
fn payload_is_serialized_under_the_wire_names() {
    let game = report("m1", OnlinePlayMode::Ranked);
    let payload = GameReportRequestPayload::with(&game, "");
    let text = payload.to_json().to_string();
    assert_eq!(
        text,
        "{\"fbUid\":\"abc\",\"gameDurationFrames\":7200,\"gameEndMethod\":2,\"gameIndex\":1,\
         \"isoHash\":\"\",\"lrasInitiator\":-1,\"matchId\":\"m1\",\"mode\":0,\"playKey\":\"key\",\
         \"players\":[],\"stageId\":31,\"tiebreakIndex\":0,\"winnerIdx\":-1}"
    );
}

#[test]
fn payload_round_trips_through_json() {
    let mut game = report("m1", OnlinePlayMode::Teams);
    game.players.push(player("alice"));
    game.players.push(player("bob"));
    let payload = GameReportRequestPayload::with(&game, "27a5668769a54cd3515af47b8d9982f3");
    let doc: serde_json::Value = serde_json::from_str(&payload.to_json().to_string()).unwrap();
    assert_eq!(doc["fbUid"], serde_json::Value::from("abc"));
    assert_eq!(doc["matchId"], serde_json::Value::from("m1"));
    assert_eq!(doc["mode"], serde_json::Value::from(3u64));
    assert_eq!(doc["playKey"], serde_json::Value::from("key"));
    assert_eq!(doc["isoHash"], serde_json::Value::from("27a5668769a54cd3515af47b8d9982f3"));
    assert_eq!(doc["gameDurationFrames"], serde_json::Value::from(7200u64));
    assert_eq!(doc["gameIndex"], serde_json::Value::from(1u64));
    assert_eq!(doc["tiebreakIndex"], serde_json::Value::from(0u64));
    assert_eq!(doc["winnerIdx"], serde_json::Value::from(-1i64));
    assert_eq!(doc["gameEndMethod"], serde_json::Value::from(2u64));
    assert_eq!(doc["lrasInitiator"], serde_json::Value::from(-1i64));
    assert_eq!(doc["stageId"], serde_json::Value::from(31i64));
    assert_eq!(doc.as_object().unwrap().len(), 13);
    let players = doc["players"].as_array().unwrap();
    assert_eq!(players.len(), 2);
    assert_eq!(players[0]["fbUid"], serde_json::Value::from("alice"));
    assert_eq!(players[1]["fbUid"], serde_json::Value::from("bob"));
}

#[test]
fn player_is_serialized_under_the_wire_names() {
    let text = player("al\"ice").to_json().to_string();
    assert_eq!(
        text,
        "{\"characterId\":9,\"colorId\":1,\"damageDone\":112.5,\"fbUid\":\"al\\\"ice\",\
         \"slotType\":0,\"startingPercent\":-1,\"startingStocks\":4,\"stocksRemaining\":2}"
    );
}

#[test]
fn numbers_are_serialized_at_their_limits() {
    let mut game = report("m", OnlinePlayMode::Direct);
    game.duration_frames = u32::MAX;
    game.winner_index = i8::MIN;
    game.stage_id = i32::MIN;
    game.game_end_method = u8::MAX;
    let mut p = player("p");
    p.starting_stocks = i64::MIN;
    p.starting_percent = i64::MAX;
    game.players.push(p);
    let payload = GameReportRequestPayload::with(&game, "");
    let doc: serde_json::Value = serde_json::from_str(&payload.to_json().to_string()).unwrap();
    assert_eq!(doc["gameDurationFrames"].to_string(), "4294967295");
    assert_eq!(doc["winnerIdx"].to_string(), "-128");
    assert_eq!(doc["stageId"].to_string(), "-2147483648");
    assert_eq!(doc["gameEndMethod"].to_string(), "255");
    assert_eq!(doc["players"][0]["startingStocks"].to_string(), "-9223372036854775808");
    assert_eq!(doc["players"][0]["startingPercent"].to_string(), "9223372036854775807");
}

#[test]
fn request_body_holds_query_and_variables() {
    let body = graphql_request_body("query { a }", Some(serde_json::Value::from(7u64)));
    assert_eq!(body, "{\"query\":\"query { a }\",\"variables\":7}");
    let body = graphql_request_body("query { a }", None);
    assert_eq!(body, "{\"query\":\"query { a }\"}");
}

#[test]
fn endpoint_is_the_gateway() {
    assert_eq!(GRAPHQL_URL, "https://gql-gateway-dev-dot-slippi.uc.r.appspot.com/graphql");
}

#[test]
fn report_request_names_the_mutation_and_the_report() {
    let mut game = report("m1", OnlinePlayMode::Ranked);
    game.players.push(player("alice"));
    let body = report_request_body(&game, "hash");
    let doc: serde_json::Value = serde_json::from_str(&body).unwrap();
    let query = doc["query"].as_str().unwrap();
    assert!(query.contains("mutation ($report: OnlineGameReportInput!)"));
    assert!(query.contains("reportOnlineGame (report: $report)"));
    assert!(query.contains("success"));
    assert!(query.contains("uploadUrl"));
    assert_eq!(doc["variables"]["report"]["fbUid"], serde_json::Value::from("abc"));
    assert_eq!(doc["variables"]["report"]["isoHash"], serde_json::Value::from("hash"));
    assert_eq!(doc["variables"]["report"]["players"][0]["damageDone"].to_string(), "112.5");
    assert_eq!(doc.as_object().unwrap().len(), 2);
}

#[test]
fn completion_request_is_exact() {
    let queue = GameReporterQueue::new();
    let body = queue.report_completion("u".to_string(), "k".to_string(), "m".to_string(), 7);
    let doc: serde_json::Value = serde_json::from_str(&body).unwrap();
    assert!(doc["query"].as_str().unwrap().contains("mutation ($report: OnlineGameCompleteInput!)"));
    assert!(doc["query"].as_str().unwrap().contains("completeOnlineGame (report: $report)"));
    assert_eq!(
        doc["variables"].to_string(),
        "{\"report\":{\"endMode\":7,\"fbUid\":\"u\",\"matchId\":\"m\",\"playKey\":\"k\"}}"
    );
}

#[test]
fn abandonment_request_is_exact() {
    let queue = GameReporterQueue::new();
    let body = queue.report_abandonment("u".to_string(), "k".to_string(), "m".to_string());
    let doc: serde_json::Value = serde_json::from_str(&body).unwrap();
    assert!(doc["query"].as_str().unwrap().contains("mutation ($report: OnlineGameAbandonInput!)"));
    assert!(doc["query"].as_str().unwrap().contains("abandonOnlineGame (report: $report)"));
    assert_eq!(
        doc["variables"].to_string(),
        "{\"report\":{\"fbUid\":\"u\",\"matchId\":\"m\",\"playKey\":\"k\"}}"
    );
}

#[test]
fn response_data_is_the_asked_field() {
    let sent = Ok("{\"data\": {\"a\": {\"x\": 1}, \"b\": true}}".to_string());
    match graphql_response_data(sent, Some("a")) {
        Ok(data) => assert_eq!(data, "{\"x\":1}"),
        other => panic!("unexpected: {:?}", other),
    }
}

#[test]
fn response_data_is_all_data_without_the_field() {
    let sent = Ok("{\"data\":{\"b\":true}}".to_string());
    match graphql_response_data(sent, Some("a")) {
        Ok(data) => assert_eq!(data, "{\"b\":true}"),
        other => panic!("unexpected: {:?}", other),
    }
    let sent = Ok("{\"data\":{\"b\":true}}".to_string());
    match graphql_response_data(sent, None) {
        Ok(data) => assert_eq!(data, "{\"b\":true}"),
        other => panic!("unexpected: {:?}", other),
    }
    let sent = Ok("{\"data\":[1,2]}".to_string());
    match graphql_response_data(sent, Some("a")) {
        Ok(data) => assert_eq!(data, "[1,2]"),
        other => panic!("unexpected: {:?}", other),
    }
}

#[test]
fn transport_failure_is_a_net_error() {
    match graphql_response_data(Err("connection refused".to_string()), Some("a")) {
        Err(ReportSendErrorKind::Net(message)) => assert_eq!(message, "connection refused"),
        other => panic!("unexpected: {:?}", other),
    }
}

#[test]
fn unreadable_response_is_a_json_error() {
    assert!(matches!(
        graphql_response_data(Ok("<html>".to_string()), Some("a")),
        Err(ReportSendErrorKind::JSON(_))
    ));
    assert!(matches!(
        graphql_response_data(Ok(String::new()), None),
        Err(ReportSendErrorKind::JSON(_))
    ));
}

#[test]
fn errors_win_over_data() {
    let sent = Ok("{\"data\":{\"a\":true},\"errors\":[{\"message\":\"no\"}]}".to_string());
    match graphql_response_data(sent, Some("a")) {
        Err(ReportSendErrorKind::GraphQL(message)) => {
            assert_eq!(message, "[\n  {\n    \"message\": \"no\"\n  }\n]");
        },
        other => panic!("unexpected: {:?}", other),
    }
}

#[test]
fn empty_or_odd_errors_are_no_failure() {
    let sent = Ok("{\"data\":{\"a\":1},\"errors\":[]}".to_string());
    assert_eq!(graphql_response_data(sent, Some("a")).unwrap(), "1");
    let sent = Ok("{\"data\":{\"a\":1},\"errors\":\"text\"}".to_string());
    assert_eq!(graphql_response_data(sent, Some("a")).unwrap(), "1");
    let sent = Ok("{\"data\":{\"a\":1},\"errors\":null}".to_string());
    assert_eq!(graphql_response_data(sent, Some("a")).unwrap(), "1");
}

#[test]
fn missing_data_is_a_graphql_error() {
    match graphql_response_data(Ok("{\"other\":1}".to_string()), Some("a")) {
        Err(ReportSendErrorKind::GraphQL(message)) => {
            assert_eq!(message, "No 'data' field in the GraphQL response.");
        },
        other => panic!("unexpected: {:?}", other),
    }
    assert!(matches!(
        graphql_response_data(Ok("[1]".to_string()), None),
        Err(ReportSendErrorKind::GraphQL(_))
    ));
}

#[test]
fn report_response_is_read() {
    let r = read_report_response("{\"success\":true,\"uploadUrl\":\"https://up/1\"}").unwrap();
    assert!(r.success);
    assert_eq!(r.upload_url, Some("https://up/1".to_string()));
    let r = read_report_response("{\"success\":true,\"uploadUrl\":null}").unwrap();
    assert!(r.success);
    assert_eq!(r.upload_url, None);
    let r = read_report_response("{\"success\":false}").unwrap();
    assert!(!r.success);
    assert_eq!(r.upload_url, None);
    let r = read_report_response("{\"success\":true,\"uploadUrl\":\"a\\nb\",\"more\":1}").unwrap();
    assert_eq!(r.upload_url, Some("a\nb".to_string()));
}

#[test]
fn odd_report_response_is_a_json_error() {
    for body in [
        "",
        "true",
        "{}",
        "{\"uploadUrl\":\"x\"}",
        "{\"success\":1}",
        "{\"success\":\"true\"}",
        "{\"success\":null}",
        "{\"success\":true,\"uploadUrl\":5}",
        "{\"success\":true,\"uploadUrl\":[\"x\"]}",
    ] {
        assert!(
            matches!(read_report_response(body), Err(ReportSendErrorKind::JSON(_))),
            "{}",
            body
        );
    }
}

#[test]
fn confirmation_needs_true() {
    let sent = Ok("{\"data\":{\"completeOnlineGame\":true}}".to_string());
    assert!(read_confirmation(sent, "completeOnlineGame").is_ok());
    assert!(GameReporterQueue::completion_result(Ok(
        "{\"data\":{\"completeOnlineGame\":true}}".to_string()
    ))
    .is_ok());
    assert!(GameReporterQueue::abandonment_result(Ok(
        "{\"data\":{\"abandonOnlineGame\":true}}".to_string()
    ))
    .is_ok());
    match GameReporterQueue::completion_result(Ok(
        "{\"data\":{\"completeOnlineGame\":false}}".to_string()
    )) {
        Err(ReportSendErrorKind::NotSuccessful(answer)) => assert_eq!(answer, "false"),
        other => panic!("unexpected: {:?}", other),
    }
    match GameReporterQueue::abandonment_result(Ok(
        "{\"data\":{\"completeOnlineGame\":true}}".to_string()
    )) {
        Err(ReportSendErrorKind::NotSuccessful(answer)) => {
            assert_eq!(answer, "{\"completeOnlineGame\":true}")
        },
        other => panic!("unexpected: {:?}", other),
    }
    assert!(matches!(
        GameReporterQueue::completion_result(Err("down".to_string())),
        Err(ReportSendErrorKind::Net(_))
    ));
    assert!(matches!(
        GameReporterQueue::completion_result(Ok(
            "{\"errors\":[1],\"data\":{\"completeOnlineGame\":true}}".to_string()
        )),
        Err(ReportSendErrorKind::GraphQL(_))
    ));
}

#[test]
fn server_failure_is_never_success() {
    assert!(matches!(read_report_outcome(refused()), Err(ReportSendErrorKind::NotSuccessful(_))));
    match read_report_outcome(refused()) {
        Err(ReportSendErrorKind::NotSuccessful(body)) => assert_eq!(body, "{\"success\":false}"),
        other => panic!("unexpected: {:?}", other),
    }
    let with_errors = Ok(
        "{\"data\":{\"reportOnlineGame\":{\"success\":true,\"uploadUrl\":\"u\"}},\
         \"errors\":[{\"message\":\"denied\"}]}"
            .to_string(),
    );
    assert!(matches!(read_report_outcome(with_errors), Err(ReportSendErrorKind::GraphQL(_))));
    assert!(matches!(
        read_report_outcome(Ok("{\"data\":{\"reportOnlineGame\":null}}".to_string())),
        Err(ReportSendErrorKind::JSON(_))
    ));
    assert!(matches!(
        read_report_outcome(Err("timeout".to_string())),
        Err(ReportSendErrorKind::Net(_))
    ));
    assert_eq!(read_report_outcome(accepted(Some("https://up"))).unwrap(), Some("https://up".to_string()));
    assert_eq!(read_report_outcome(accepted(None)).unwrap(), None);
}

#[test]
fn new_queue_is_empty() {
    let queue = GameReporterQueue::new();
    assert!(queue.is_empty());
    assert_eq!(queue.len(), 0);
    assert_eq!(queue.iso_hash(), "");
}

#[test]
fn reports_leave_in_the_order_they_came() {
    let mut queue = GameReporterQueue::new();
    for id in ["r1", "r2", "r3", "r4"] {
        queue.add_report(report(id, OnlinePlayMode::Unranked));
    }
    assert_eq!(queue.len(), 4);
    assert_eq!(match_ids(&mut queue), vec!["r1", "r2", "r3", "r4"]);
    assert!(queue.is_empty());
}

#[test]
fn accepted_report_hands_its_replay_to_the_upload() {
    let mut queue = GameReporterQueue::new();
    let mut game = report("r1", OnlinePlayMode::Ranked);
    game.replay_data = vec![1, 2, 3];
    queue.add_report(game);
    match queue.process_next_report(ProcessingEvent::ReportAvailable, accepted(Some("https://up/1"))) {
        ReportStep::Sent { upload: Some(upload) } => {
            assert_eq!(upload.data, vec![1, 2, 3]);
            assert_eq!(upload.upload_url, "https://up/1");
        },
        other => panic!("unexpected: {:?}", other),
    }
    assert!(queue.is_empty());
}

#[test]
fn accepted_report_without_target_uploads_nothing() {
    let mut queue = GameReporterQueue::new();
    queue.add_report(report("r1", OnlinePlayMode::Ranked));
    assert!(matches!(
        queue.process_next_report(ProcessingEvent::ReportAvailable, accepted(None)),
        ReportStep::Sent { upload: None }
    ));
    assert!(queue.is_empty());
}

#[test]
fn failing_report_is_dropped_after_max_attempts() {
    assert_eq!(MAX_REPORT_ATTEMPTS, 5);
    let mut queue = GameReporterQueue::new();
    queue.add_report(report("r1", OnlinePlayMode::Ranked));
    let mut pauses = Vec::new();
    for attempt in 1..=4 {
        match queue.process_next_report(ProcessingEvent::ReportAvailable, refused()) {
            ReportStep::Retry { error } => {
                assert!(!error.is_last_attempt);
                assert!(matches!(error.kind, ReportSendErrorKind::NotSuccessful(_)));
                pauses.push(error.sleep_ms);
            },
            other => panic!("unexpected at attempt {}: {:?}", attempt, other),
        }
        assert_eq!(queue.len(), 1);
    }
    assert_eq!(pauses, vec![100, 200, 300, 400]);
    match queue.process_next_report(ProcessingEvent::ReportAvailable, refused()) {
        ReportStep::Dropped { error, notice } => {
            assert!(error.is_last_attempt);
            assert_eq!(error.sleep_ms, 0);
            let notice = notice.unwrap();
            assert_eq!(notice.color, Color::Red);
            assert_eq!(notice.duration, Duration::VeryLong);
            assert_eq!(
                notice.text,
                "Failed to send game report. If you get this often, visit Slippi Discord for help."
            );
        },
        other => panic!("unexpected: {:?}", other),
    }
    assert!(queue.is_empty());
}

#[test]
fn only_ranked_reports_are_made_known_when_dropped() {
    for mode in [OnlinePlayMode::Unranked, OnlinePlayMode::Direct, OnlinePlayMode::Teams] {
        let mut queue = GameReporterQueue::new();
        queue.add_report(report("r1", mode));
        match queue.process_next_report(ProcessingEvent::Shutdown, Err("down".to_string())) {
            ReportStep::Dropped { error, notice } => {
                assert!(notice.is_none());
                assert!(matches!(error.kind, ReportSendErrorKind::Net(_)));
            },
            other => panic!("unexpected: {:?}", other),
        }
    }
}

#[test]
fn every_kind_of_failure_is_retried() {
    let mut queue = GameReporterQueue::new();
    queue.add_report(report("r1", OnlinePlayMode::Ranked));
    let failures: Vec<Result<String, String>> = vec![
        Err("down".to_string()),
        Ok("not json".to_string()),
        Ok("{\"errors\":[\"e\"]}".to_string()),
        refused(),
    ];
    for (i, failure) in failures.into_iter().enumerate() {
        match queue.process_next_report(ProcessingEvent::ReportAvailable, failure) {
            ReportStep::Retry { error } => assert_eq!(error.sleep_ms, (i as u64 + 1) * 100),
            other => panic!("unexpected: {:?}", other),
        }
    }
    assert_eq!(queue.len(), 1);
}

#[test]
fn stuck_head_blocks_the_reports_behind_it() {
    let mut queue = GameReporterQueue::new();
    queue.add_report(report("r1", OnlinePlayMode::Ranked));
    queue.add_report(report("r2", OnlinePlayMode::Ranked));
    queue.add_report(report("r3", OnlinePlayMode::Ranked));
    let mut sends: Vec<String> = Vec::new();
    let mut steps = 0;
    while !queue.is_empty() {
        let body = queue.next_request();
        let doc: serde_json::Value = serde_json::from_str(&body).unwrap();
        let id = doc["variables"]["report"]["matchId"].as_str().unwrap().to_string();
        let sent = if id == "r1" { refused() } else { accepted(None) };
        sends.push(id);
        queue.process_next_report(ProcessingEvent::ReportAvailable, sent);
        steps += 1;
        assert!(steps <= 7);
    }
    assert_eq!(sends, vec!["r1", "r1", "r1", "r1", "r1", "r2", "r3"]);
}

#[test]
fn shutdown_gives_each_report_one_attempt() {
    let mut queue = GameReporterQueue::new();
    queue.add_report(report("r1", OnlinePlayMode::Ranked));
    queue.add_report(report("r2", OnlinePlayMode::Unranked));
    match queue.process_next_report(ProcessingEvent::Shutdown, refused()) {
        ReportStep::Dropped { error, notice } => {
            assert!(error.is_last_attempt);
            assert_eq!(error.sleep_ms, 0);
            assert!(notice.is_some());
        },
        other => panic!("unexpected: {:?}", other),
    }
    assert_eq!(queue.len(), 1);
    assert!(matches!(
        queue.process_next_report(ProcessingEvent::Shutdown, accepted(None)),
        ReportStep::Sent { upload: None }
    ));
    assert!(queue.is_empty());
}

#[test]
fn shutdown_drops_a_report_that_was_tried_before() {
    let mut queue = GameReporterQueue::new();
    queue.add_report(report("r1", OnlinePlayMode::Direct));
    assert!(matches!(
        queue.process_next_report(ProcessingEvent::ReportAvailable, refused()),
        ReportStep::Retry { .. }
    ));
    assert!(matches!(
        queue.process_next_report(ProcessingEvent::Shutdown, refused()),
        ReportStep::Dropped { .. }
    ));
    assert!(queue.is_empty());
}

#[test]
fn settle_attempt_takes_the_outcome_as_given() {
    let mut queue = GameReporterQueue::new();
    let mut game = report("r1", OnlinePlayMode::Ranked);
    game.replay_data = vec![9];
    queue.add_report(game);
    match queue.settle_attempt(
        ProcessingEvent::ReportAvailable,
        Err(ReportSendErrorKind::GraphQL("e".to_string())),
    ) {
        ReportStep::Retry { error } => {
            assert_eq!(error.sleep_ms, 100);
            assert!(matches!(error.kind, ReportSendErrorKind::GraphQL(_)));
        },
        other => panic!("unexpected: {:?}", other),
    }
    match queue.settle_attempt(ProcessingEvent::ReportAvailable, Ok(Some("u".to_string()))) {
        ReportStep::Sent { upload: Some(upload) } => {
            assert_eq!(upload.data, vec![9]);
            assert_eq!(upload.upload_url, "u");
        },
        other => panic!("unexpected: {:?}", other),
    }
}

#[test]
fn replay_data_is_concatenated_into_one_report() {
    let mut reporter = SlippiGameReporter::new();
    reporter.start_new_session();
    reporter.push_replay_data(&[1, 2]);
    reporter.push_replay_data(&[]);
    reporter.push_replay_data(&[3]);
    assert_eq!(reporter.replay_data, vec![1, 2, 3]);
    let event = reporter.log_report(report("r1", OnlinePlayMode::Ranked));
    assert_eq!(event, ProcessingEvent::ReportAvailable);
    assert!(reporter.replay_data.is_empty());
    reporter.push_replay_data(&[4, 5]);
    assert_eq!(reporter.replay_data, vec![4, 5]);
    reporter.log_report(report("r2", OnlinePlayMode::Ranked));
    reporter.log_report(report("r3", OnlinePlayMode::Ranked));
    assert_eq!(reporter.queue.len(), 3);
    let mut uploads = Vec::new();
    while !reporter.queue.is_empty() {
        match reporter.queue.process_next_report(ProcessingEvent::ReportAvailable, accepted(Some("u"))) {
            ReportStep::Sent { upload: Some(upload) } => uploads.push(upload.data),
            other => panic!("unexpected: {:?}", other),
        }
    }
    assert_eq!(uploads, vec![vec![1, 2, 3], vec![4, 5], vec![]]);
}

#[test]
fn known_bad_iso_is_flagged_and_recorded() {
    for hash in [
        "23d6baef06bd65989585096915da20f2",
        "27a5668769a54cd3515af47b8d9982f3",
        "5805fa9f1407aedc8804d0472346fc5f",
        "9bb3e275e77bb1a160276f2330f93931",
    ] {
        assert!(is_known_desync_iso(hash));
        let mut queue = GameReporterQueue::new();
        let warning = run(&mut queue, Some(hash.to_string())).unwrap();
        assert_eq!(warning.color, Color::Red);
        assert_eq!(warning.duration, Duration::Custom(20000));
        assert_eq!(
            warning.text,
            "\n\nCAUTION: You are using an ISO that is known to cause desyncs"
        );
        assert_eq!(queue.iso_hash(), hash);
    }
}

#[test]
fn good_iso_is_recorded_without_warning() {
    let mut queue = GameReporterQueue::new();
    queue.add_report(report("r1", OnlinePlayMode::Ranked));
    assert!(!is_known_desync_iso("0e63d4223b01d9aba596259dc155a174"));
    assert!(!is_known_desync_iso("23D6BAEF06BD65989585096915DA20F2"));
    assert!(!is_known_desync_iso(""));
    assert!(run(&mut queue, Some("0e63d4223b01d9aba596259dc155a174".to_string())).is_none());
    assert_eq!(queue.iso_hash(), "0e63d4223b01d9aba596259dc155a174");
    assert!(run(&mut queue, Some("abc".to_string())).is_none());
    assert_eq!(queue.iso_hash(), "abc");
    assert_eq!(queue.len(), 1);
    let doc: serde_json::Value = serde_json::from_str(&queue.next_request()).unwrap();
    assert_eq!(doc["variables"]["report"]["isoHash"], serde_json::Value::from("abc"));
}

#[test]
fn failed_hashing_leaves_the_holder_alone() {
    let mut queue = GameReporterQueue::new();
    assert!(run(&mut queue, None).is_none());
    assert_eq!(queue.iso_hash(), "");
    queue.set_iso_hash("abc".to_string());
    assert!(run(&mut queue, None).is_none());
    assert_eq!(queue.iso_hash(), "abc");
}

#[test]
fn replay_container_is_exact() {
    assert_eq!(
        wrap_replay_data(&[0xAA, 0xBB, 0xCC]),
        vec![
            b'{', b'U', 3, b'r', b'a', b'w', b'[', b'$', b'U', b'#', b'l', 0, 0, 0, 3, 0xAA, 0xBB,
            0xCC, b'U', 8, b'm', b'e', b't', b'a', b'd', b'a', b't', b'a', b'{', b'}', b'}',
        ]
    );
    let empty = wrap_replay_data(&[]);
    assert_eq!(empty.len(), 28);
    assert_eq!(&empty[11..15], &[0, 0, 0, 0]);
}

#[test]
fn replay_container_writes_the_size_highest_byte_first() {
    let data = vec![7u8; 0x01_02_03];
    let contents = wrap_replay_data(&data);
    assert_eq!(contents.len(), data.len() + 28);
    assert_eq!(&contents[11..15], &[0x00, 0x01, 0x02, 0x03]);
    assert_eq!(&contents[15..15 + data.len()], &data[..]);
    assert_eq!(&contents[15 + data.len()..], b"U\x08metadata{}}");
}

#[test]
fn upload_is_a_gzip_stream_that_differs_from_its_input() {
    let data: Vec<u8> = (0..2000u32).map(|i| (i % 7) as u8).collect();
    let request = try_upload_replay_data(data.clone(), "u".to_string()).unwrap();
    assert_ne!(request.body, wrap_replay_data(&data));
    assert!(request.body.len() < data.len());
    assert_eq!(&request.body[..3], &[0x1f, 0x8b, 8]);
    let again = try_upload_replay_data(data, "u".to_string()).unwrap();
    assert_eq!(again.body, request.body);
}

#[test]
fn upload_request_carries_the_fixed_headers() {
    let request = upload_request(vec![1, 2, 3], "https://up/2".to_string());
    assert_eq!(request.url, "https://up/2");
    assert_eq!(request.content_type, "application/octet-stream");
    assert_eq!(request.content_encoding, "gzip");
    assert_eq!(request.content_length_range, "0,10000000");
    assert_eq!(request.body, vec![1, 2, 3]);
}

#[test]
fn upload_is_the_compressed_container() {
    let data = vec![1u8, 2, 3, 4, 5];
    let request = try_upload_replay_data(data.clone(), "https://up/1".to_string()).unwrap();
    assert_eq!(request.url, "https://up/1");
    assert_eq!(request.content_type, "application/octet-stream");
    assert_eq!(request.content_encoding, "gzip");
    assert_eq!(request.content_length_range, "0,10000000");
    let mut decoder = flate2::read::GzDecoder::new(&request.body[..]);
    let mut output = Vec::new();
    std::io::Read::read_to_end(&mut decoder, &mut output).unwrap();
    assert_eq!(output, wrap_replay_data(&data));
}

#[test]
fn worker_follows_its_events() {
    let idle = WorkerState::new();
    assert_eq!(idle, WorkerState::Idle);
    assert_eq!(idle.drain_event(), None);
    let draining = idle.on_receive(Some(ProcessingEvent::ReportAvailable));
    assert_eq!(draining, WorkerState::Draining);
    assert_eq!(draining.drain_event(), Some(ProcessingEvent::ReportAvailable));
    assert_eq!(draining.on_receive(Some(ProcessingEvent::ReportAvailable)), WorkerState::Draining);
    assert_eq!(draining.on_receive(None), WorkerState::Draining);
    assert_eq!(draining.on_pass_ended(), WorkerState::Idle);
    assert_eq!(idle.on_pass_ended(), WorkerState::Idle);
    assert!(!idle.is_terminated());
}

#[test]
fn worker_shuts_down_after_one_last_pass() {
    for state in [WorkerState::Idle, WorkerState::Draining] {
        let closing = state.on_receive(Some(ProcessingEvent::Shutdown));
        assert_eq!(closing, WorkerState::ShuttingDown);
        assert_eq!(closing.drain_event(), Some(ProcessingEvent::Shutdown));
        assert_eq!(closing.on_receive(Some(ProcessingEvent::ReportAvailable)), closing);
        assert_eq!(closing.on_receive(None), closing);
        let done = closing.on_pass_ended();
        assert_eq!(done, WorkerState::Terminated);
        assert!(done.is_terminated());
        assert_eq!(done.drain_event(), None);
        assert_eq!(done.on_receive(Some(ProcessingEvent::ReportAvailable)), done);
        assert_eq!(done.on_pass_ended(), done);
    }
}

#[test]
fn worker_ends_when_the_channel_closes() {
    assert_eq!(WorkerState::Idle.on_receive(None), WorkerState::Terminated);
}

#[test]
fn image_is_hashed_with_md5() {
    assert_eq!(IsoHasher::new().finish(), Some("d41d8cd98f00b204e9800998ecf8427e".to_string()));
    assert_eq!(
        IsoHasher::new().update(b"abc").finish(),
        Some("900150983cd24fb0d6963f7d28e17f72".to_string())
    );
    assert_eq!(
        IsoHasher::new().update(b"The quick brown fox jumps over the lazy dog").finish(),
        Some("9e107d9d372bb6826bd81d3542a419d6".to_string())
    );
}

#[test]
fn hash_does_not_depend_on_how_the_image_is_cut() {
    let image: Vec<u8> = (0..100_000u32).map(|i| (i * 31 % 251) as u8).collect();
    let whole = IsoHasher::new().update(&image).finish().unwrap();
    for size in [1usize, 63, 64, 65, 4096, 99_999] {
        let mut hasher = IsoHasher::new();
        for chunk in image.chunks(size) {
            hasher = hasher.update(chunk);
        }
        hasher = hasher.update(&[]);
        assert_eq!(hasher.finish().unwrap(), whole, "{}", size);
    }
    assert_ne!(IsoHasher::new().update(&image[1..]).finish().unwrap(), whole);
}

#[test]
fn hashed_image_is_recorded() {
    let mut queue = GameReporterQueue::new();
    let digest = IsoHasher::new().update(b"abc").finish();
    assert!(run(&mut queue, digest).is_none());
    assert_eq!(queue.iso_hash(), "900150983cd24fb0d6963f7d28e17f72");
    let mut queue = GameReporterQueue::new();
    let hasher = IsoHasher::new().update(b"a").update(b"b");
    assert!(record_iso_hash(&mut queue, hasher).is_none());
    assert_eq!(queue.iso_hash(), "187ef4436122d1cc2f40dc2b92f0eba0");
}
