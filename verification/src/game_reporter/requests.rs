//! The requests that the game reporter posts, and the reading of what comes
//! back for them.

use vstd::prelude::*;
use crate::game_reporter::graphql::{
    graphql_outcome, graphql_request_body, graphql_request_text, graphql_response_data,
    has_graphql_errors, read_report_response, report_response, selected_data, sent_view,
    ReportSendErrorKind, SendFailure,
};
use crate::game_reporter::queue::GameReporterQueue;
use crate::game_reporter::types::{
    payload_members, player_texts, GameReport, GameReportRequestPayload,
};
use crate::json::{
    json_array_text, json_object, json_object_text, json_string, json_string_text, json_text,
    json_unsigned, member_texts, parsed_json,
};
use crate::text::{decimal, signed_decimal};

verus! {

/// The mutation that saves a game report.
pub const REPORT_MUTATION: &'static str = r#"
        mutation ($report: OnlineGameReportInput!) {
            reportOnlineGame (report: $report) {
                success
                uploadUrl
            }
        }
    "#;

/// The mutation that marks a match as completed.
pub const COMPLETION_MUTATION: &'static str = r#"
            mutation ($report: OnlineGameCompleteInput!) {
                completeOnlineGame (report: $report)
            }
        "#;

/// The mutation that marks a match as abandoned.
pub const ABANDONMENT_MUTATION: &'static str = r#"
            mutation ($report: OnlineGameAbandonInput!) {
                abandonOnlineGame (report: $report)
            }
        "#;

/// The compact text of the request that sends `report`.
pub open spec fn report_request_text(report: GameReport, iso_hash: Seq<char>) -> Seq<char> {
    graphql_request_text(
        REPORT_MUTATION@,
        Some(
            json_object_text(
                seq![("report"@, json_object_text(report_members(report, iso_hash)))],
            ),
        ),
    )
}

/// The members of the JSON object that `report` is posted as.
pub open spec fn report_members(report: GameReport, iso_hash: Seq<char>) -> Seq<
    (Seq<char>, Seq<char>),
> {
    seq![
        ("fbUid"@, json_string_text(report.uid@)),
        ("mode"@, decimal(report.online_mode.code() as nat)),
        (
            "players"@,
            json_array_text(player_texts(report.players@)),
        ),
        ("isoHash"@, json_string_text(iso_hash)),
        ("matchId"@, json_string_text(report.match_id@)),
        ("playKey"@, json_string_text(report.play_key@)),
        ("gameDurationFrames"@, decimal(report.duration_frames as nat)),
        ("gameIndex"@, decimal(report.game_index as nat)),
        ("tiebreakIndex"@, decimal(report.tie_break_index as nat)),
        ("winnerIdx"@, signed_decimal(report.winner_index as int)),
        ("gameEndMethod"@, decimal(report.game_end_method as nat)),
        ("lrasInitiator"@, signed_decimal(report.lras_initiator as int)),
        ("stageId"@, signed_decimal(report.stage_id as int)),
    ]
}

/// Builds the body of the request that sends `report`.
pub fn report_request_body(report: &GameReport, iso_hash: &str) -> (body: String)
    ensures
        body@ == report_request_text(*report, iso_hash@),
{
    let payload = GameReportRequestPayload::with(report, iso_hash);
    let payload_json = payload.to_json();
    assert(payload_members(payload) =~= report_members(*report, iso_hash@));
    let mut entries: Vec<(String, serde_json::Value)> = Vec::new();
    entries.push((String::from_str("report"), payload_json));
    assert(member_texts(entries@) =~= seq![
        ("report"@, json_object_text(report_members(*report, iso_hash@))),
    ]);
    let variables = json_object(entries);
    graphql_request_body(REPORT_MUTATION, Some(variables))
}

/// What a send of a report comes to, given what came back for it: where the
/// replay is to be uploaded, if anywhere, or why the send failed.
///
/// The send has succeeded only where the response holds no errors and the
/// answer in it says so.
pub open spec fn report_outcome(sent: Result<Seq<char>, Seq<char>>) -> Result<
    Option<Seq<char>>,
    SendFailure,
> {
    match graphql_outcome(sent, Some("reportOnlineGame"@)) {
        Err(failure) => Err(failure),
        Ok(body) => match report_response(body) {
            None => Err(SendFailure::Json),
            Some((success, target)) => if success {
                Ok(target)
            } else {
                Err(SendFailure::NotSuccessful(body))
            },
        },
    }
}

/// A send is never taken for a success where the server says otherwise:
/// not where the response holds a non-empty array of errors, whatever else
/// it holds, and not where the answer in it says that the report was not
/// accepted.
pub proof fn lemma_server_failure_is_never_success(text: Seq<char>, doc: Seq<char>)
    requires
        parsed_json(text) == Some(doc),
    ensures
        has_graphql_errors(doc) ==> report_outcome(Ok(text)).is_err(),
        (selected_data(doc, Some("reportOnlineGame"@)) matches Some(body) && (report_response(body)
            matches Some(answer) && !answer.0)) ==> report_outcome(Ok(text)).is_err(),
{
}

/// A send that got no response, or one that cannot be read, has failed.
pub proof fn lemma_no_answer_is_a_failure(sent: Result<Seq<char>, Seq<char>>)
    ensures
        sent matches Err(message) ==> report_outcome(sent) == Err::<Option<Seq<char>>, SendFailure>(
            SendFailure::Net(message),
        ),
        (sent matches Ok(text) && parsed_json(text).is_none()) ==> report_outcome(sent) == Err::<
            Option<Seq<char>>,
            SendFailure,
        >(SendFailure::Json),
{
}

/// A send has succeeded only where the response could be read, holds no
/// errors, and the answer in it says that the report was accepted.
pub proof fn lemma_success_is_confirmed(text: Seq<char>, target: Option<Seq<char>>)
    requires
        report_outcome(Ok(text)) == Ok::<Option<Seq<char>>, SendFailure>(target),
    ensures
        parsed_json(text) matches Some(doc) && (!has_graphql_errors(doc) && (selected_data(
            doc,
            Some("reportOnlineGame"@),
        ) matches Some(body) && report_response(body) == Some((true, target)))),
{
}

/// The outcome of a send as contracts speak of it.
pub open spec fn outcome_view(outcome: Result<Option<String>, ReportSendErrorKind>) -> Result<
    Option<Seq<char>>,
    SendFailure,
> {
    match outcome {
        Ok(Some(url)) => Ok(Some(url@)),
        Ok(None) => Ok(None),
        Err(kind) => Err(kind@),
    }
}

/// Reads what came back for a send of a report.
pub fn read_report_outcome(sent: Result<String, String>) -> (outcome: Result<
    Option<String>,
    ReportSendErrorKind,
>)
    ensures
        outcome_view(outcome) == report_outcome(sent_view(sent)),
{
    let body = match graphql_response_data(sent, Some("reportOnlineGame")) {
        Ok(body) => body,
        Err(kind) => {
            return Err(kind);
        },
    };
    let response = match read_report_response(body.as_str()) {
        Ok(response) => response,
        Err(kind) => {
            return Err(kind);
        },
    };
    if !response.success {
        return Err(ReportSendErrorKind::NotSuccessful(body));
    }
    Ok(response.upload_url)
}

/// The compact text of the request that marks the match `match_id` as
/// completed.
pub open spec fn completion_request_text(
    uid: Seq<char>,
    play_key: Seq<char>,
    match_id: Seq<char>,
    end_mode: u8,
) -> Seq<char> {
    graphql_request_text(
        COMPLETION_MUTATION@,
        Some(
            json_object_text(
                seq![
                    (
                        "report"@,
                        json_object_text(
                            seq![
                                ("matchId"@, json_string_text(match_id)),
                                ("fbUid"@, json_string_text(uid)),
                                ("playKey"@, json_string_text(play_key)),
                                ("endMode"@, decimal(end_mode as nat)),
                            ],
                        ),
                    ),
                ],
            ),
        ),
    )
}

/// The compact text of the request that marks the match `match_id` as
/// abandoned.
pub open spec fn abandonment_request_text(
    uid: Seq<char>,
    play_key: Seq<char>,
    match_id: Seq<char>,
) -> Seq<char> {
    graphql_request_text(
        ABANDONMENT_MUTATION@,
        Some(
            json_object_text(
                seq![
                    (
                        "report"@,
                        json_object_text(
                            seq![
                                ("matchId"@, json_string_text(match_id)),
                                ("fbUid"@, json_string_text(uid)),
                                ("playKey"@, json_string_text(play_key)),
                            ],
                        ),
                    ),
                ],
            ),
        ),
    )
}

/// What a request to complete or abandon a match comes to, given what came
/// back for it: the server confirms with `true` in the member `field`, and
/// any other answer is a failure that carries the answer.
pub open spec fn confirmation_outcome(sent: Result<Seq<char>, Seq<char>>, field: Seq<char>) -> Result<
    (),
    SendFailure,
> {
    match graphql_outcome(sent, Some(field)) {
        Err(failure) => Err(failure),
        Ok(answer) => if answer == "true"@ {
            Ok(())
        } else {
            Err(SendFailure::NotSuccessful(answer))
        },
    }
}

/// The result of a request to complete or abandon a match as contracts speak
/// of it.
pub open spec fn confirmation_view(r: Result<(), ReportSendErrorKind>) -> Result<(), SendFailure> {
    match r {
        Ok(_) => Ok(()),
        Err(kind) => Err(kind@),
    }
}

/// Reads what came back for a request that the server confirms in the member
/// `field` of its answer.
pub fn read_confirmation(sent: Result<String, String>, field: &str) -> (r: Result<
    (),
    ReportSendErrorKind,
>)
    ensures
        confirmation_view(r) == confirmation_outcome(sent_view(sent), field@),
{
    match graphql_response_data(sent, Some(field)) {
        Ok(answer) => {
            if answer == String::from_str("true") {
                Ok(())
            } else {
                Err(ReportSendErrorKind::NotSuccessful(answer))
            }
        },
        Err(kind) => Err(kind),
    }
}

impl GameReporterQueue {
    /// Report a completed match: the body of the request to post. It is sent
    /// at once and never queued.
    pub fn report_completion(
        &self,
        uid: String,
        play_key: String,
        match_id: String,
        end_mode: u8,
    ) -> (body: String)
        ensures
            body@ == completion_request_text(uid@, play_key@, match_id@, end_mode),
    {
        let mut report: Vec<(String, serde_json::Value)> = Vec::new();
        report.push((String::from_str("matchId"), json_string(match_id.as_str())));
        report.push((String::from_str("fbUid"), json_string(uid.as_str())));
        report.push((String::from_str("playKey"), json_string(play_key.as_str())));
        report.push((String::from_str("endMode"), json_unsigned(end_mode as u64)));
        assert(member_texts(report@) =~= seq![
            ("matchId"@, json_string_text(match_id@)),
            ("fbUid"@, json_string_text(uid@)),
            ("playKey"@, json_string_text(play_key@)),
            ("endMode"@, decimal(end_mode as nat)),
        ]);
        let report_json = json_object(report);
        let mut entries: Vec<(String, serde_json::Value)> = Vec::new();
        entries.push((String::from_str("report"), report_json));
        assert(member_texts(entries@) =~= seq![("report"@, json_text(report_json))]);
        graphql_request_body(COMPLETION_MUTATION, Some(json_object(entries)))
    }

    /// Whether the server confirmed that the match is completed, given what
    /// came back for the request.
    pub fn completion_result(sent: Result<String, String>) -> (r: Result<(), ReportSendErrorKind>)
        ensures
            confirmation_view(r) == confirmation_outcome(sent_view(sent), "completeOnlineGame"@),
    {
        read_confirmation(sent, "completeOnlineGame")
    }

    /// Report an abandoned match: the body of the request to post. It is sent
    /// at once and never queued.
    pub fn report_abandonment(&self, uid: String, play_key: String, match_id: String) -> (body:
        String)
        ensures
            body@ == abandonment_request_text(uid@, play_key@, match_id@),
    {
        let mut report: Vec<(String, serde_json::Value)> = Vec::new();
        report.push((String::from_str("matchId"), json_string(match_id.as_str())));
        report.push((String::from_str("fbUid"), json_string(uid.as_str())));
        report.push((String::from_str("playKey"), json_string(play_key.as_str())));
        assert(member_texts(report@) =~= seq![
            ("matchId"@, json_string_text(match_id@)),
            ("fbUid"@, json_string_text(uid@)),
            ("playKey"@, json_string_text(play_key@)),
        ]);
        let report_json = json_object(report);
        let mut entries: Vec<(String, serde_json::Value)> = Vec::new();
        entries.push((String::from_str("report"), report_json));
        assert(member_texts(entries@) =~= seq![("report"@, json_text(report_json))]);
        graphql_request_body(ABANDONMENT_MUTATION, Some(json_object(entries)))
    }

    /// Whether the server confirmed that the match is abandoned, given what
    /// came back for the request.
    pub fn abandonment_result(sent: Result<String, String>) -> (r: Result<(), ReportSendErrorKind>)
        ensures
            confirmation_view(r) == confirmation_outcome(sent_view(sent), "abandonOnlineGame"@),
    {
        read_confirmation(sent, "abandonOnlineGame")
    }
}

} // verus!
