//! The remote protocol: one endpoint that takes named mutations as JSON and
//! answers with JSON that is split into `data` and `errors`.

use vstd::prelude::*;
use crate::json::{
    json_array_len, json_array_length, json_as_string, json_error_message, json_get,
    json_member, json_object, json_object_text, json_parse, json_pretty_text, json_string,
    json_string_content, json_string_text, json_text, json_to_string, json_to_string_pretty,
    member_texts, parsed_json,
};

verus! {

/// The endpoint that every request is posted to.
pub const GRAPHQL_URL: &'static str = "https://gql-gateway-dev-dot-slippi.uc.r.appspot.com/graphql";

/// What is reported when a response holds no `data`.
pub const NO_DATA_MESSAGE: &'static str = "No 'data' field in the GraphQL response.";

/// Why a request did not succeed.
#[derive(Debug)]
pub enum ReportSendErrorKind {
    /// The request could not be delivered, or no response came back; the
    /// transport's description of what went wrong.
    Net(String),
    /// The response could not be understood; a description of what was found.
    JSON(String),
    /// The server answered with errors, or without data.
    GraphQL(String),
    /// The server understood the request and reported that it failed; the
    /// server's answer.
    NotSuccessful(String),
}

/// The kinds of failure as contracts speak of them. The wording of a
/// description of a response that could not be understood is left open.
pub enum SendFailure {
    Net(Seq<char>),
    Json,
    GraphQL(Seq<char>),
    NotSuccessful(Seq<char>),
}

impl View for ReportSendErrorKind {
    type V = SendFailure;

    open spec fn view(&self) -> SendFailure {
        match self {
            ReportSendErrorKind::Net(message) => SendFailure::Net(message@),
            ReportSendErrorKind::JSON(_) => SendFailure::Json,
            ReportSendErrorKind::GraphQL(message) => SendFailure::GraphQL(message@),
            ReportSendErrorKind::NotSuccessful(answer) => SendFailure::NotSuccessful(answer@),
        }
    }
}

/// What came back for a request: the text of the response, or the
/// transport's description of why there is none.
pub open spec fn sent_view(sent: Result<String, String>) -> Result<Seq<char>, Seq<char>> {
    match sent {
        Ok(text) => Ok(text@),
        Err(message) => Err(message@),
    }
}

/// A field's name as contracts speak of it.
pub open spec fn field_view(field: Option<&str>) -> Option<Seq<char>> {
    match field {
        Some(name) => Some(name@),
        None => None,
    }
}

/// The result of reading a response as contracts speak of it.
pub open spec fn data_view(r: Result<String, ReportSendErrorKind>) -> Result<
    Seq<char>,
    SendFailure,
> {
    match r {
        Ok(text) => Ok(text@),
        Err(kind) => Err(kind@),
    }
}

/// The compact text of a request: a JSON object with the query and, where
/// there are any, the variables.
pub open spec fn graphql_request_text(query: Seq<char>, variables: Option<Seq<char>>) -> Seq<
    char,
> {
    match variables {
        Some(vars) => json_object_text(
            seq![("query"@, json_string_text(query)), ("variables"@, vars)],
        ),
        None => json_object_text(seq![("query"@, json_string_text(query))]),
    }
}

/// Whether the response `doc` has a member `errors` that is an array with at
/// least one element.
pub open spec fn has_graphql_errors(doc: Seq<char>) -> bool {
    match json_member(doc, "errors"@) {
        Some(errors) => match json_array_length(errors) {
            Some(n) => n > 0,
            None => false,
        },
        None => false,
    }
}

/// The part of the response `doc` that answers the request: of its member
/// `data` the member `field` where one is asked for and there, else all of
/// `data`. `None` where the response has no `data`.
pub open spec fn selected_data(doc: Seq<char>, field: Option<Seq<char>>) -> Option<Seq<char>> {
    match json_member(doc, "data"@) {
        None => None,
        Some(data) => Some(
            match field {
                Some(name) => match json_member(data, name) {
                    Some(member) => member,
                    None => data,
                },
                None => data,
            },
        ),
    }
}

/// What a request comes to, given what came back for it.
///
/// A response with a non-empty array of errors is a failure whatever else it
/// holds.
pub open spec fn graphql_outcome(
    sent: Result<Seq<char>, Seq<char>>,
    field: Option<Seq<char>>,
) -> Result<Seq<char>, SendFailure> {
    match sent {
        Err(message) => Err(SendFailure::Net(message)),
        Ok(text) => match parsed_json(text) {
            None => Err(SendFailure::Json),
            Some(doc) => if has_graphql_errors(doc) {
                Err(SendFailure::GraphQL(json_pretty_text(json_member(doc, "errors"@).unwrap())))
            } else {
                match selected_data(doc, field) {
                    Some(data) => Ok(data),
                    None => Err(SendFailure::GraphQL(NO_DATA_MESSAGE@)),
                }
            },
        },
    }
}

/// Prepares the body of a GraphQL request.
pub fn graphql_request_body(query: &str, variables: Option<serde_json::Value>) -> (body: String)
    ensures
        body@ == graphql_request_text(
            query@,
            match variables {
                Some(vars) => Some(json_text(vars)),
                None => None,
            },
        ),
{
    let mut entries: Vec<(String, serde_json::Value)> = Vec::new();
    entries.push((String::from_str("query"), json_string(query)));
    match variables {
        Some(vars) => {
            entries.push((String::from_str("variables"), vars));
            assert(member_texts(entries@) =~= seq![
                ("query"@, json_string_text(query@)),
                ("variables"@, json_text(vars)),
            ]);
        },
        None => {
            assert(member_texts(entries@) =~= seq![("query"@, json_string_text(query@))]);
        },
    }
    let request = json_object(entries);
    json_to_string(&request)
}

/// Reads what came back for a GraphQL request and returns the data that
/// answers it, as compact JSON text.
pub fn graphql_response_data(sent: Result<String, String>, field: Option<&str>) -> (r: Result<
    String,
    ReportSendErrorKind,
>)
    ensures
        data_view(r) == graphql_outcome(sent_view(sent), field_view(field)),
{
    let text = match sent {
        Ok(text) => text,
        Err(message) => {
            return Err(ReportSendErrorKind::Net(message));
        },
    };
    let response_json = match json_parse(text.as_str()) {
        Ok(value) => value,
        Err(error) => {
            return Err(ReportSendErrorKind::JSON(json_error_message(&error)));
        },
    };
    if let Some(errors) = json_get(&response_json, "errors") {
        if let Some(count) = json_array_len(errors) {
            if count > 0 {
                return Err(ReportSendErrorKind::GraphQL(json_to_string_pretty(errors)));
            }
        }
    }
    match json_get(&response_json, "data") {
        Some(data) => {
            let result = match field {
                Some(name) => match json_get(data, name) {
                    Some(member) => member,
                    None => data,
                },
                None => data,
            };
            Ok(json_to_string(result))
        },
        None => Err(ReportSendErrorKind::GraphQL(String::from_str(NO_DATA_MESSAGE))),
    }
}

/// Expected response payload when saving a report to the server.
#[derive(Debug)]
pub struct ReportResponse {
    pub success: bool,
    pub upload_url: Option<String>,
}

/// The answer to a saved report that the JSON text `body` holds: whether the
/// report was accepted, and where the replay is to be uploaded, if anywhere.
///
/// The answer is a JSON object. Its member `success` is `true` or `false`.
/// Its member `uploadUrl` is a string, or is `null` or left out where there is
/// nothing to upload. `None` where `body` is anything else.
pub open spec fn report_response(body: Seq<char>) -> Option<(bool, Option<Seq<char>>)> {
    match parsed_json(body) {
        None => None,
        Some(doc) => match json_member(doc, "success"@) {
            None => None,
            Some(success) => if success != "true"@ && success != "false"@ {
                None
            } else {
                match json_member(doc, "uploadUrl"@) {
                    None => Some((success == "true"@, None)),
                    Some(url) => if url == "null"@ {
                        Some((success == "true"@, None))
                    } else {
                        match json_string_content(url) {
                            Some(target) => Some((success == "true"@, Some(target))),
                            None => None,
                        }
                    },
                }
            },
        },
    }
}

/// What `response` holds as contracts speak of it.
pub open spec fn response_view(response: ReportResponse) -> (bool, Option<Seq<char>>) {
    (
        response.success,
        match response.upload_url {
            Some(url) => Some(url@),
            None => None,
        },
    )
}

/// Reads the answer to a saved report.
pub fn read_report_response(body: &str) -> (r: Result<ReportResponse, ReportSendErrorKind>)
    ensures
        match r {
            Ok(response) => report_response(body@) == Some(response_view(response)),
            Err(kind) => report_response(body@).is_none() && kind@ == SendFailure::Json,
        },
{
    let doc = match json_parse(body) {
        Ok(value) => value,
        Err(error) => {
            return Err(ReportSendErrorKind::JSON(json_error_message(&error)));
        },
    };
    let success = match json_get(&doc, "success") {
        Some(flag) => {
            let flag_text = json_to_string(flag);
            if flag_text == String::from_str("true") {
                true
            } else if flag_text == String::from_str("false") {
                false
            } else {
                return Err(
                    ReportSendErrorKind::JSON(String::from_str("`success` is not a boolean")),
                );
            }
        },
        None => {
            return Err(ReportSendErrorKind::JSON(String::from_str("missing field `success`")));
        },
    };
    let upload_url = match json_get(&doc, "uploadUrl") {
        None => None,
        Some(url) => {
            if json_to_string(url) == String::from_str("null") {
                None
            } else {
                match json_as_string(url) {
                    Some(target) => Some(target),
                    None => {
                        return Err(
                            ReportSendErrorKind::JSON(
                                String::from_str("`uploadUrl` is not a string"),
                            ),
                        );
                    },
                }
            }
        },
    };
    Ok(ReportResponse { success, upload_url })
}

} // verus!
