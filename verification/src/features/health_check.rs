//! The verdict on a service's health endpoint.

use crate::json;
use crate::json::JsonModel;
use crate::text;
use vstd::prelude::*;

verus! {

pub const FIELD_STATUS: &'static str = "status";

pub const FIELD_SERVICE: &'static str = "service";

/// The status that a healthy service reports, in upper case.
pub const STATUS_UP: &'static str = "UP";

/// What a health endpoint answers.
#[derive(Debug, Clone, PartialEq, Eq)]
pub struct HealthResponse {
    pub status: String,
    pub service: Option<String>,
}

/// The mathematical content of a [`HealthResponse`].
pub struct HealthModel {
    pub status: Seq<char>,
    pub service: Option<Seq<char>>,
}

impl View for HealthResponse {
    type V = HealthModel;

    open spec fn view(&self) -> HealthModel {
        HealthModel {
            status: self.status@,
            service: text::optional_text(self.service),
        }
    }
}

/// The service that an answer names, from the value given for it: none for
/// null, the text for a string. Any other value is no service.
pub open spec fn service_of(given: JsonModel) -> Option<Option<Seq<char>>> {
    match given {
        JsonModel::Null => Some(None),
        JsonModel::Text(s) => Some(Some(s)),
        _ => None,
    }
}

/// The answer that a status and the value given for the service stand for.
pub open spec fn health_from(status: Option<Seq<char>>, service: Option<JsonModel>) -> Option<
    HealthModel,
> {
    match status {
        Some(status) => match service {
            None => Some(HealthModel { status, service: None }),
            Some(given) => match service_of(given) {
                Some(service) => Some(HealthModel { status, service }),
                None => None,
            },
        },
        None => None,
    }
}

/// The answer that a JSON document stands for. An object answers with its
/// members `status`, a string, and `service`, which may be absent. An array
/// answers with its elements in that order: the status, then, if there is a
/// second element, the service; an array of any other length is no answer.
pub open spec fn health_of_doc(doc: JsonModel) -> Option<HealthModel> {
    match doc {
        JsonModel::Array(items) => if items.len() == 1 {
            health_from(json::text_of(items[0]), None)
        } else if items.len() == 2 {
            health_from(json::text_of(items[0]), Some(items[1]))
        } else {
            None
        },
        _ => health_from(
            json::text_member(doc, FIELD_STATUS@),
            json::member_of(doc, FIELD_SERVICE@),
        ),
    }
}

/// The answer that a response body stands for.
pub open spec fn health_of(body: Seq<u8>) -> Option<HealthModel> {
    match json::json_parse_bytes(body) {
        Some(doc) => health_of_doc(doc),
        None => None,
    }
}

/// The content of an optional answer.
pub open spec fn health_option_view(r: Option<HealthResponse>) -> Option<HealthModel> {
    match r {
        Some(h) => Some(h@),
        None => None,
    }
}

/// An answer reports a healthy service when its status, in upper case, is
/// `UP`.
pub open spec fn reports_up(health: HealthModel) -> bool {
    text::uppercase(health.status) == STATUS_UP@
}

fn text_of_value(value: &serde_json::Value) -> (r: Option<String>)
    ensures
        text::optional_text(r) == json::text_of(json::json_model(*value)),
{
    match json::string(value) {
        Some(s) => Some(text::owned(s)),
        None => None,
    }
}

/// What a value given for the service holds.
pub open spec fn given_model(service: Option<&serde_json::Value>) -> Option<JsonModel> {
    match service {
        Some(v) => Some(json::json_model(*v)),
        None => None,
    }
}

fn answer(status: Option<String>, service: Option<&serde_json::Value>) -> (r: Option<
    HealthResponse,
>)
    ensures
        health_option_view(r) == health_from(text::optional_text(status), given_model(service)),
{
    let status = match status {
        Some(status) => status,
        None => {
            return None;
        },
    };
    let service = match service {
        None => None,
        Some(given) => if json::is_null(given) {
            None
        } else {
            match json::string(given) {
                Some(s) => Some(text::owned(s)),
                None => {
                    return None;
                },
            }
        },
    };
    Some(HealthResponse { status, service })
}

impl HealthResponse {
    /// Reads a response body as an answer.
    pub fn parse(body: &[u8]) -> (r: Option<HealthResponse>)
        ensures
            health_option_view(r) == health_of(body@),
    {
        let doc = match json::parse_bytes(body) {
            Ok(doc) => doc,
            Err(_) => {
                return None;
            },
        };
        match json::elements(&doc) {
            Some(items) => {
                if items.len() == 1 {
                    assert(json::models(items@)[0] == json::json_model(items@[0]));
                    answer(text_of_value(&items[0]), None)
                } else if items.len() == 2 {
                    assert(json::models(items@)[0] == json::json_model(items@[0]));
                    assert(json::models(items@)[1] == json::json_model(items@[1]));
                    answer(text_of_value(&items[0]), Some(&items[1]))
                } else {
                    None
                }
            },
            None => answer(
                json::member_text(&doc, FIELD_STATUS),
                json::member(&doc, FIELD_SERVICE),
            ),
        }
    }

    /// Whether the answer reports a healthy service.
    pub fn is_up(&self) -> (r: bool)
        ensures
            r == reports_up(self@),
    {
        let upper = text::to_uppercase(self.status.as_str());
        text::same(upper.as_str(), STATUS_UP)
    }
}

/// What came of asking a health endpoint.
#[derive(Debug, Clone, PartialEq, Eq)]
pub enum ProbeOutcome {
    /// No response arrived.
    Unreachable,
    /// A response arrived. `success` says whether its status code was a
    /// success; the body is absent where it could not be read.
    Answered { success: bool, body: Option<Vec<u8>> },
}

/// The verdict on a probe: an endpoint that did not respond is unhealthy; a
/// response whose body is a health answer is judged by that answer; any
/// other response is judged by its status code.
pub open spec fn healthy(outcome: ProbeOutcome) -> bool {
    match outcome {
        ProbeOutcome::Unreachable => false,
        ProbeOutcome::Answered { success, body: None } => success,
        ProbeOutcome::Answered { success, body: Some(bytes) } => match health_of(bytes@) {
            Some(health) => reports_up(health),
            None => success,
        },
    }
}

/// The verdict on a probe of a health endpoint.
pub fn check_http_health(outcome: &ProbeOutcome) -> (r: bool)
    ensures
        r == healthy(*outcome),
{
    match outcome {
        ProbeOutcome::Unreachable => false,
        ProbeOutcome::Answered { success, body: None } => *success,
        ProbeOutcome::Answered { success, body: Some(bytes) } => {
            match HealthResponse::parse(bytes.as_slice()) {
                Some(health) => health.is_up(),
                None => *success,
            }
        },
    }
}

} // verus!
