//! Evaluator clients: the request that each sends and how each reads a reply.
//!
//! A client makes no call itself. It says which request to send, with the
//! parameters validated, and it classifies what came back.

use vstd::prelude::*;
use crate::json::{
    json_quoted, json_shape, member_in, parameter_in, quote, read_member, read_parameter, JsonShape,
    JsonShapeView, Member, MemberView,
};
use crate::policy::registry::ClientKind;
use crate::text::{optional_view, owned, texts};

verus! {

/// How the engine reaches the remote evaluators and how patient it is.
pub struct EngineSettings {
    /// Base address of the evaluation service, without a trailing slash.
    pub api_url: String,
    /// Time allowed for one call, in milliseconds.
    pub timeout_ms: u64,
    /// How many calls may be under way at once. Zero counts as one.
    pub max_in_flight: usize,
    /// Whether a call that found the remote side unavailable is made once more.
    pub retry_unavailable: bool,
    /// Pause before that second call, in milliseconds.
    pub backoff_ms: u64,
}

/// The settings as plain values.
pub struct EngineSettingsView {
    pub api_url: Seq<char>,
    pub timeout_ms: u64,
    pub max_in_flight: usize,
    pub retry_unavailable: bool,
    pub backoff_ms: u64,
}

impl View for EngineSettings {
    type V = EngineSettingsView;

    open spec fn view(&self) -> EngineSettingsView {
        EngineSettingsView {
            api_url: self.api_url@,
            timeout_ms: self.timeout_ms,
            max_in_flight: self.max_in_flight,
            retry_unavailable: self.retry_unavailable,
            backoff_ms: self.backoff_ms,
        }
    }
}

/// The settings used where the caller gives none.
pub open spec fn standard_settings() -> EngineSettingsView {
    EngineSettingsView {
        api_url: "http://localhost:8080"@,
        timeout_ms: 10_000,
        max_in_flight: 4,
        retry_unavailable: true,
        backoff_ms: 250,
    }
}

impl EngineSettings {
    /// A local service, ten seconds per call, four calls at once, one retry
    /// after a quarter of a second.
    pub fn standard() -> (r: EngineSettings)
        ensures
            r@ == standard_settings(),
    {
        EngineSettings {
            api_url: owned("http://localhost:8080"),
            timeout_ms: 10_000,
            max_in_flight: 4,
            retry_unavailable: true,
            backoff_ms: 250,
        }
    }
}

/// One call to a remote evaluator: where to post and what the body holds.
pub struct EvaluationRequest {
    pub url: String,
    pub input_text: String,
    pub expected_output: String,
    pub actual_output: String,
    pub check_type: String,
    pub threshold_name: String,
    /// The threshold as the text of a JSON number.
    pub threshold: String,
    pub timeout_ms: u64,
}

/// A request as plain values.
pub struct EvaluationRequestView {
    pub url: Seq<char>,
    pub input_text: Seq<char>,
    pub expected_output: Seq<char>,
    pub actual_output: Seq<char>,
    pub check_type: Seq<char>,
    pub threshold_name: Seq<char>,
    pub threshold: Seq<char>,
    pub timeout_ms: u64,
}

impl View for EvaluationRequest {
    type V = EvaluationRequestView;

    open spec fn view(&self) -> EvaluationRequestView {
        EvaluationRequestView {
            url: self.url@,
            input_text: self.input_text@,
            expected_output: self.expected_output@,
            actual_output: self.actual_output@,
            check_type: self.check_type@,
            threshold_name: self.threshold_name@,
            threshold: self.threshold@,
            timeout_ms: self.timeout_ms,
        }
    }
}

/// The threshold used when a condition declares none: 0.5 for content
/// safety, 0.1 for keywords.
pub open spec fn default_threshold(kind: ClientKind) -> Seq<char> {
    match kind {
        ClientKind::ContentSafety => "0.5"@,
        ClientKind::KeywordFilter => "0.1"@,
    }
}

/// The threshold that a client takes from what a condition's parameters
/// hold under `threshold`: the number, the client's default where there
/// is no such entry, and nothing where there is one that is no number or
/// where the parameters cannot be read.
pub open spec fn threshold_from(kind: ClientKind, declared: MemberView) -> Option<Seq<char>> {
    match declared {
        MemberView::Absent => Some(default_threshold(kind)),
        MemberView::Present(JsonShapeView::Number(text)) => Some(text),
        _ => None,
    }
}

/// The threshold that a condition's parameters ask for.
pub open spec fn threshold_of(kind: ClientKind, parameters: Seq<char>) -> Option<Seq<char>> {
    threshold_from(kind, parameter_in(parameters, "threshold"@))
}

/// Path of the client's endpoint below the service's base address.
pub open spec fn endpoint(kind: ClientKind) -> Seq<char> {
    match kind {
        ClientKind::ContentSafety => "/evaluate/content_safety"@,
        ClientKind::KeywordFilter => "/evaluate/keyword_filter"@,
    }
}

/// The request that a client sends for `content`.
pub open spec fn request_for(
    kind: ClientKind,
    settings: EngineSettingsView,
    content: Seq<char>,
    threshold: Seq<char>,
) -> EvaluationRequestView {
    EvaluationRequestView {
        url: settings.api_url + endpoint(kind),
        input_text: content,
        expected_output: match kind {
            ClientKind::ContentSafety => "non-toxic content"@,
            ClientKind::KeywordFilter => "content without banned keywords"@,
        },
        actual_output: content,
        check_type: match kind {
            ClientKind::ContentSafety => "toxicity"@,
            ClientKind::KeywordFilter => "keywords"@,
        },
        threshold_name: match kind {
            ClientKind::ContentSafety => "toxicity_threshold"@,
            ClientKind::KeywordFilter => "keyword_threshold"@,
        },
        threshold,
        timeout_ms: settings.timeout_ms,
    }
}

/// Picks a client's threshold, given what the parameters hold under
/// `threshold`.
pub fn pick_threshold(kind: ClientKind, declared: Member) -> (r: Option<String>)
    ensures
        optional_view(r) == threshold_from(kind, declared@),
{
    match declared {
        Member::Absent => match kind {
            ClientKind::ContentSafety => Some(owned("0.5")),
            ClientKind::KeywordFilter => Some(owned("0.1")),
        },
        Member::Present(JsonShape::Number(text)) => Some(text),
        _ => None,
    }
}

/// Validates a condition's parameters for a client.
pub fn read_threshold(kind: ClientKind, parameters: &str) -> (r: Option<String>)
    ensures
        optional_view(r) == threshold_of(kind, parameters@),
{
    pick_threshold(kind, read_parameter(parameters, "threshold"))
}

/// Builds the request that a client sends for `content`. Empty content is
/// content like any other.
pub fn build_request(kind: ClientKind, settings: &EngineSettings, content: &str, threshold: String) -> (r:
    EvaluationRequest)
    ensures
        r@ == request_for(kind, settings@, content@, threshold@),
{
    let mut url = settings.api_url.clone();
    match kind {
        ClientKind::ContentSafety => {
            url.append("/evaluate/content_safety");
            EvaluationRequest {
                url,
                input_text: owned(content),
                expected_output: owned("non-toxic content"),
                actual_output: owned(content),
                check_type: owned("toxicity"),
                threshold_name: owned("toxicity_threshold"),
                threshold,
                timeout_ms: settings.timeout_ms,
            }
        },
        ClientKind::KeywordFilter => {
            url.append("/evaluate/keyword_filter");
            EvaluationRequest {
                url,
                input_text: owned(content),
                expected_output: owned("content without banned keywords"),
                actual_output: owned(content),
                check_type: owned("keywords"),
                threshold_name: owned("keyword_threshold"),
                threshold,
                timeout_ms: settings.timeout_ms,
            }
        },
    }
}

/// The JSON text of a request body, given the string literal for each of
/// its five strings.
pub open spec fn framed_body(
    input_text: Seq<char>,
    expected_output: Seq<char>,
    actual_output: Seq<char>,
    check_type: Seq<char>,
    threshold_name: Seq<char>,
    threshold: Seq<char>,
) -> Seq<char> {
    "{\"input_text\":"@ + input_text + ",\"expected_output\":"@ + expected_output
        + ",\"actual_output\":"@ + actual_output + ",\"metadata\":{\"check_type\":"@ + check_type
        + ","@ + threshold_name + ":"@ + threshold + "}}"@
}

/// The JSON text of a request's body: the object with `input_text`,
/// `expected_output`, `actual_output` and `metadata`, the last with
/// `check_type` and the threshold under its name. `None` where one of the
/// strings cannot be written as JSON.
pub open spec fn body_of(request: EvaluationRequestView) -> Option<Seq<char>> {
    if json_quoted(request.input_text) is Some && json_quoted(request.expected_output) is Some
        && json_quoted(request.actual_output) is Some && json_quoted(request.check_type) is Some
        && json_quoted(request.threshold_name) is Some {
        Some(
            framed_body(
                json_quoted(request.input_text).unwrap(),
                json_quoted(request.expected_output).unwrap(),
                json_quoted(request.actual_output).unwrap(),
                json_quoted(request.check_type).unwrap(),
                json_quoted(request.threshold_name).unwrap(),
                request.threshold,
            ),
        )
    } else {
        None
    }
}

/// Puts a request body together from the string literals of its strings.
pub fn frame_body(
    input_text: &str,
    expected_output: &str,
    actual_output: &str,
    check_type: &str,
    threshold_name: &str,
    threshold: &str,
) -> (r: String)
    ensures
        r@ == framed_body(
            input_text@,
            expected_output@,
            actual_output@,
            check_type@,
            threshold_name@,
            threshold@,
        ),
{
    let mut out = owned("{\"input_text\":");
    out.append(input_text);
    out.append(",\"expected_output\":");
    out.append(expected_output);
    out.append(",\"actual_output\":");
    out.append(actual_output);
    out.append(",\"metadata\":{\"check_type\":");
    out.append(check_type);
    out.append(",");
    out.append(threshold_name);
    out.append(":");
    out.append(threshold);
    out.append("}}");
    out
}

impl EvaluationRequest {
    /// The body to post, as JSON text.
    pub fn body(&self) -> (r: Option<String>)
        ensures
            optional_view(r) == body_of(self@),
    {
        let input_text = match quote(self.input_text.as_str()) {
            Some(q) => q,
            None => { return None; },
        };
        let expected_output = match quote(self.expected_output.as_str()) {
            Some(q) => q,
            None => { return None; },
        };
        let actual_output = match quote(self.actual_output.as_str()) {
            Some(q) => q,
            None => { return None; },
        };
        let check_type = match quote(self.check_type.as_str()) {
            Some(q) => q,
            None => { return None; },
        };
        let threshold_name = match quote(self.threshold_name.as_str()) {
            Some(q) => q,
            None => { return None; },
        };
        Some(
            frame_body(
                input_text.as_str(),
                expected_output.as_str(),
                actual_output.as_str(),
                check_type.as_str(),
                threshold_name.as_str(),
                self.threshold.as_str(),
            ),
        )
    }
}

/// What the body of a response holds, for a body that is a JSON object.
pub struct ResponseFields {
    /// `passed`, where it is there and a boolean.
    pub passed: Option<bool>,
    /// `score`, where it is there and a number: the text that writes it.
    pub score: Option<String>,
    /// The strings under `details.found_keywords`; empty where there are none.
    pub found_keywords: Vec<String>,
}

/// The fields of a response as plain values.
pub struct ResponseFieldsView {
    pub passed: Option<bool>,
    pub score: Option<Seq<char>>,
    pub found_keywords: Seq<Seq<char>>,
}

impl View for ResponseFields {
    type V = ResponseFieldsView;

    open spec fn view(&self) -> ResponseFieldsView {
        ResponseFieldsView {
            passed: self.passed,
            score: optional_view(self.score),
            found_keywords: texts(self.found_keywords@),
        }
    }
}

/// The flag that a member holds, where it holds one.
pub open spec fn flag_in(member: MemberView) -> Option<bool> {
    match member {
        MemberView::Present(JsonShapeView::Flag(b)) => Some(b),
        _ => None,
    }
}

/// The number that a member holds, where it holds one.
pub open spec fn number_in(member: MemberView) -> Option<Seq<char>> {
    match member {
        MemberView::Present(JsonShapeView::Number(text)) => Some(text),
        _ => None,
    }
}

/// The strings among the items of a list, in the list's order. An item
/// that is no string is left out.
pub open spec fn strings_among(items: Seq<Seq<char>>) -> Seq<Seq<char>>
    decreases items.len(),
{
    if items.len() == 0 {
        Seq::empty()
    } else {
        match json_shape(items.last()) {
            Some(JsonShapeView::Text(s)) => strings_among(items.drop_last()).push(s),
            _ => strings_among(items.drop_last()),
        }
    }
}

/// The terms that a response reports under `details.found_keywords`.
pub open spec fn keywords_in(members: Seq<(Seq<char>, Seq<char>)>) -> Seq<Seq<char>> {
    match member_in(members, "details"@) {
        MemberView::Present(JsonShapeView::Object(details)) => match member_in(
            details,
            "found_keywords"@,
        ) {
            MemberView::Present(JsonShapeView::List(items)) => strings_among(items),
            _ => Seq::empty(),
        },
        _ => Seq::empty(),
    }
}

/// What a response body holds: `None` for a body that is no JSON object.
pub open spec fn fields_in(body: Seq<char>) -> Option<ResponseFieldsView> {
    match json_shape(body) {
        Some(JsonShapeView::Object(members)) => Some(
            ResponseFieldsView {
                passed: flag_in(member_in(members, "passed"@)),
                score: number_in(member_in(members, "score"@)),
                found_keywords: keywords_in(members),
            },
        ),
        _ => None,
    }
}

/// Reads the strings among the items of a list.
pub fn read_strings(items: &Vec<String>) -> (r: Vec<String>)
    ensures
        texts(r@) == strings_among(texts(items@)),
{
    let ghost all = texts(items@);
    let mut out: Vec<String> = Vec::new();
    let mut i: usize = 0;
    assert(all.take(0) =~= Seq::<Seq<char>>::empty());
    assert(texts(out@) =~= Seq::<Seq<char>>::empty());
    while i < items.len()
        invariant
            i <= items.len(),
            all == texts(items@),
            texts(out@) == strings_among(all.take(i as int)),
        decreases items.len() - i,
    {
        let ghost next = all.take(i as int + 1);
        assert(next.drop_last() =~= all.take(i as int));
        assert(next.last() == items[i as int]@);
        let ghost before = texts(out@);
        match JsonShape::parse(items[i].as_str()) {
            Some(JsonShape::Text(s)) => {
                out.push(s);
                assert(texts(out@) =~= before.push(s@));
            },
            _ => {},
        }
        i += 1;
    }
    assert(all.take(i as int) =~= all);
    out
}

/// Reads the terms that a response reports.
pub fn read_keywords(members: &Vec<(String, String)>) -> (r: Vec<String>)
    ensures
        texts(r@) == keywords_in(crate::json::members_view(members@)),
{
    match read_member(members, "details") {
        Member::Present(JsonShape::Object(details)) => match read_member(&details, "found_keywords") {
            Member::Present(JsonShape::List(items)) => read_strings(&items),
            _ => {
                let none: Vec<String> = Vec::new();
                assert(texts(none@) =~= Seq::<Seq<char>>::empty());
                none
            },
        },
        _ => {
            let none: Vec<String> = Vec::new();
            assert(texts(none@) =~= Seq::<Seq<char>>::empty());
            none
        },
    }
}

/// Reads what a response body holds.
pub fn read_fields(body: &str) -> (r: Option<ResponseFields>)
    ensures
        match r {
            Some(fields) => fields_in(body@) == Some(fields@),
            None => fields_in(body@) is None,
        },
{
    match JsonShape::parse(body) {
        Some(JsonShape::Object(members)) => {
            let passed = match read_member(&members, "passed") {
                Member::Present(JsonShape::Flag(b)) => Some(b),
                _ => None,
            };
            let score = match read_member(&members, "score") {
                Member::Present(JsonShape::Number(text)) => Some(text),
                _ => None,
            };
            let found_keywords = read_keywords(&members);
            Some(ResponseFields { passed, score, found_keywords })
        },
        _ => None,
    }
}

/// What came of one call to a remote evaluator.
pub enum ClientReply {
    /// The remote side answered with this status and this body.
    Responded { status: u16, body: String },
    /// No connection could be made, or it broke.
    ConnectionFailed,
    /// No answer came within the time allowed.
    TimedOut,
}

/// A reply as plain values.
pub enum ClientReplyView {
    Responded { status: u16, body: Seq<char> },
    ConnectionFailed,
    TimedOut,
}

impl View for ClientReply {
    type V = ClientReplyView;

    open spec fn view(&self) -> ClientReplyView {
        match self {
            ClientReply::Responded { status, body } => ClientReplyView::Responded {
                status: *status,
                body: body@,
            },
            ClientReply::ConnectionFailed => ClientReplyView::ConnectionFailed,
            ClientReply::TimedOut => ClientReplyView::TimedOut,
        }
    }
}

/// A reply as a client understands it.
pub enum Finding {
    /// The check ran and gave a verdict.
    Verdict { passed: bool, score: Option<String>, matched_terms: Vec<String> },
    /// The remote side could not be reached.
    RemoteUnavailable,
    /// No answer came in time.
    TimedOut,
    /// The remote side answered with a status outside 200..=299.
    RemoteRejected { status: u16, body: String },
    /// The status was fine but the body was not: no JSON object, no boolean
    /// `passed`, or no numeric `score` where the client needs one.
    MalformedResponse { body: String },
}

/// A finding as plain values.
pub enum FindingView {
    Verdict { passed: bool, score: Option<Seq<char>>, matched_terms: Seq<Seq<char>> },
    RemoteUnavailable,
    TimedOut,
    RemoteRejected { status: u16, body: Seq<char> },
    MalformedResponse { body: Seq<char> },
}

impl View for Finding {
    type V = FindingView;

    open spec fn view(&self) -> FindingView {
        match self {
            Finding::Verdict { passed, score, matched_terms } => FindingView::Verdict {
                passed: *passed,
                score: optional_view(*score),
                matched_terms: texts(matched_terms@),
            },
            Finding::RemoteUnavailable => FindingView::RemoteUnavailable,
            Finding::TimedOut => FindingView::TimedOut,
            Finding::RemoteRejected { status, body } => FindingView::RemoteRejected {
                status: *status,
                body: body@,
            },
            Finding::MalformedResponse { body } => FindingView::MalformedResponse { body: body@ },
        }
    }
}

impl FindingView {
    /// Whether the call may be made once more: only where the remote side
    /// was unavailable or silent. A rejection or a malformed body is taken
    /// as the remote side's settled answer.
    pub open spec fn retryable(self) -> bool {
        self is RemoteUnavailable || self is TimedOut
    }
}

/// Whether the client needs a numeric `score` in the response.
pub open spec fn needs_score(kind: ClientKind) -> bool {
    kind == ClientKind::ContentSafety
}

/// How a client understands a response, given its status, its body and
/// what the body holds.
pub open spec fn finding_from(
    kind: ClientKind,
    status: u16,
    body: Seq<char>,
    fields: Option<ResponseFieldsView>,
) -> FindingView {
    if !(200 <= status <= 299) {
        FindingView::RemoteRejected { status, body }
    } else {
        match fields {
            None => FindingView::MalformedResponse { body },
            Some(f) => match f.passed {
                None => FindingView::MalformedResponse { body },
                Some(passed) => {
                    if needs_score(kind) && f.score is None {
                        FindingView::MalformedResponse { body }
                    } else {
                        FindingView::Verdict { passed, score: f.score, matched_terms: f.found_keywords }
                    }
                },
            },
        }
    }
}

/// How a client understands a reply.
pub open spec fn finding_of(kind: ClientKind, reply: ClientReplyView) -> FindingView {
    match reply {
        ClientReplyView::TimedOut => FindingView::TimedOut,
        ClientReplyView::ConnectionFailed => FindingView::RemoteUnavailable,
        ClientReplyView::Responded { status, body } => finding_from(kind, status, body, fields_in(body)),
    }
}

/// Classifies a response for a client, given what its body holds.
pub fn interpret(kind: ClientKind, status: u16, body: &str, fields: Option<ResponseFields>) -> (r: Finding)
    ensures
        r@ == finding_from(
            kind,
            status,
            body@,
            match fields {
                Some(f) => Some(f@),
                None => None,
            },
        ),
{
    if status < 200 || status > 299 {
        return Finding::RemoteRejected { status, body: owned(body) };
    }
    match fields {
        None => Finding::MalformedResponse { body: owned(body) },
        Some(f) => match f.passed {
            None => Finding::MalformedResponse { body: owned(body) },
            Some(passed) => {
                let wants_score = match kind {
                    ClientKind::ContentSafety => true,
                    ClientKind::KeywordFilter => false,
                };
                if wants_score && f.score.is_none() {
                    Finding::MalformedResponse { body: owned(body) }
                } else {
                    Finding::Verdict { passed, score: f.score, matched_terms: f.found_keywords }
                }
            },
        },
    }
}

/// Classifies a reply for a client.
pub fn classify(kind: ClientKind, reply: &ClientReply) -> (r: Finding)
    ensures
        r@ == finding_of(kind, reply@),
{
    match reply {
        ClientReply::TimedOut => Finding::TimedOut,
        ClientReply::ConnectionFailed => Finding::RemoteUnavailable,
        ClientReply::Responded { status, body } => interpret(
            kind,
            *status,
            body.as_str(),
            read_fields(body.as_str()),
        ),
    }
}

} // verus!
