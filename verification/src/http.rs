//! The seam between a tool's logic and the services it asks: requests to send, replies that came
//! back, and the text a tool call ends with.

use vstd::prelude::*;

use crate::json::{Json, JsonView};
use crate::text::search::{contains, group_contained};
use crate::text::{outcome, prefixed, text};

verus! {

/// Whether a status is a success.
pub open spec fn is_success(code: u16) -> bool {
    200 <= code < 300
}

/// Whether a status is a success.
pub fn succeeds(code: u16) -> (r: bool)
    ensures
        r == is_success(code),
{
    200 <= code && code < 300
}

/// What a tool makes of the answer to a request.
#[derive(Debug, Clone, Copy, PartialEq, Eq, Structural)]
pub enum Expect {
    /// The body as JSON, whatever the status.
    Json,
    /// The body as text, whatever the status.
    Text,
    /// The body as text where the status is a success.
    SuccessText,
    /// Status, latency and content type only, with a limit of ten seconds.
    Probe,
}

/// A request to read an address.
#[derive(Debug)]
pub struct Request {
    pub url: String,
    /// The `User-Agent` header, where one is sent.
    pub user_agent: Option<String>,
    pub expect: Expect,
}

/// What a request holds.
#[verifier::ext_equal]
pub struct RequestView {
    pub url: Seq<char>,
    pub user_agent: Option<Seq<char>>,
    pub expect: Expect,
}

impl View for Request {
    type V = RequestView;

    open spec fn view(&self) -> RequestView {
        RequestView {
            url: self.url@,
            user_agent: crate::text::opt_view(self.user_agent),
            expect: self.expect,
        }
    }
}

/// What came back for a request.
#[derive(Debug)]
pub enum Reply {
    /// No client could be set up; the reason.
    NoClient(String),
    /// The request could not be sent or answered; the reason.
    Failed(String),
    /// The body could not be read as what was expected; the reason.
    Unreadable(String),
    /// The status was no success; the status line.
    Refused(String),
    Json(Json),
    Text(String),
    /// A probe was answered.
    Answered { code: u16, status: String, content_type: Option<String>, elapsed_ms: u64 },
    /// A probe was not answered in time.
    TimedOut,
    /// A probe could not be sent or answered.
    Unreachable { elapsed_ms: u64, error: String },
}

/// What a reply holds.
#[verifier::ext_equal]
pub enum ReplyView {
    NoClient(Seq<char>),
    Failed(Seq<char>),
    Unreadable(Seq<char>),
    Refused(Seq<char>),
    Json(JsonView),
    Text(Seq<char>),
    Answered {
        code: u16,
        status: Seq<char>,
        content_type: Option<Seq<char>>,
        elapsed_ms: u64,
    },
    TimedOut,
    Unreachable { elapsed_ms: u64, error: Seq<char> },
}

impl View for Reply {
    type V = ReplyView;

    open spec fn view(&self) -> ReplyView {
        match self {
            Reply::NoClient(e) => ReplyView::NoClient(e@),
            Reply::Failed(e) => ReplyView::Failed(e@),
            Reply::Unreadable(e) => ReplyView::Unreadable(e@),
            Reply::Refused(line) => ReplyView::Refused(line@),
            Reply::Json(j) => ReplyView::Json(j@),
            Reply::Text(s) => ReplyView::Text(s@),
            Reply::Answered { code, status, content_type, elapsed_ms } => ReplyView::Answered {
                code: *code,
                status: status@,
                content_type: crate::text::opt_view(*content_type),
                elapsed_ms: *elapsed_ms,
            },
            Reply::TimedOut => ReplyView::TimedOut,
            Reply::Unreachable { elapsed_ms, error } => ReplyView::Unreachable {
                elapsed_ms: *elapsed_ms,
                error: error@,
            },
        }
    }
}

/// The reply to a request for text that was answered with a status that is no success, where only
/// a success will do.
pub fn refuse(expect: Expect, code: u16, status: String) -> (r: Option<Reply>)
    ensures
        r == if expect == Expect::SuccessText && !is_success(code) {
            Some(Reply::Refused(status))
        } else {
            None
        },
{
    match expect {
        Expect::SuccessText => if succeeds(code) {
            None
        } else {
            Some(Reply::Refused(status))
        },
        _ => None,
    }
}

/// The views of a sequence of replies.
pub open spec fn reply_views(replies: Seq<Reply>) -> Seq<ReplyView> {
    replies.map_values(|reply: Reply| reply@)
}

/// How a tool call goes on: one more request, or the text to hand to the model.
#[derive(Debug)]
pub enum Step {
    Fetch(Request),
    Done(String),
}

/// What a step holds.
#[verifier::ext_equal]
pub enum StepView {
    Fetch(RequestView),
    Done(Seq<char>),
}

impl View for Step {
    type V = StepView;

    open spec fn view(&self) -> StepView {
        match self {
            Step::Fetch(request) => StepView::Fetch(request@),
            Step::Done(s) => StepView::Done(s@),
        }
    }
}

/// The view of a request that may not come about.
pub open spec fn request_view(r: Result<Request, String>) -> Result<RequestView, Seq<char>> {
    match r {
        Ok(request) => Ok(request@),
        Err(e) => Err(e@),
    }
}

/// The text handed to the model for a tool's outcome: an error is marked as one.
pub open spec fn shown(r: Result<Seq<char>, Seq<char>>) -> Seq<char> {
    match r {
        Ok(s) => s,
        Err(e) => "Error: "@ + e,
    }
}

/// A call of a tool that sends one request: the request while no reply is there, then the report
/// on the reply.
pub open spec fn single_fetch(
    request: Result<RequestView, Seq<char>>,
    replies: Seq<ReplyView>,
    report: Result<Seq<char>, Seq<char>>,
) -> StepView {
    match request {
        Err(e) => StepView::Done(shown(Err(e))),
        Ok(r) => if replies.len() == 0 {
            StepView::Fetch(r)
        } else {
            StepView::Done(shown(report))
        },
    }
}

/// The JSON body of a reply, or what went wrong.
pub open spec fn json_body(reply: ReplyView) -> Result<JsonView, Seq<char>> {
    match reply {
        ReplyView::Json(j) => Ok(j),
        ReplyView::NoClient(e) => Err("failed to build HTTP client: "@ + e),
        ReplyView::Failed(e) => Err("request failed: "@ + e),
        ReplyView::Unreadable(e) => Err("parse failed: "@ + e),
        _ => Err("parse failed: the body is not JSON"@),
    }
}

/// The text body of a reply, or what went wrong; `refused` says what a status that is no success
/// means.
pub open spec fn text_body(reply: ReplyView, refused: Seq<char>) -> Result<Seq<char>, Seq<char>> {
    match reply {
        ReplyView::Text(s) => Ok(s),
        ReplyView::NoClient(e) => Err("failed to build HTTP client: "@ + e),
        ReplyView::Failed(e) => Err("request failed: "@ + e),
        ReplyView::Unreadable(e) => Err("read failed: "@ + e),
        ReplyView::Refused(line) => Err(refused + line + ")"@),
        _ => Err("read failed: the body is not text"@),
    }
}

/// The text handed to the model for a tool's outcome.
pub fn show(r: Result<String, String>) -> (out: String)
    ensures
        out@ == shown(outcome(r)),
{
    match r {
        Ok(s) => s,
        Err(e) => {
            let mut out = text("Error: ");
            out.append(e.as_str());
            out
        },
    }
}

/// The JSON body of a reply, or what went wrong.
pub fn body_json(reply: &Reply) -> (r: Result<&Json, String>)
    ensures
        match r {
            Ok(j) => json_body(reply@) == Ok::<JsonView, Seq<char>>(j@),
            Err(e) => json_body(reply@) == Err::<JsonView, Seq<char>>(e@),
        },
{
    match reply {
        Reply::Json(j) => Ok(j),
        Reply::NoClient(e) => Err(prefixed("failed to build HTTP client: ", e.as_str())),
        Reply::Failed(e) => Err(prefixed("request failed: ", e.as_str())),
        Reply::Unreadable(e) => Err(prefixed("parse failed: ", e.as_str())),
        _ => Err(text("parse failed: the body is not JSON")),
    }
}

/// The text body of a reply, or what went wrong.
pub fn body_text(reply: &Reply, refused: &str) -> (r: Result<String, String>)
    ensures
        outcome(r) == text_body(reply@, refused@),
{
    match reply {
        Reply::Text(s) => Ok(text(s.as_str())),
        Reply::NoClient(e) => Err(prefixed("failed to build HTTP client: ", e.as_str())),
        Reply::Failed(e) => Err(prefixed("request failed: ", e.as_str())),
        Reply::Unreadable(e) => Err(prefixed("read failed: ", e.as_str())),
        Reply::Refused(line) => {
            let mut out = text(refused);
            out.append(line.as_str());
            out.append(")");
            Err(out)
        },
        _ => Err(text("read failed: the body is not text")),
    }
}

/// The request for `url`.
pub fn get(url: String, user_agent: Option<&str>, expect: Expect) -> (r: Request)
    ensures
        r@ == (RequestView { url: url@, user_agent: crate::text::opt_str(user_agent), expect }),
{
    Request { url, user_agent: crate::text::opt_text(user_agent), expect }
}

/// The text argument `key` of a tool call, or that it is missing.
pub open spec fn needed(args: JsonView, key: Seq<char>) -> Result<Seq<char>, Seq<char>> {
    match args.at(key).text() {
        Some(t) => Ok(t),
        None => Err("missing '"@ + key + "'"@),
    }
}

/// The text argument `key` of a tool call, or that it is missing.
pub fn need<'a>(args: &'a Json, key: &str) -> (r: Result<&'a str, String>)
    ensures
        match r {
            Ok(t) => needed(args@, key@) == Ok::<Seq<char>, Seq<char>>(t@),
            Err(e) => needed(args@, key@) == Err::<Seq<char>, Seq<char>>(e@),
        },
{
    match args.at(key).as_text() {
        Some(t) => Ok(t),
        None => {
            let mut out = text("missing '");
            out.append(key);
            out.append("'");
            Err(out)
        },
    }
}

/// The text argument `key` and the JSON body of the reply: what a report is made from.
pub open spec fn asked(args: JsonView, key: Seq<char>, reply: ReplyView) -> Result<
    (Seq<char>, JsonView),
    Seq<char>,
> {
    match needed(args, key) {
        Err(e) => Err(e),
        Ok(t) => match json_body(reply) {
            Err(e) => Err(e),
            Ok(j) => Ok((t, j)),
        },
    }
}

/// The text argument `key` and the JSON body of the reply.
pub fn ask<'a>(args: &'a Json, key: &str, reply: &'a Reply) -> (r: Result<
    (&'a str, &'a Json),
    String,
>)
    ensures
        match r {
            Ok((t, j)) => asked(args@, key@, reply@) == Ok::<(Seq<char>, JsonView), Seq<char>>(
                (t@, j@),
            ),
            Err(e) => asked(args@, key@, reply@) == Err::<(Seq<char>, JsonView), Seq<char>>(e@),
        },
{
    match need(args, key) {
        Err(e) => Err(e),
        Ok(t) => match body_json(reply) {
            Err(e) => Err(e),
            Ok(j) => Ok((t, j)),
        },
    }
}

// ─── Laws ───────────────────────────────────────────────────────────────────

/// A body of the kind that is read is taken as it is, and no other one is; what went wrong instead is
/// told, with the reason.
pub proof fn body_is_given_or_explained(reply: ReplyView, refused: Seq<char>, e: Seq<char>)
    ensures
        forall|j: JsonView| json_body(reply) == Ok::<JsonView, Seq<char>>(j) <==> reply
            == ReplyView::Json(j),
        forall|s: Seq<char>| text_body(reply, refused) == Ok::<Seq<char>, Seq<char>>(s) <==> reply
            == ReplyView::Text(s),
        reply == ReplyView::Failed(e) || reply == ReplyView::Unreadable(e) || reply
            == ReplyView::NoClient(e) ==> {
            &&& json_body(reply) matches Err(why) && contains(why, e)
            &&& text_body(reply, refused) matches Err(why) && contains(why, e)
        },
        reply == ReplyView::Refused(e) ==> (text_body(reply, refused) matches Err(why) && contains(
            why,
            refused + e,
        )),
{
    broadcast use group_contained;

    let told = refused + e;
    assert(contains(told, told));
}

/// A missing argument is named; one that is there is taken as it is.
pub proof fn missing_argument_is_named(args: JsonView, key: Seq<char>)
    ensures
        forall|t: Seq<char>| needed(args, key) == Ok::<Seq<char>, Seq<char>>(t) <==> args.at(key)
            == JsonView::Text(t),
        args.at(key) !is Text ==> (needed(args, key) matches Err(why) && contains(
            why,
            "missing '"@ + key + "'"@,
        )),
{
    broadcast use group_contained;

    let told = "missing '"@ + key + "'"@;
    assert(contains(told, told));
}

/// Each thing that can go wrong is told apart: a client that is missing, a request that failed, and
/// a body that cannot be read.
pub proof fn failures_are_told_apart(e: Seq<char>, refused: Seq<char>)
    ensures
        json_body(ReplyView::NoClient(e)) == Err::<JsonView, Seq<char>>(
            "failed to build HTTP client: "@ + e,
        ),
        json_body(ReplyView::Failed(e)) == Err::<JsonView, Seq<char>>("request failed: "@ + e),
        json_body(ReplyView::Unreadable(e)) == Err::<JsonView, Seq<char>>("parse failed: "@ + e),
        text_body(ReplyView::NoClient(e), refused) == Err::<Seq<char>, Seq<char>>(
            "failed to build HTTP client: "@ + e,
        ),
        text_body(ReplyView::Failed(e), refused) == Err::<Seq<char>, Seq<char>>(
            "request failed: "@ + e,
        ),
        text_body(ReplyView::Unreadable(e), refused) == Err::<Seq<char>, Seq<char>>(
            "read failed: "@ + e,
        ),
{
}

} // verus!
