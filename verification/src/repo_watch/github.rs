//! The seam to GitHub: what is asked of it and what it answers. Everything that is asked is read
//! only.

use vstd::prelude::*;

use crate::http::{is_success, succeeds};
use crate::json::{json_views, Json, JsonView};
use crate::text::search::{find_chars, find_from};
use crate::text::width::{can_cut, cuts_cleanly, prefix_within, safe_truncate};
use crate::text::{chars, opt_view, prefixed, slice, text};

verus! {

/// What the answer to a request is read as.
#[derive(Debug, Clone, Copy, PartialEq, Eq, Structural)]
pub enum Expect {
    /// A JSON value.
    Json,
    /// A JSON list.
    List,
    /// The contents of a file, as they are.
    Bytes,
}

/// A request to read something from GitHub.
#[derive(Debug)]
pub struct Request {
    pub url: String,
    pub query: Vec<(String, String)>,
    pub expect: Expect,
}

/// What a request holds.
#[verifier::ext_equal]
pub struct RequestView {
    pub url: Seq<char>,
    pub query: Seq<(Seq<char>, Seq<char>)>,
    pub expect: Expect,
}

/// The views of the parameters of a query.
pub open spec fn query_views(query: Seq<(String, String)>) -> Seq<(Seq<char>, Seq<char>)> {
    query.map_values(|param: (String, String)| (param.0@, param.1@))
}

impl View for Request {
    type V = RequestView;

    open spec fn view(&self) -> RequestView {
        RequestView { url: self.url@, query: query_views(self.query@), expect: self.expect }
    }
}

/// What GitHub answers.
#[derive(Debug)]
pub enum Reply {
    /// The request could not be sent or answered; the reason.
    Failed(String),
    /// The status was no success: its code, the status line and the body.
    Refused { code: u16, status: String, body: String },
    /// The body could not be read as what was expected; the reason.
    Unreadable(String),
    Json(Json),
    Bytes(Vec<u8>),
}

/// What GitHub answers.
#[verifier::ext_equal]
pub enum ReplyView {
    Failed(Seq<char>),
    Refused { code: u16, status: Seq<char>, body: Seq<char> },
    Unreadable(Seq<char>),
    Json(JsonView),
    Bytes(Seq<u8>),
}

impl View for Reply {
    type V = ReplyView;

    open spec fn view(&self) -> ReplyView {
        match self {
            Reply::Failed(e) => ReplyView::Failed(e@),
            Reply::Refused { code, status, body } => ReplyView::Refused {
                code: *code,
                status: status@,
                body: body@,
            },
            Reply::Unreadable(e) => ReplyView::Unreadable(e@),
            Reply::Json(j) => ReplyView::Json(j@),
            Reply::Bytes(b) => ReplyView::Bytes(b@),
        }
    }
}

/// The views of a sequence of replies.
pub open spec fn reply_views(replies: Seq<Reply>) -> Seq<ReplyView> {
    replies.map_values(|reply: Reply| reply@)
}

/// How an operation goes on, from the replies so far.
#[derive(Debug)]
pub enum Progress {
    Ask(Request),
    /// Its outcome, and how many of the replies it has used.
    Done { outcome: Result<String, String>, used: usize },
    /// The replies cannot be reported on: a commit hash cannot be cut to its short form, or the
    /// number of changed lines of a file is too large.
    Stuck,
}

/// How an operation goes on.
#[verifier::ext_equal]
pub enum ProgressView {
    Ask(RequestView),
    Done { outcome: Result<Seq<char>, Seq<char>>, used: nat },
    Stuck,
}

impl View for Progress {
    type V = ProgressView;

    open spec fn view(&self) -> ProgressView {
        match self {
            Progress::Ask(request) => ProgressView::Ask(request@),
            Progress::Done { outcome, used } => ProgressView::Done {
                outcome: crate::text::outcome(*outcome),
                used: *used as nat,
            },
            Progress::Stuck => ProgressView::Stuck,
        }
    }
}

// ─── Requests ───────────────────────────────────────────────────────────────

/// The headers that go with a request: what GitHub asks for, and the raw form for contents.
pub open spec fn headers_for(expect: Expect) -> Seq<(Seq<char>, Seq<char>)> {
    let common = Seq::empty().push(("Accept"@, "application/vnd.github+json"@)).push(
        ("X-GitHub-Api-Version"@, "2022-11-28"@),
    );
    if expect == Expect::Bytes {
        common.push(("Accept"@, "application/vnd.github.raw"@))
    } else {
        common
    }
}

/// One parameter more.
pub fn with_param(query: Vec<(String, String)>, key: &str, value: &str) -> (r: Vec<
    (String, String),
>)
    ensures
        query_views(r@) == query_views(query@).push((key@, value@)),
{
    let ghost before = query_views(query@);
    let mut out = query;
    out.push((text(key), text(value)));
    assert(query_views(out@) =~= before.push((key@, value@)));
    out
}

/// No parameters.
pub fn no_params() -> (r: Vec<(String, String)>)
    ensures
        query_views(r@) == Seq::<(Seq<char>, Seq<char>)>::empty(),
{
    let out: Vec<(String, String)> = Vec::new();
    assert(query_views(out@) =~= Seq::empty());
    out
}

/// The headers that go with a request.
pub fn headers(expect: Expect) -> (r: Vec<(String, String)>)
    ensures
        query_views(r@) == headers_for(expect),
{
    let common = with_param(
        with_param(no_params(), "Accept", "application/vnd.github+json"),
        "X-GitHub-Api-Version",
        "2022-11-28",
    );
    match expect {
        Expect::Bytes => with_param(common, "Accept", "application/vnd.github.raw"),
        _ => common,
    }
}

/// The token that a request is authorised with: the one in the environment, unless it is empty.
/// Public repositories can be read without one.
pub fn bearer_token(token: Option<String>) -> (r: Option<String>)
    ensures
        opt_view(r) == match opt_view(token) {
            Some(t) => if t.len() == 0 {
                None
            } else {
                Some(t)
            },
            None => None,
        },
{
    match token {
        Some(t) => if t.as_str().is_empty() {
            None
        } else {
            Some(t)
        },
        None => None,
    }
}

/// The address of something in a repository.
pub open spec fn repo_url(owner: Seq<char>, repo: Seq<char>, rest: Seq<char>) -> Seq<char> {
    "https://api.github.com/repos/"@ + owner + "/"@ + repo + rest
}

/// The address of something in a repository.
pub fn url_in(owner: &str, repo: &str, rest: &str) -> (r: String)
    ensures
        r@ == repo_url(owner@, repo@, rest@),
{
    let mut out = text("https://api.github.com/repos/");
    out.append(owner);
    out.append("/");
    out.append(repo);
    out.append(rest);
    out
}

// ─── Replies ────────────────────────────────────────────────────────────────

/// What is added where a token may be missing: a private repository reached without one is the
/// most common cause.
pub open spec fn token_hint(code: u16) -> Seq<char> {
    if code == 401 || code == 403 || code == 404 {
        " (a private repo needs a GITHUB_TOKEN with read access)"@
    } else {
        ""@
    }
}

/// What is said of a status that is no success.
pub open spec fn refusal(
    endpoint: Seq<char>,
    code: u16,
    status: Seq<char>,
    body: Seq<char>,
) -> Seq<char> {
    endpoint + " "@ + status + ": "@ + body + token_hint(code)
}

/// The reply to a request that was answered with a status that is no success.
pub fn refuse(code: u16, status: String, body: String) -> (r: Option<Reply>)
    ensures
        r == if is_success(code) {
            None
        } else {
            Some(Reply::Refused { code, status, body })
        },
{
    if succeeds(code) {
        None
    } else {
        Some(Reply::Refused { code, status, body })
    }
}

/// The JSON value in a reply, or what went wrong.
pub open spec fn json_in(reply: ReplyView, endpoint: Seq<char>) -> Result<JsonView, Seq<char>> {
    match reply {
        ReplyView::Failed(e) => Err("request failed: "@ + e),
        ReplyView::Refused { code, status, body } => Err(refusal(endpoint, code, status, body)),
        ReplyView::Unreadable(e) => Err("parse failed: "@ + e),
        ReplyView::Json(j) => Ok(j),
        ReplyView::Bytes(_) => Err("parse failed: the body is not JSON"@),
    }
}

/// The JSON list in a reply, or what went wrong.
pub open spec fn list_in(reply: ReplyView, endpoint: Seq<char>) -> Result<
    Seq<JsonView>,
    Seq<char>,
> {
    match json_in(reply, endpoint) {
        Err(e) => Err(e),
        Ok(j) => match j.items() {
            Some(items) => Ok(items),
            None => Err("parse failed: the body is not a list"@),
        },
    }
}

/// What is said of a status that is no success.
pub fn explain_refusal(endpoint: &str, code: u16, status: &str, body: &str) -> (r: String)
    ensures
        r@ == refusal(endpoint@, code, status@, body@),
{
    let mut out = text(endpoint);
    out.append(" ");
    out.append(status);
    out.append(": ");
    out.append(body);
    if code == 401 || code == 403 || code == 404 {
        out.append(" (a private repo needs a GITHUB_TOKEN with read access)");
    } else {
        out.append("");
    }
    out
}

/// The JSON value in a reply where the status is a success, or what went wrong: an error carries
/// the endpoint, the status and the body, and where a token may be missing a hint at that.
pub fn ensure_success<'a>(reply: &'a Reply, endpoint: &str) -> (r: Result<&'a Json, String>)
    ensures
        match r {
            Ok(j) => json_in(reply@, endpoint@) == Ok::<JsonView, Seq<char>>(j@),
            Err(e) => json_in(reply@, endpoint@) == Err::<JsonView, Seq<char>>(e@),
        },
{
    match reply {
        Reply::Failed(e) => Err(prefixed("request failed: ", e.as_str())),
        Reply::Refused { code, status, body } => Err(
            explain_refusal(endpoint, *code, status.as_str(), body.as_str()),
        ),
        Reply::Unreadable(e) => Err(prefixed("parse failed: ", e.as_str())),
        Reply::Json(j) => Ok(j),
        Reply::Bytes(_) => Err(text("parse failed: the body is not JSON")),
    }
}

/// The JSON list in a reply, or what went wrong.
pub fn read_list<'a>(reply: &'a Reply, endpoint: &str) -> (r: Result<&'a Vec<Json>, String>)
    ensures
        match r {
            Ok(items) => list_in(reply@, endpoint@) == Ok::<Seq<JsonView>, Seq<char>>(
                json_views(items@),
            ),
            Err(e) => list_in(reply@, endpoint@) == Err::<Seq<JsonView>, Seq<char>>(e@),
        },
{
    match ensure_success(reply, endpoint) {
        Err(e) => Err(e),
        Ok(j) => match j.as_items() {
            Some(items) => Ok(items),
            None => Err(text("parse failed: the body is not a list")),
        },
    }
}

// ─── References ─────────────────────────────────────────────────────────────

/// The owner and the name in a reference to a repository, or that it is none.
pub open spec fn repo_parts(repo_ref: Seq<char>) -> Result<(Seq<char>, Seq<char>), Seq<char>> {
    let refused = Err::<(Seq<char>, Seq<char>), Seq<char>>(
        "'"@ + repo_ref + "' is not a valid \"owner/name\" repo reference"@,
    );
    match find_from(repo_ref, seq!['/'], 0) {
        Some(i) => if i > 0 && i + 1 < repo_ref.len() {
            Ok((repo_ref.take(i), repo_ref.skip(i + 1)))
        } else {
            refused
        },
        None => refused,
    }
}

/// Splits an `owner/name` reference at its first slash; neither half may be empty.
pub fn split_repo(repo_ref: &str) -> (r: Result<(String, String), String>)
    ensures
        match r {
            Ok((owner, name)) => repo_parts(repo_ref@) == Ok::<(Seq<char>, Seq<char>), Seq<char>>(
                (owner@, name@),
            ),
            Err(e) => repo_parts(repo_ref@) == Err::<(Seq<char>, Seq<char>), Seq<char>>(e@),
        },
{
    let c = chars(repo_ref);
    let mut slash: Vec<char> = Vec::new();
    slash.push('/');
    assert(slash@ =~= seq!['/']);
    match find_chars(&c, &slash, 0) {
        Some(i) => if i > 0 && i + 1 < c.len() {
            assert(c@.subrange(0, i as int) =~= repo_ref@.take(i as int));
            assert(c@.subrange(i + 1, c@.len() as int) =~= repo_ref@.skip(i + 1));
            return Ok((slice(&c, 0, i), slice(&c, i + 1, c.len())));
        },
        None => {},
    }
    let mut out = text("'");
    out.append(repo_ref);
    out.append("' is not a valid \"owner/name\" repo reference");
    Err(out)
}

/// The short form of a commit hash: its first seven bytes.
pub open spec fn short(hash: Seq<char>) -> Seq<char> {
    prefix_within(hash, 7)
}

/// Whether a commit hash can be cut to its short form.
pub open spec fn has_short(hash: Seq<char>) -> bool {
    cuts_cleanly(hash, 7)
}

/// The short form of a commit hash.
pub fn short_hash(commit_hash: &str) -> (r: String)
    requires
        has_short(commit_hash@),
    ensures
        r@ == short(commit_hash@),
{
    safe_truncate(commit_hash, 7)
}

/// Whether a commit hash can be cut to its short form.
pub fn can_shorten(commit_hash: &str) -> (r: bool)
    ensures
        r == has_short(commit_hash@),
{
    can_cut(commit_hash, 7)
}

/// A reference that is accepted is its owner and its name with a slash between them, and the
/// owner holds no slash.
pub proof fn repo_parts_rejoin(repo_ref: Seq<char>)
    ensures
        repo_parts(repo_ref) matches Ok((owner, name)) ==> {
            &&& repo_ref == owner + seq!['/'] + name
            &&& owner.len() > 0
            &&& name.len() > 0
            &&& forall|i: int| 0 <= i < owner.len() ==> #[trigger] owner[i] != '/'
        },
{
    crate::text::search::find_is_first(repo_ref, seq!['/'], 0);
    match find_from(repo_ref, seq!['/'], 0) {
        Some(i) => {
            assert(repo_ref.subrange(i, i + 1)[0] == seq!['/'][0]);
            assert(repo_ref =~= repo_ref.take(i) + seq!['/'] + repo_ref.skip(i + 1));
            assert forall|j: int| 0 <= j < i implies #[trigger] repo_ref.take(i)[j] != '/' by {
                if repo_ref[j] == '/' {
                    assert(repo_ref.subrange(j, j + 1) =~= seq!['/']);
                    assert(crate::text::search::occurs_at(repo_ref, seq!['/'], j));
                }
            }
        },
        None => {},
    }
}

} // verus!
