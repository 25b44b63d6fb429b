//! Posting a file to Slack: an address to upload to is asked for, the file is uploaded there, and
//! the upload is completed. Slack answers with a success even where something went wrong; the
//! member `ok` of its answer says which.

use vstd::prelude::*;

use crate::http::{is_success, succeeds};
use crate::json::make::{
    list, no_items, no_members_yet, obj2, object, object2, string, with_item, with_member,
};
use crate::json::{Json, JsonView};
use crate::text::width::{byte_count, byte_len};
use crate::text::{count_text, decimal, opt_view, prefixed, text};

verus! {

/// What is sent to Slack.
#[derive(Debug)]
pub enum Request {
    /// A form with the name and the length of the file.
    GetUploadUrl { url: String, token: String, filename: String, length: String },
    /// The file itself. The address is all the credential there is.
    Upload { url: String, content: String },
    /// A JSON body that names the file, the channel and the comment.
    Complete { url: String, token: String, body: Json },
}

/// What is sent to Slack.
#[verifier::ext_equal]
pub enum RequestView {
    GetUploadUrl { url: Seq<char>, token: Seq<char>, filename: Seq<char>, length: Seq<char> },
    Upload { url: Seq<char>, content: Seq<char> },
    Complete { url: Seq<char>, token: Seq<char>, body: JsonView },
}

impl View for Request {
    type V = RequestView;

    open spec fn view(&self) -> RequestView {
        match self {
            Request::GetUploadUrl { url, token, filename, length } => RequestView::GetUploadUrl {
                url: url@,
                token: token@,
                filename: filename@,
                length: length@,
            },
            Request::Upload { url, content } => RequestView::Upload {
                url: url@,
                content: content@,
            },
            Request::Complete { url, token, body } => RequestView::Complete {
                url: url@,
                token: token@,
                body: body@,
            },
        }
    }
}

/// What Slack answers.
#[derive(Debug)]
pub enum Reply {
    /// The request could not be sent or answered; the reason.
    Failed(String),
    /// The status was no success: the status line and the body.
    Refused { status: String, body: String },
    /// The body could not be read as JSON; the reason.
    Unreadable(String),
    Json(Json),
    /// The file was taken.
    Taken,
}

/// What Slack answers.
#[verifier::ext_equal]
pub enum ReplyView {
    Failed(Seq<char>),
    Refused { status: Seq<char>, body: Seq<char> },
    Unreadable(Seq<char>),
    Json(JsonView),
    Taken,
}

impl View for Reply {
    type V = ReplyView;

    open spec fn view(&self) -> ReplyView {
        match self {
            Reply::Failed(e) => ReplyView::Failed(e@),
            Reply::Refused { status, body } => ReplyView::Refused { status: status@, body: body@ },
            Reply::Unreadable(e) => ReplyView::Unreadable(e@),
            Reply::Json(j) => ReplyView::Json(j@),
            Reply::Taken => ReplyView::Taken,
        }
    }
}

/// The views of a sequence of replies.
pub open spec fn reply_views(replies: Seq<Reply>) -> Seq<ReplyView> {
    replies.map_values(|reply: Reply| reply@)
}

/// The reply to a request that was answered with a status that is no success.
pub fn refuse(code: u16, status: String, body: String) -> (r: Option<Reply>)
    ensures
        r == if is_success(code) {
            None
        } else {
            Some(Reply::Refused { status, body })
        },
{
    if succeeds(code) {
        None
    } else {
        Some(Reply::Refused { status, body })
    }
}

/// How the posting goes on.
#[derive(Debug)]
pub enum Step {
    Send(Request),
    Done(Result<(), String>),
}

/// How the posting goes on.
#[verifier::ext_equal]
pub enum StepView {
    Send(RequestView),
    Done(Result<(), Seq<char>>),
}

impl View for Step {
    type V = StepView;

    open spec fn view(&self) -> StepView {
        match self {
            Step::Send(request) => StepView::Send(request@),
            Step::Done(r) => StepView::Done(
                match r {
                    Ok(_) => Ok(()),
                    Err(e) => Err(e@),
                },
            ),
        }
    }
}

/// The body of an answer in which Slack says that all is well, or what went wrong.
pub open spec fn ok_body(reply: ReplyView, step: Seq<char>) -> Result<JsonView, Seq<char>> {
    match reply {
        ReplyView::Failed(e) => Err("request failed: "@ + e),
        ReplyView::Refused { status, body } => Err(
            "Slack "@ + step + " "@ + status + ": "@ + body,
        ),
        ReplyView::Unreadable(e) => Err(step + " parse failed: "@ + e),
        ReplyView::Taken => Err(step + " parse failed: the body is not JSON"@),
        ReplyView::Json(j) => if j.at("ok"@).truth() == Some(true) {
            Ok(j)
        } else {
            Err("Slack "@ + step + " failed: "@ + j.at("error"@).text_or("unknown"@))
        },
    }
}

/// Where to upload to and under which id, or what went wrong.
pub open spec fn upload_target(reply: ReplyView) -> Result<(Seq<char>, Seq<char>), Seq<char>> {
    match ok_body(reply, "files.getUploadURLExternal"@) {
        Err(e) => Err(e),
        Ok(body) => match body.at("upload_url"@).text() {
            None => Err("missing upload_url in response"@),
            Some(url) => match body.at("file_id"@).text() {
                None => Err("missing file_id in response"@),
                Some(id) => Ok((url, id)),
            },
        },
    }
}

/// Whether the file was taken, or what went wrong.
pub open spec fn upload_taken(reply: ReplyView) -> Result<(), Seq<char>> {
    match reply {
        ReplyView::Failed(e) => Err("file upload request failed: "@ + e),
        ReplyView::Refused { status, body } => Err("file upload "@ + status + ": "@ + body),
        _ => Ok(()),
    }
}

/// The body that completes an upload.
pub open spec fn completion_body(
    channel: Seq<char>,
    file_id: Seq<char>,
    title: Seq<char>,
    comment: Seq<char>,
) -> JsonView {
    JsonView::Object(
        Seq::empty().push(
            (
                "files"@,
                JsonView::List(
                    Seq::empty().push(
                        obj2("id"@, JsonView::Text(file_id), "title"@, JsonView::Text(title)),
                    ),
                ),
            ),
        ).push(("channel_id"@, JsonView::Text(channel))).push(
            ("initial_comment"@, JsonView::Text(comment)),
        ),
    )
}

/// How the posting goes on, from the replies so far.
pub open spec fn posting(
    token: Option<Seq<char>>,
    channel: Option<Seq<char>>,
    markdown: Seq<char>,
    filename: Seq<char>,
    comment: Seq<char>,
    replies: Seq<ReplyView>,
) -> StepView {
    match token {
        None => StepView::Done(Err("SLACK_BOT_TOKEN is not set"@)),
        Some(token) => match channel {
            None => StepView::Done(Err("SLACK_CHANNEL_ID is not set"@)),
            Some(channel) => if replies.len() == 0 {
                StepView::Send(
                    RequestView::GetUploadUrl {
                        url: "https://slack.com/api/files.getUploadURLExternal"@,
                        token,
                        filename,
                        length: decimal(byte_len(markdown)),
                    },
                )
            } else {
                match upload_target(replies[0]) {
                    Err(e) => StepView::Done(Err(e)),
                    Ok((url, id)) => if replies.len() == 1 {
                        StepView::Send(RequestView::Upload { url, content: markdown })
                    } else {
                        match upload_taken(replies[1]) {
                            Err(e) => StepView::Done(Err(e)),
                            Ok(_) => if replies.len() == 2 {
                                StepView::Send(
                                    RequestView::Complete {
                                        url: "https://slack.com/api/files.completeUploadExternal"@,
                                        token,
                                        body: completion_body(channel, id, filename, comment),
                                    },
                                )
                            } else {
                                match ok_body(replies[2], "files.completeUploadExternal"@) {
                                    Err(e) => StepView::Done(Err(e)),
                                    Ok(_) => StepView::Done(Ok(())),
                                }
                            },
                        }
                    },
                }
            },
        },
    }
}

/// The body of an answer in which Slack says that all is well, or what went wrong.
pub fn ensure_ok<'a>(reply: &'a Reply, step: &str) -> (r: Result<&'a Json, String>)
    ensures
        match r {
            Ok(j) => ok_body(reply@, step@) == Ok::<JsonView, Seq<char>>(j@),
            Err(e) => ok_body(reply@, step@) == Err::<JsonView, Seq<char>>(e@),
        },
{
    match reply {
        Reply::Failed(e) => Err(prefixed("request failed: ", e.as_str())),
        Reply::Refused { status, body } => {
            let mut out = text("Slack ");
            out.append(step);
            out.append(" ");
            out.append(status.as_str());
            out.append(": ");
            out.append(body.as_str());
            Err(out)
        },
        Reply::Unreadable(e) => {
            let mut out = text(step);
            out.append(" parse failed: ");
            out.append(e.as_str());
            Err(out)
        },
        Reply::Taken => {
            let mut out = text(step);
            out.append(" parse failed: the body is not JSON");
            Err(out)
        },
        Reply::Json(j) => {
            let fine = match j.at("ok").as_truth() {
                Some(b) => b,
                None => false,
            };
            if fine {
                Ok(j)
            } else {
                let mut out = text("Slack ");
                out.append(step);
                out.append(" failed: ");
                out.append(j.at("error").text_or("unknown"));
                Err(out)
            }
        },
    }
}

/// Where to upload to and under which id, or what went wrong.
pub fn get_upload_url(reply: &Reply) -> (r: Result<(String, String), String>)
    ensures
        match r {
            Ok((url, id)) => upload_target(reply@) == Ok::<(Seq<char>, Seq<char>), Seq<char>>(
                (url@, id@),
            ),
            Err(e) => upload_target(reply@) == Err::<(Seq<char>, Seq<char>), Seq<char>>(e@),
        },
{
    match ensure_ok(reply, "files.getUploadURLExternal") {
        Err(e) => Err(e),
        Ok(body) => match body.at("upload_url").as_text() {
            None => Err(text("missing upload_url in response")),
            Some(url) => match body.at("file_id").as_text() {
                None => Err(text("missing file_id in response")),
                Some(id) => Ok((text(url), text(id))),
            },
        },
    }
}

/// Whether the file was taken, or what went wrong.
pub fn upload_bytes(reply: &Reply) -> (r: Result<(), String>)
    ensures
        match r {
            Ok(_) => upload_taken(reply@) is Ok,
            Err(e) => upload_taken(reply@) == Err::<(), Seq<char>>(e@),
        },
{
    match reply {
        Reply::Failed(e) => Err(prefixed("file upload request failed: ", e.as_str())),
        Reply::Refused { status, body } => {
            let mut out = text("file upload ");
            out.append(status.as_str());
            out.append(": ");
            out.append(body.as_str());
            Err(out)
        },
        _ => Ok(()),
    }
}

/// The body that completes an upload.
pub fn complete_upload(channel: &str, file_id: &str, title: &str, comment: &str) -> (r: Json)
    ensures
        r@ == completion_body(channel@, file_id@, title@, comment@),
{
    let file = object2("id", string(file_id), "title", string(title));
    let members = with_member(no_members_yet(), "files", list(with_item(no_items(), file)));
    let members = with_member(members, "channel_id", string(channel));
    object(with_member(members, "initial_comment", string(comment)))
}

/// Posts `markdown` as a file to the channel, with `comment` beside it. Token and channel come
/// from the environment; `replies` is what Slack has answered so far.
pub fn post_markdown_file(
    token: &Option<String>,
    channel: &Option<String>,
    markdown: &str,
    filename: &str,
    comment: &str,
    replies: &Vec<Reply>,
) -> (r: Step)
    ensures
        r@ == posting(
            opt_view(*token),
            opt_view(*channel),
            markdown@,
            filename@,
            comment@,
            reply_views(replies@),
        ),
{
    let ghost all = reply_views(replies@);
    let token = match token {
        None => {
            return Step::Done(Err(text("SLACK_BOT_TOKEN is not set")));
        },
        Some(t) => t,
    };
    let channel = match channel {
        None => {
            return Step::Done(Err(text("SLACK_CHANNEL_ID is not set")));
        },
        Some(c) => c,
    };
    if replies.len() == 0 {
        return Step::Send(
            Request::GetUploadUrl {
                url: text("https://slack.com/api/files.getUploadURLExternal"),
                token: text(token.as_str()),
                filename: text(filename),
                length: count_text(byte_count(markdown)),
            },
        );
    }
    assert(all[0] == replies@[0]@);
    let (url, id) = match get_upload_url(&replies[0]) {
        Err(e) => {
            return Step::Done(Err(e));
        },
        Ok(target) => target,
    };
    if replies.len() == 1 {
        return Step::Send(Request::Upload { url, content: text(markdown) });
    }
    assert(all[1] == replies@[1]@);
    match upload_bytes(&replies[1]) {
        Err(e) => {
            return Step::Done(Err(e));
        },
        Ok(_) => {},
    }
    if replies.len() == 2 {
        return Step::Send(
            Request::Complete {
                url: text("https://slack.com/api/files.completeUploadExternal"),
                token: text(token.as_str()),
                body: complete_upload(channel.as_str(), id.as_str(), filename, comment),
            },
        );
    }
    assert(all[2] == replies@[2]@);
    match ensure_ok(&replies[2], "files.completeUploadExternal") {
        Err(e) => Step::Done(Err(e)),
        Ok(_) => Step::Done(Ok(())),
    }
}

/// A file counts as posted only where Slack has said `ok` to the first and the last request and
/// has taken the file in between.
pub proof fn posted_means_confirmed(
    token: Option<Seq<char>>,
    channel: Option<Seq<char>>,
    markdown: Seq<char>,
    filename: Seq<char>,
    comment: Seq<char>,
    replies: Seq<ReplyView>,
)
    requires
        posting(token, channel, markdown, filename, comment, replies) == StepView::Done(Ok(())),
    ensures
        replies.len() >= 3,
        replies[0] matches ReplyView::Json(j) && j.at("ok"@).truth() == Some(true),
        !(replies[1] is Failed) && !(replies[1] is Refused),
        replies[2] matches ReplyView::Json(j) && j.at("ok"@).truth() == Some(true),
{
}

} // verus!
