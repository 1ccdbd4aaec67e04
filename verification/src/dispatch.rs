//! The command dispatcher: classifies a message body by its marker
//! prefix and produces the reply, given the outcome of the ticketing
//! fetch where one is needed.
use vstd::prelude::*;
use crate::issues::{Issues, issues_message};
use crate::text::{has_prefix, str_has_prefix};

verus! {

/// A command derived from a message body that starts with the marker
/// character.
#[derive(Debug, Clone, Copy, PartialEq, Eq, Structural)]
pub enum Command {
    Ping,
    ListIssues,
    Unknown,
}

/// The dual-format reply handed back to the network-send collaborator.
/// When `html` is present it carries the same information as `plain`.
#[derive(Debug, Clone)]
pub struct Reply {
    pub plain: String,
    pub html: Option<String>,
}

/// The mathematical shape of a reply: its bodies as character
/// sequences.
pub struct ReplyModel {
    pub plain: Seq<char>,
    pub html: Option<Seq<char>>,
}

/// The model of an executable reply.
pub open spec fn reply_model(r: Reply) -> ReplyModel {
    ReplyModel {
        plain: r.plain@,
        html: match r.html {
            Some(h) => Some(h@),
            None => None,
        },
    }
}

/// The model of an optional executable reply.
pub open spec fn reply_model_opt(r: Option<Reply>) -> Option<ReplyModel> {
    match r {
        Some(rep) => Some(reply_model(rep)),
        None => None,
    }
}

/// The command a message body stands for: `None` when the body does
/// not begin with the marker character, the first matching prefix
/// otherwise, and `Unknown` for any other marked body.
pub open spec fn parse_command_spec(body: Seq<char>) -> Option<Command> {
    if body.len() == 0 || body[0] != '!' {
        None
    } else if has_prefix(body, "!ping"@) {
        Some(Command::Ping)
    } else if has_prefix(body, "!issues"@) {
        Some(Command::ListIssues)
    } else {
        Some(Command::Unknown)
    }
}

/// The fixed reply body for a failed ticketing fetch, with the error
/// detail embedded in a code block.
pub open spec fn error_reply_text(e: Seq<char>) -> Seq<char> {
    "Failed to fetch issues!<br>Error:<br><pre><code>"@ + e + "</code></pre>"@
}

/// The reply owed for `body`, given the outcome of the ticketing
/// fetch. A body without the marker yields no reply; `!issues` with no
/// fetch outcome supplied yields none either, since the reply would
/// have to be computed from one.
pub open spec fn dispatch_spec(
    body: Seq<char>,
    fetch: Option<Result<Issues, String>>,
    base_url: Seq<char>,
) -> Option<ReplyModel> {
    match parse_command_spec(body) {
        None => None,
        Some(Command::Ping) => Some(ReplyModel { plain: "Pong!"@, html: None }),
        Some(Command::Unknown) => Some(
            ReplyModel { plain: "I don't know this command!"@, html: None },
        ),
        Some(Command::ListIssues) => match fetch {
            None => None,
            Some(Ok(issues)) => if issues.issues@.len() == 0 {
                Some(ReplyModel { plain: "Issues not found!"@, html: None })
            } else {
                Some(
                    ReplyModel {
                        plain: issues_message(issues, base_url),
                        html: Some(issues_message(issues, base_url)),
                    },
                )
            },
            Some(Err(e)) => Some(
                ReplyModel { plain: error_reply_text(e@), html: Some(error_reply_text(e@)) },
            ),
        },
    }
}

/// The value a borrowed fetch outcome stands for.
pub open spec fn fetch_view(fetch: Option<&Result<Issues, String>>) -> Option<
    Result<Issues, String>,
> {
    match fetch {
        Some(r) => Some(*r),
        None => None,
    }
}

/// Classifies a message body.
pub fn parse_command(body: &str) -> (r: Option<Command>)
    ensures
        r == parse_command_spec(body@),
{
    if body.unicode_len() == 0 {
        return None;
    }
    if body.get_char(0) != '!' {
        return None;
    }
    if str_has_prefix(body, "!ping") {
        Some(Command::Ping)
    } else if str_has_prefix(body, "!issues") {
        Some(Command::ListIssues)
    } else {
        Some(Command::Unknown)
    }
}

/// Says whether handling `body` calls for a ticketing fetch before the
/// reply can be formed.
pub fn needs_issue_fetch(body: &str) -> (r: bool)
    ensures
        r == (parse_command_spec(body@) == Some(Command::ListIssues)),
{
    match parse_command(body) {
        Some(Command::ListIssues) => true,
        _ => false,
    }
}

/// Produces the reply owed for `body`: the canned replies for `!ping`,
/// an unknown command and a missing marker, and the issues branch
/// formed from the supplied fetch outcome.
pub fn dispatch(body: &str, fetch: Option<&Result<Issues, String>>, base_url: &str) -> (r: Option<
    Reply,
>)
    ensures
        reply_model_opt(r) == dispatch_spec(body@, fetch_view(fetch), base_url@),
{
    match parse_command(body) {
        None => None,
        Some(Command::Ping) => Some(Reply { plain: String::from_str("Pong!"), html: None }),
        Some(Command::Unknown) => Some(
            Reply { plain: String::from_str("I don't know this command!"), html: None },
        ),
        Some(Command::ListIssues) => match fetch {
            None => None,
            Some(outcome) => match outcome {
                Ok(issues) => {
                    if issues.issues.len() == 0 {
                        Some(Reply { plain: String::from_str("Issues not found!"), html: None })
                    } else {
                        let msg = issues.as_message(base_url);
                        let msg_html = msg.clone();
                        Some(Reply { plain: msg, html: Some(msg_html) })
                    }
                },
                Err(e) => {
                    let mut m = String::from_str(
                        "Failed to fetch issues!<br>Error:<br><pre><code>",
                    );
                    m.append(e.as_str());
                    m.append("</code></pre>");
                    let m_html = m.clone();
                    Some(Reply { plain: m, html: Some(m_html) })
                },
            },
        },
    }
}

/// Law: a message body that does not start with the marker character
/// produces no reply at all, whatever the ticketing collaborator would
/// have answered.
pub proof fn lemma_no_marker_no_reply(
    body: Seq<char>,
    fetch: Option<Result<Issues, String>>,
    base_url: Seq<char>,
)
    requires
        body.len() == 0 || body[0] != '!',
    ensures
        dispatch_spec(body, fetch, base_url) is None,
{
}

/// Law: an empty issue list short-circuits to the fixed not-found
/// reply; the list renderer does not contribute to the reply.
pub proof fn lemma_empty_issue_list_short_circuit(
    body: Seq<char>,
    issues: Issues,
    base_url: Seq<char>,
)
    requires
        parse_command_spec(body) == Some(Command::ListIssues),
        issues.issues@.len() == 0,
    ensures
        dispatch_spec(body, Some(Ok(issues)), base_url) == Some(
            (ReplyModel { plain: "Issues not found!"@, html: None }),
        ),
{
}

/// Law: dispatching is a pure function of the message body, the fetch
/// outcome and the ticketing base URL: equal inputs give equal
/// replies.
pub proof fn lemma_dispatch_deterministic(
    body1: Seq<char>,
    fetch1: Option<Result<Issues, String>>,
    base_url1: Seq<char>,
    body2: Seq<char>,
    fetch2: Option<Result<Issues, String>>,
    base_url2: Seq<char>,
)
    requires
        body1 == body2,
        fetch1 == fetch2,
        base_url1 == base_url2,
    ensures
        dispatch_spec(body1, fetch1, base_url1) == dispatch_spec(body2, fetch2, base_url2),
{
}

} // verus!
