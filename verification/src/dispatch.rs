//! The message dispatcher: a string-equality branch over four literal
//! commands, producing at most one outbound reply per inbound message.
//!
//! The gateway loop outside this crate calls [`plan_message`] on each inbound
//! message; when the answer is [`Action::FetchCat`] it performs the image
//! fetch and hands the outcome to [`cat_action`]. [`handle_message_at`] is
//! the same decision as one function of the message, the clock and the fetch
//! outcome.

use vstd::prelude::*;

use crate::json::JsonError;
use crate::reply::{Reply, hello_reply, is_hello_reply, is_text_reply, text_reply};

verus! {

/// The command that greets with a demonstration embed.
pub open spec fn hello_cmd() -> Seq<char> {
    "!hello"@
}

/// The command answered with "Pong!".
pub open spec fn ping_cmd() -> Seq<char> {
    "!ping"@
}

/// The command answered with a fetched cat-image URL.
pub open spec fn cat_cmd() -> Seq<char> {
    "!cat"@
}

/// The command answered with the usage text.
pub open spec fn help_cmd() -> Seq<char> {
    "!help"@
}

/// Whether the message content is one of the four recognized commands.
pub open spec fn is_recognized(content: Seq<char>) -> bool {
    ||| content == hello_cmd()
    ||| content == ping_cmd()
    ||| content == cat_cmd()
    ||| content == help_cmd()
}

/// The text of the ping reply.
pub open spec fn pong_text() -> Seq<char> {
    "Pong!"@
}

/// The text of the usage reply.
pub open spec fn help_text() -> Seq<char> {
    "
Work in Progress
Implemented Commands
    !help <- This message
    !cat <- Gives a random cat gif
    !ping <- Returns \"Pong!\"
    !hello <- Debug purposes
                "@
}

/// What the dispatcher decides for one inbound message: stay silent, send
/// one reply, or fetch a cat image first.
pub enum Action {
    Silent,
    Send(Reply),
    FetchCat,
}

/// Content equality between two string slices, stated over their views.
pub(crate) fn str_eq(a: &str, b: &str) -> (r: bool)
    ensures
        r == (a@ == b@),
{
    let oa: String = a.to_owned();
    let ob: String = b.to_owned();
    oa == ob
}

/// The four command strings are pairwise distinct.
proof fn lemma_commands_distinct()
    ensures
        hello_cmd() != ping_cmd(),
        hello_cmd() != cat_cmd(),
        hello_cmd() != help_cmd(),
        ping_cmd() != cat_cmd(),
        ping_cmd() != help_cmd(),
        cat_cmd() != help_cmd(),
{
    reveal_strlit("!hello");
    reveal_strlit("!ping");
    reveal_strlit("!cat");
    reveal_strlit("!help");
    assert(hello_cmd().len() == 6);
    assert(ping_cmd().len() == 5);
    assert(cat_cmd().len() == 4);
    assert(help_cmd().len() == 5);
    assert(ping_cmd()[1] == 'p');
    assert(help_cmd()[1] == 'h');
}

/// Decides what one inbound message leads to. Each recognized command gets
/// its fixed reply (the cat command first asks for a fetch); everything else
/// stays silent.
pub fn plan_message(content: &str, now_unix: i64) -> (a: Action)
    ensures
        content@ == hello_cmd() ==> (a matches Action::Send(r) && is_hello_reply(r, now_unix)),
        content@ == ping_cmd() ==> (a matches Action::Send(r) && is_text_reply(r, pong_text())),
        content@ == cat_cmd() ==> a is FetchCat,
        content@ == help_cmd() ==> (a matches Action::Send(r) && is_text_reply(r, help_text())),
        !is_recognized(content@) ==> a is Silent,
{
    proof {
        lemma_commands_distinct();
    }
    if str_eq(content, "!hello") {
        Action::Send(hello_reply(now_unix))
    } else if str_eq(content, "!ping") {
        Action::Send(text_reply("Pong!".to_owned()))
    } else if str_eq(content, "!cat") {
        Action::FetchCat
    } else if str_eq(content, "!help") {
        Action::Send(text_reply(
            "
Work in Progress
Implemented Commands
    !help <- This message
    !cat <- Gives a random cat gif
    !ping <- Returns \"Pong!\"
    !hello <- Debug purposes
                ".to_owned(),
        ))
    } else {
        Action::Silent
    }
}

/// Decides what the cat command sends once the fetch came back: the fetched
/// URL as a bare text reply, or nothing when the fetch failed.
pub fn cat_action(fetch: Result<String, JsonError>) -> (a: Action)
    ensures
        fetch matches Ok(url) ==> (a matches Action::Send(r) && is_text_reply(r, url@)),
        fetch is Err ==> a is Silent,
{
    match fetch {
        Ok(url) => Action::Send(text_reply(url)),
        Err(_) => Action::Silent,
    }
}

/// The outbound replies one inbound message leads to, given the clock
/// reading and the outcome the image fetch has (the outcome is consulted
/// only for the cat command).
pub open spec fn expected_replies(
    content: Seq<char>,
    now_unix: i64,
    cat_fetch: Result<String, JsonError>,
    rs: Seq<Reply>,
) -> bool {
    &&& content == hello_cmd() ==> rs.len() == 1 && is_hello_reply(rs[0], now_unix)
    &&& content == ping_cmd() ==> rs.len() == 1 && is_text_reply(rs[0], pong_text())
    &&& content == cat_cmd() ==> match cat_fetch {
        Ok(url) => rs.len() == 1 && is_text_reply(rs[0], url@),
        Err(_) => rs.len() == 0,
    }
    &&& content == help_cmd() ==> rs.len() == 1 && is_text_reply(rs[0], help_text())
    &&& !is_recognized(content) ==> rs.len() == 0
}

/// Handles one inbound message at the given time: the replies to send, in
/// order. `cat_fetch` is the outcome the image fetch has; it is consulted
/// only for the cat command.
pub fn handle_message_at(
    content: &str,
    now_unix: i64,
    cat_fetch: Result<String, JsonError>,
) -> (rs: Vec<Reply>)
    ensures
        expected_replies(content@, now_unix, cat_fetch, rs@),
{
    let mut rs: Vec<Reply> = Vec::new();
    match plan_message(content, now_unix) {
        Action::Silent => {},
        Action::Send(r) => rs.push(r),
        Action::FetchCat => match cat_action(cat_fetch) {
            Action::Send(r) => rs.push(r),
            _ => {},
        },
    }
    rs
}

/// Relies on chrono::Utc::now: the current wall-clock time, as Unix seconds.
#[verifier::external_body]
fn utc_now_unix() -> i64 {
    chrono::Utc::now().timestamp()
}

/// Handles one inbound message at the current wall-clock time.
pub fn handle_message(content: &str, cat_fetch: Result<String, JsonError>) -> (rs: Vec<Reply>)
    ensures
        exists|t: i64| expected_replies(content@, t, cat_fetch, rs@),
{
    let now = utc_now_unix();
    handle_message_at(content, now, cat_fetch)
}

/// Law: every recognized command leads to exactly one outbound reply, with
/// its fixed content; for the cat command this holds provided the image
/// fetch succeeded, and the reply then carries the fetched URL.
pub proof fn lemma_recognized_one_reply(
    content: Seq<char>,
    now_unix: i64,
    cat_fetch: Result<String, JsonError>,
    rs: Seq<Reply>,
)
    requires
        is_recognized(content),
        content == cat_cmd() ==> cat_fetch is Ok,
        expected_replies(content, now_unix, cat_fetch, rs),
    ensures
        rs.len() == 1,
        content == hello_cmd() ==> is_hello_reply(rs[0], now_unix),
        content == ping_cmd() ==> is_text_reply(rs[0], pong_text()),
        content == cat_cmd() ==> is_text_reply(rs[0], cat_fetch->Ok_0@),
        content == help_cmd() ==> is_text_reply(rs[0], help_text()),
{
}

/// Law: any other message content leads to no outbound reply at all.
pub proof fn lemma_unrecognized_silent(
    content: Seq<char>,
    now_unix: i64,
    cat_fetch: Result<String, JsonError>,
    rs: Seq<Reply>,
)
    requires
        !is_recognized(content),
        expected_replies(content, now_unix, cat_fetch, rs),
    ensures
        rs.len() == 0,
{
}

} // verus!
