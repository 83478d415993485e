//! Log lines: one JSON object per line, tagged with a random identifier.
//!
//! Fields are written as given, without escaping.
use vstd::prelude::*;
use vstd::string::*;

use rand::Rng;

verus! {

/// Number of characters of a log line's random identifier.
pub const LOG_ID_LEN: usize = 7;

pub open spec fn is_ascii_alphanumeric(c: char) -> bool {
    ||| ('A' as u32 <= c as u32 && c as u32 <= 'Z' as u32)
    ||| ('a' as u32 <= c as u32 && c as u32 <= 'z' as u32)
    ||| ('0' as u32 <= c as u32 && c as u32 <= '9' as u32)
}

pub open spec fn is_log_id(id: Seq<char>) -> bool {
    &&& id.len() == LOG_ID_LEN
    &&& forall|i: int| 0 <= i < id.len() ==> is_ascii_alphanumeric(#[trigger] id[i])
}

/// The text of a log line.
pub open spec fn log_line(
    host: Seq<char>,
    id: Seq<char>,
    context: Seq<char>,
    session: Seq<char>,
    msg: Seq<char>,
) -> Seq<char> {
    "{\"logID\":\"edgeml"@ + host + "\",\"source\":\""@ + id + "\",\"context\":\""@ + context
        + "\",\"session\":\""@ + session + "\",\"msg\":\""@ + msg + "\"}"@
}

/// Relies on rand's `thread_rng` sampled through `Alphanumeric`, which
/// yields only the 62 ASCII letters and digits, one character per sample.
#[verifier::external_body]
fn random_alphanumeric(len: usize) -> (r: String)
    ensures
        r@.len() == len,
        forall|i: int| 0 <= i < r@.len() ==> is_ascii_alphanumeric(#[trigger] r@[i]),
{
    rand::thread_rng().sample_iter(&rand::distributions::Alphanumeric).take(len).map(char::from).collect()
}

/// Writes the log line for the given host, identifier and fields.
pub fn format_log_line(host: &str, id: &str, context: &str, session: &str, msg: &str) -> (r: String)
    ensures
        r@ == log_line(host@, id@, context@, session@, msg@),
{
    let mut line = String::from_str("{\"logID\":\"edgeml");
    line.append(host);
    line.append("\",\"source\":\"");
    line.append(id);
    line.append("\",\"context\":\"");
    line.append(context);
    line.append("\",\"session\":\"");
    line.append(session);
    line.append("\",\"msg\":\"");
    line.append(msg);
    line.append("\"}");
    line
}

/// The log line for a message of the given context and session, sent from
/// the given host, under a fresh random identifier.
pub fn emit_log(context: &str, session: &str, msg: &str, host: &str) -> (r: String)
    ensures
        exists|id: Seq<char>| is_log_id(id) && r@ == log_line(host@, id, context@, session@, msg@),
{
    let id = random_alphanumeric(LOG_ID_LEN);
    let line = format_log_line(host, id.as_str(), context, session, msg);
    assert(is_log_id(id@));
    line
}

} // verus!
