//! Handling of failures surfaced by the hosting command-dispatch layer. A
//! permission denial intercepted there is a distinct failure class: it is
//! answered publicly, naming the missing capabilities, and logged. Every
//! other dispatch failure is only logged; no per-invocation failure ever
//! propagates out of the dispatch loop.

use vstd::prelude::*;

use crate::reply::{failure_response_reply, footer_text_spec, BotReply, FAILURE_COLOUR};
use crate::text::{join_with_spaces, joined_with_spaces};

verus! {

/// A failure the dispatch layer intercepts before a handler runs.
pub enum FrameworkFailure {
    /// The bot lacks the named capabilities in the invoking guild.
    MissingBotPermissions(Vec<String>),
    /// Any other dispatch failure, with its description.
    Other(String),
}

/// What the dispatch loop does with an intercepted failure.
pub enum ErrorDisposition {
    /// Send this response to the invoking user (and log the failure).
    Respond(BotReply),
    /// Only log the failure.
    LogOnly,
}

/// The reply text naming the capabilities the bot is missing.
pub open spec fn missing_permissions_body_spec(names: Seq<Seq<char>>) -> Seq<char> {
    "The bot is missing permissions! Required additional permissions: `"@ + joined_with_spaces(
        names,
    ) + "`"@
}

/// Decide what to do with a failure intercepted by the dispatch layer: a
/// permission denial is answered publicly with a failure-styled reply that
/// names the missing capabilities; anything else is only logged.
pub fn dispose_framework_error(err: &FrameworkFailure) -> (d: ErrorDisposition)
    ensures
        (err matches FrameworkFailure::MissingBotPermissions(names) ==> (d
            matches ErrorDisposition::Respond(r) && r.reply_to_invocation && !r.ephemeral
            && r.embed.colour == Some(FAILURE_COLOUR) && r.embed.footer@ == footer_text_spec() && (
        r.embed.description matches Some(b) && b@ == missing_permissions_body_spec(
            names@.map_values(|n: String| n@),
        )))),
        (err matches FrameworkFailure::Other(_) ==> d matches ErrorDisposition::LogOnly),
{
    match err {
        FrameworkFailure::MissingBotPermissions(names) => {
            let mut body = String::from_str(
                "The bot is missing permissions! Required additional permissions: `",
            );
            let joined = join_with_spaces(names);
            body.append(joined.as_str());
            body.append("`");
            let mut r = failure_response_reply(body);
            r.ephemeral = false;
            ErrorDisposition::Respond(r)
        },
        FrameworkFailure::Other(_) => ErrorDisposition::LogOnly,
    }
}

} // verus!
