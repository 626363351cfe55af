//! The reply formatter: message permalinks, styled embeds with the standard
//! footer, and the response payloads the pin action handler sends. Each
//! outcome maps deterministically to a visibility and a colour cue; only a
//! success is visible to the whole channel.

use vstd::prelude::*;

use crate::pin::{Outcome, PinAction};
use crate::text::decimal_of;
use crate::text::u64_to_decimal;

verus! {

/// The colour cue for a successful action.
pub const SUCCESS_COLOUR: u32 = 0x57F287;

/// The colour cue for a failed action.
pub const FAILURE_COLOUR: u32 = 0xED4245;

/// The fixed footer identifying this bot and its version.
pub open spec fn footer_text_spec() -> Seq<char> {
    "low-noise-bot, version 0.1.0"@
}

/// A styled reply embed: an optional colour cue, the standard footer, and
/// an optional description carrying the reply text.
pub struct Embed {
    pub colour: Option<u32>,
    pub footer: String,
    pub description: Option<String>,
}

impl Embed {
    /// Attach a description to this embed.
    pub fn description(self, body: String) -> (e: Embed)
        ensures
            e.colour == self.colour,
            e.footer == self.footer,
            e.description == Some(body),
    {
        Embed { colour: self.colour, footer: self.footer, description: Some(body) }
    }
}

/// An embed with the standard footer and no colour cue.
pub fn generic_embed() -> (e: Embed)
    ensures
        e.colour is None,
        e.footer@ == footer_text_spec(),
        e.description is None,
{
    Embed {
        colour: None,
        footer: String::from_str("low-noise-bot, version 0.1.0"),
        description: None,
    }
}

/// An embed with the standard footer and the success colour cue.
pub fn success_embed() -> (e: Embed)
    ensures
        e.colour == Some(SUCCESS_COLOUR),
        e.footer@ == footer_text_spec(),
        e.description is None,
{
    let e = generic_embed();
    Embed { colour: Some(SUCCESS_COLOUR), footer: e.footer, description: e.description }
}

/// An embed with the standard footer and the failure colour cue.
pub fn failure_embed() -> (e: Embed)
    ensures
        e.colour == Some(FAILURE_COLOUR),
        e.footer@ == footer_text_spec(),
        e.description is None,
{
    let e = generic_embed();
    Embed { colour: Some(FAILURE_COLOUR), footer: e.footer, description: e.description }
}

/// A full response payload: whether it replies to the invocation, whether
/// only the invoker sees it, and the styled embed.
pub struct BotReply {
    pub reply_to_invocation: bool,
    pub ephemeral: bool,
    pub embed: Embed,
}

/// A success-styled response, visible to the whole channel.
pub fn success_response_reply(body: String) -> (r: BotReply)
    ensures
        r.reply_to_invocation,
        !r.ephemeral,
        r.embed.colour == Some(SUCCESS_COLOUR),
        r.embed.footer@ == footer_text_spec(),
        r.embed.description == Some(body),
{
    BotReply { reply_to_invocation: true, ephemeral: false, embed: success_embed().description(body) }
}

/// A failure-styled response, visible only to the invoker.
pub fn failure_response_reply(body: String) -> (r: BotReply)
    ensures
        r.reply_to_invocation,
        r.ephemeral,
        r.embed.colour == Some(FAILURE_COLOUR),
        r.embed.footer@ == footer_text_spec(),
        r.embed.description == Some(body),
{
    BotReply { reply_to_invocation: true, ephemeral: true, embed: failure_embed().description(body) }
}

/// The permalink of a message: guild segment (or `@me` outside a guild),
/// channel identifier and message identifier.
pub open spec fn message_link_spec(guild: Option<u64>, channel: u64, message: u64) -> Seq<char> {
    "https://discord.com/channels/"@ + (match guild {
        Some(g) => decimal_of(g as nat),
        None => "@me"@,
    }) + "/"@ + decimal_of(channel as nat) + "/"@ + decimal_of(message as nat)
}

/// Build the permalink of a message.
pub fn message_link(guild: &Option<u64>, channel: u64, message: u64) -> (s: String)
    ensures
        s@ == message_link_spec(*guild, channel, message),
{
    let mut s = String::from_str("https://discord.com/channels/");
    match guild {
        Some(g) => {
            let d = u64_to_decimal(*g);
            s.append(d.as_str());
        },
        None => {
            s.append("@me");
        },
    }
    s.append("/");
    let c = u64_to_decimal(channel);
    s.append(c.as_str());
    s.append("/");
    let m = u64_to_decimal(message);
    s.append(m.as_str());
    s
}

/// Whether a reply for this outcome is visible only to the invoker: every
/// outcome but a success is.
pub open spec fn outcome_ephemeral(o: Outcome) -> bool {
    !(o matches Outcome::Success)
}

/// Whether a reply for this outcome carries the success colour cue: a
/// completed action or an idempotent no-op does, a refusal or failure
/// does not.
pub open spec fn outcome_success_styled(o: Outcome) -> bool {
    o matches Outcome::Success || o matches Outcome::AlreadyInDesiredState
}

/// The reply text for one outcome, around the message permalink.
pub open spec fn reply_body_spec(action: PinAction, outcome: Outcome, link: Seq<char>) -> Seq<
    char,
> {
    match outcome {
        Outcome::AlreadyInDesiredState => match action {
            PinAction::Pin => "[That message]("@ + link + ") is already pinned!"@,
            PinAction::Unpin => "[That message]("@ + link + ") is not pinned!"@,
        },
        Outcome::CapacityExceeded => "Cannot pin [that message]("@ + link
            + "): the channel is at the pinned-message capacity!"@,
        Outcome::Success => match action {
            PinAction::Pin => "Pinned [message]("@ + link + ")"@,
            PinAction::Unpin => "Unpinned [message]("@ + link + ")"@,
        },
        Outcome::Failure(_) => match action {
            PinAction::Pin => "Failed to pin [message]("@ + link + ")!"@,
            PinAction::Unpin => "Failed to unpin [message]("@ + link + ")!"@,
        },
    }
}

/// Build the reply text for one outcome.
fn reply_body(action: &PinAction, outcome: &Outcome, link: &str) -> (s: String)
    ensures
        s@ == reply_body_spec(*action, *outcome, link@),
{
    match outcome {
        Outcome::AlreadyInDesiredState => {
            let mut s = String::from_str("[That message](");
            s.append(link);
            match action {
                PinAction::Pin => s.append(") is already pinned!"),
                PinAction::Unpin => s.append(") is not pinned!"),
            }
            s
        },
        Outcome::CapacityExceeded => {
            let mut s = String::from_str("Cannot pin [that message](");
            s.append(link);
            s.append("): the channel is at the pinned-message capacity!");
            s
        },
        Outcome::Success => {
            let mut s = match action {
                PinAction::Pin => String::from_str("Pinned [message]("),
                PinAction::Unpin => String::from_str("Unpinned [message]("),
            };
            s.append(link);
            s.append(")");
            s
        },
        Outcome::Failure(_) => {
            let mut s = match action {
                PinAction::Pin => String::from_str("Failed to pin [message]("),
                PinAction::Unpin => String::from_str("Failed to unpin [message]("),
            };
            s.append(link);
            s.append(")!");
            s
        },
    }
}

/// The response for one invocation's outcome: the mapped visibility, the
/// mapped colour cue, the standard footer, and the outcome's reply text
/// around the message permalink.
pub fn reply_for_outcome(action: &PinAction, outcome: &Outcome, link: &str) -> (r: BotReply)
    ensures
        r.reply_to_invocation,
        r.ephemeral == outcome_ephemeral(*outcome),
        outcome_success_styled(*outcome) ==> r.embed.colour == Some(SUCCESS_COLOUR),
        !outcome_success_styled(*outcome) ==> r.embed.colour == Some(FAILURE_COLOUR),
        r.embed.footer@ == footer_text_spec(),
        (r.embed.description matches Some(b) && b@ == reply_body_spec(*action, *outcome, link@)),
{
    let body = reply_body(action, outcome, link);
    let styled_success = match outcome {
        Outcome::Success => true,
        Outcome::AlreadyInDesiredState => true,
        Outcome::CapacityExceeded => false,
        Outcome::Failure(_) => false,
    };
    let ephemeral = match outcome {
        Outcome::Success => false,
        _ => true,
    };
    let embed = if styled_success {
        success_embed().description(body)
    } else {
        failure_embed().description(body)
    };
    BotReply { reply_to_invocation: true, ephemeral, embed }
}

} // verus!
