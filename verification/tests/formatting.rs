use low_noise_bot::dispatch::{dispose_framework_error, ErrorDisposition, FrameworkFailure};
use low_noise_bot::pin::{Outcome, PinAction};
use low_noise_bot::reply::{
    failure_embed, failure_response_reply, generic_embed, message_link, reply_for_outcome,
    success_embed, success_response_reply, FAILURE_COLOUR, SUCCESS_COLOUR,
};
use low_noise_bot::text::{join_with_spaces, u64_to_decimal};

#[test]
fn decimal_rendering_is_exact() {
    assert_eq!(u64_to_decimal(0), "0");
    assert_eq!(u64_to_decimal(7), "7");
    assert_eq!(u64_to_decimal(50), "50");
    assert_eq!(u64_to_decimal(40960), "40960");
    assert_eq!(u64_to_decimal(u64::MAX), "18446744073709551615");
}

#[test]
fn joining_names_uses_single_spaces() {
    assert_eq!(join_with_spaces(&vec![]), "");
    assert_eq!(join_with_spaces(&vec![String::from("A")]), "A");
    assert_eq!(
        join_with_spaces(&vec![String::from("A"), String::from("B"), String::from("C")]),
        "A B C"
    );
}

#[test]
fn permalinks_name_guild_channel_and_message() {
    assert_eq!(
        message_link(&Some(12), 34, 56),
        "https://discord.com/channels/12/34/56"
    );
    assert_eq!(
        message_link(&None, 34, 56),
        "https://discord.com/channels/@me/34/56"
    );
}

#[test]
fn embeds_carry_the_standard_footer_and_colours() {
    let generic = generic_embed();
    assert_eq!(generic.footer, "low-noise-bot, version 0.1.0");
    assert_eq!(generic.colour, None);
    assert_eq!(success_embed().colour, Some(SUCCESS_COLOUR));
    assert_eq!(failure_embed().colour, Some(FAILURE_COLOUR));
}

#[test]
fn response_builders_set_visibility_and_style() {
    let success = success_response_reply(String::from("done"));
    assert!(success.reply_to_invocation);
    assert!(!success.ephemeral);
    assert_eq!(success.embed.colour, Some(SUCCESS_COLOUR));
    assert_eq!(success.embed.description.as_deref(), Some("done"));

    let failure = failure_response_reply(String::from("sorry"));
    assert!(failure.reply_to_invocation);
    assert!(failure.ephemeral);
    assert_eq!(failure.embed.colour, Some(FAILURE_COLOUR));
    assert_eq!(failure.embed.description.as_deref(), Some("sorry"));
}

#[test]
fn only_a_success_reply_is_public() {
    let link = "https://discord.com/channels/1/2/3";
    let success = reply_for_outcome(&PinAction::Pin, &Outcome::Success, link);
    assert!(!success.ephemeral);
    assert_eq!(success.embed.colour, Some(SUCCESS_COLOUR));
    assert_eq!(
        success.embed.description.as_deref(),
        Some("Pinned [message](https://discord.com/channels/1/2/3)")
    );

    let already = reply_for_outcome(&PinAction::Pin, &Outcome::AlreadyInDesiredState, link);
    assert!(already.ephemeral);
    assert_eq!(already.embed.colour, Some(SUCCESS_COLOUR));
    assert_eq!(
        already.embed.description.as_deref(),
        Some("[That message](https://discord.com/channels/1/2/3) is already pinned!")
    );

    let capacity = reply_for_outcome(&PinAction::Pin, &Outcome::CapacityExceeded, link);
    assert!(capacity.ephemeral);
    assert_eq!(capacity.embed.colour, Some(FAILURE_COLOUR));

    let failure = reply_for_outcome(
        &PinAction::Unpin,
        &Outcome::Failure(String::from("timeout")),
        link,
    );
    assert!(failure.ephemeral);
    assert_eq!(failure.embed.colour, Some(FAILURE_COLOUR));
    assert_eq!(
        failure.embed.description.as_deref(),
        Some("Failed to unpin [message](https://discord.com/channels/1/2/3)!")
    );
}

#[test]
fn a_permission_denial_is_answered_publicly_with_the_missing_names() {
    let failure = FrameworkFailure::MissingBotPermissions(vec![
        String::from("Manage Messages"),
        String::from("View Channel"),
    ]);
    match dispose_framework_error(&failure) {
        ErrorDisposition::Respond(reply) => {
            assert!(!reply.ephemeral);
            assert_eq!(reply.embed.colour, Some(FAILURE_COLOUR));
            assert_eq!(
                reply.embed.description.as_deref(),
                Some("The bot is missing permissions! Required additional permissions: `Manage Messages View Channel`")
            );
        }
        ErrorDisposition::LogOnly => panic!("a permission denial must be answered"),
    }
}

#[test]
fn other_dispatch_failures_are_only_logged() {
    let failure = FrameworkFailure::Other(String::from("unexpected interaction"));
    assert!(matches!(
        dispose_framework_error(&failure),
        ErrorDisposition::LogOnly
    ));
}
