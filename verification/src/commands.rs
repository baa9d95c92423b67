//! Classification of inbound chat messages.
//!
//! A message is first held against the filtering policy; a message that
//! passes is matched against the command prefixes, the plural forms before
//! the singular ones, since `!meetings` also begins with `!meeting`.

use vstd::prelude::*;

use crate::config::{spec_should_ignore, should_ignore_user, BotFilteringConfig, FilterView,
    ReminderType};
use crate::text::{str_starts_with, text_has_prefix};

verus! {

/// What to do with an inbound message.
#[derive(Debug, Clone, PartialEq, Eq, Structural)]
pub enum MessageAction {
    /// The sender is filtered out: no response, no side effect.
    Ignore,
    /// A query command: answer with the given query kind.
    Respond(ReminderType),
    /// No command matched: no response.
    NoReply,
}

/// The classification rule: a filtered sender is ignored; otherwise
/// `!meetings` and `!events` ask for all upcoming events, `!meeting` and
/// `!event` for the next one; anything else draws no reply.
pub open spec fn spec_classify(
    body: Seq<char>,
    sender: Seq<char>,
    bot: Seq<char>,
    policy: FilterView,
) -> MessageAction {
    if spec_should_ignore(sender, bot, policy) {
        MessageAction::Ignore
    } else if text_has_prefix(body, "!meetings"@) || text_has_prefix(body, "!events"@) {
        MessageAction::Respond(ReminderType::AllUpcomingMeetings)
    } else if text_has_prefix(body, "!meeting"@) || text_has_prefix(body, "!event"@) {
        MessageAction::Respond(ReminderType::NextMeeting)
    } else {
        MessageAction::NoReply
    }
}

/// Classifies one inbound message body from `sender`: exactly
/// [`spec_classify`].
pub fn classify_message(
    body: &str,
    sender: &str,
    bot_user_id: &str,
    policy: &BotFilteringConfig,
) -> (r: MessageAction)
    ensures
        r == spec_classify(body@, sender@, bot_user_id@, policy@),
{
    if should_ignore_user(sender, bot_user_id, policy) {
        MessageAction::Ignore
    } else if str_starts_with(body, "!meetings") || str_starts_with(body, "!events") {
        MessageAction::Respond(ReminderType::AllUpcomingMeetings)
    } else if str_starts_with(body, "!meeting") || str_starts_with(body, "!event") {
        MessageAction::Respond(ReminderType::NextMeeting)
    } else {
        MessageAction::NoReply
    }
}

} // verus!
