//! The mention decoration: a line that names the invoking user, in bold
//! and made safe, and mentions the channel. A handler opts in to it; the
//! renderer adds it to the handler's plain-text reply.

use vstd::prelude::*;
use crate::text::decimal;

verus! {

/// Who invoked a command, and under which command name.
#[derive(Debug, Clone, PartialEq, Eq)]
pub struct Mention {
    pub author_name: String,
    pub command: String,
}

/// What a [`Mention`] holds, as plain sequences.
pub struct MentionView {
    pub author_name: Seq<char>,
    pub command: Seq<char>,
}

impl View for Mention {
    type V = MentionView;

    open spec fn view(&self) -> MentionView {
        MentionView { author_name: self.author_name@, command: self.command@ }
    }
}

/// The text that `serenity::utils::MessageBuilder::push_bold_safe` adds to
/// an empty builder for `text`: the text in bold, with invite links,
/// direction overrides, mass mentions and bold markers neutralised.
pub uninterp spec fn bold_safe(text: Seq<char>) -> Seq<char>;

/// Calls `serenity::utils::MessageBuilder::push_bold_safe` on an empty
/// builder and returns what was built. The function depends on its
/// argument alone; its result is named, not spelled out.
#[verifier::external_body]
fn push_bold_safe(text: &str) -> (r: String)
    ensures
        r@ == bold_safe(text@),
{
    serenity::utils::MessageBuilder::new().push_bold_safe(text).build()
}

/// Calls `serenity::utils::MessageBuilder::mention` with a channel
/// identifier on an empty builder and returns what was built: the
/// identifier in decimal between `<#` and `>`.
#[verifier::external_body]
fn push_channel_mention(channel: u64) -> (r: String)
    ensures
        r@ == "<#"@ + decimal(channel as nat) + ">"@,
{
    serenity::utils::MessageBuilder::new().mention(&serenity::model::id::ChannelId(channel)).build()
}

/// The notice for a given rendering of the author's name.
pub open spec fn notice_with(bold_author: Seq<char>, command: Seq<char>, channel: u64) -> Seq<
    char,
> {
    "User "@ + bold_author + " used the '"@ + command + "' command in the "@ + ("<#"@ + decimal(
        channel as nat,
    ) + ">"@) + " channel"@
}

/// The text of the notice: who used which command, in which channel.
pub open spec fn notice_text(mention: MentionView, channel: u64) -> Seq<char> {
    notice_with(bold_safe(mention.author_name), mention.command, channel)
}

/// A reply with the notice under it.
pub open spec fn decorated_with(text: Seq<char>, notice: Seq<char>) -> Seq<char> {
    text + "\n"@ + notice
}

/// A reply decorated with the notice for `mention`.
pub open spec fn decorated(text: Seq<char>, mention: MentionView, channel: u64) -> Seq<char> {
    decorated_with(text, notice_text(mention, channel))
}

/// Puts the notice together from the author's name as it is to appear.
pub fn compose_notice(bold_author: &str, command: &str, channel: u64) -> (r: String)
    ensures
        r@ == notice_with(bold_author@, command@, channel),
{
    let mut r: String = String::from_str("User ");
    r.append(bold_author);
    r.append(" used the '");
    r.append(command);
    r.append("' command in the ");
    r.append(push_channel_mention(channel).as_str());
    r.append(" channel");
    r
}

/// Puts a reply and a notice together: the reply, a line break, the
/// notice.
pub fn compose_decorated(text: &str, notice: &str) -> (r: String)
    ensures
        r@ == decorated_with(text@, notice@),
{
    let mut r: String = String::from_str(text);
    r.append("\n");
    r.append(notice);
    r
}

/// Builds the notice that names the author, in bold and made safe, and
/// mentions the channel.
pub fn mention_notice(mention: &Mention, channel: u64) -> (r: String)
    ensures
        r@ == notice_text(mention@, channel),
{
    let bold: String = push_bold_safe(mention.author_name.as_str());
    compose_notice(bold.as_str(), mention.command.as_str(), channel)
}

/// Decorates a reply with the notice for `mention`.
pub fn decorate(text: &str, mention: &Mention, channel: u64) -> (r: String)
    ensures
        r@ == decorated(text@, mention@, channel),
{
    let notice: String = mention_notice(mention, channel);
    compose_decorated(text, notice.as_str())
}

} // verus!
