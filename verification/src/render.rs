//! The renderer: turns what a handler produced, or the way it failed, into
//! the messages to send, in the order in which they are to be sent.

use vstd::prelude::*;
use crate::fetch::FetchError;
use crate::mention::{decorate, decorated, Mention, MentionView};
use crate::model::{
    send_views, Content, ContentView, EmbedSpec, HandlerResult, HandlerResultView, OutboundSend,
    OutboundSendView,
};

verus! {

/// A plain-text message for `target`.
pub open spec fn text_send(target: u64, text: Seq<char>) -> OutboundSendView {
    OutboundSendView { channel_ref: target, content: ContentView::PlainText(text) }
}

/// The text of a plain-text reply: the handler's text as it is, or, for a
/// handler that opted in to the mention decoration, the text with the
/// notice under it.
pub open spec fn reply_text(text: Seq<char>, mention: Option<MentionView>, target: u64) -> Seq<
    char,
> {
    match mention {
        Some(m) => decorated(text, m, target),
        None => text,
    }
}

/// The view of an optional mention.
pub open spec fn mention_view(mention: Option<Mention>) -> Option<MentionView> {
    match mention {
        Some(m) => Some(m@),
        None => None,
    }
}

/// The messages that a handler result renders as: a plain text is one
/// message, decorated where the handler opted in; a batch is one message
/// per embed, in batch order, and takes no decoration.
pub open spec fn rendered(result: HandlerResultView, target: u64, mention: Option<MentionView>) -> Seq<
    OutboundSendView,
> {
    match result {
        HandlerResultView::PlainText(text) => seq![text_send(target, reply_text(text, mention, target))],
        HandlerResultView::EmbedBatch(embeds) => Seq::new(
            embeds.len(),
            |i: int| OutboundSendView { channel_ref: target, content: ContentView::Embed(embeds[i]) },
        ),
    }
}

/// The text that acknowledges a failed fetch; it tells nothing of the
/// cause.
pub open spec fn failure_text() -> Seq<char> {
    "Sorry, something went wrong while handling that command."@
}

/// The messages that end a handler's work: those of its result, or the
/// one generic acknowledgment when a fetch failed. No decoration is
/// added: a handler that opts in to it replies without a fetch.
pub open spec fn concluded(outcome: Result<HandlerResultView, FetchError>, target: u64) -> Seq<
    OutboundSendView,
> {
    match outcome {
        Ok(result) => rendered(result, target, None),
        Err(_) => seq![text_send(target, failure_text())],
    }
}

fn plain_send(target: u64, text: String) -> (r: OutboundSend)
    ensures
        r@ == text_send(target, text@),
{
    OutboundSend { channel_ref: target, content: Content::PlainText(text) }
}

/// Renders a handler result for the channel `target`. `mention` is the
/// handler's opt-in to the mention decoration.
pub fn render(result: HandlerResult, target: u64, mention: Option<Mention>) -> (out: Vec<
    OutboundSend,
>)
    ensures
        send_views(out@) == rendered(result@, target, mention_view(mention)),
{
    let mut out: Vec<OutboundSend> = Vec::new();
    match result {
        HandlerResult::PlainText(text) => {
            let body: String = match &mention {
                Some(m) => decorate(text.as_str(), m, target),
                None => text,
            };
            out.push(plain_send(target, body));
            assert(send_views(out@) =~= rendered(result@, target, mention_view(mention)));
        },
        HandlerResult::EmbedBatch(embeds) => {
            let ghost all = crate::model::embed_views(embeds@);
            let mut rest: Vec<EmbedSpec> = embeds;
            while rest.len() > 0
                invariant
                    out@.len() + rest@.len() == all.len(),
                    forall|k: int|
                        0 <= k < out@.len() ==> (#[trigger] out@[k])@ == (OutboundSendView {
                            channel_ref: target,
                            content: ContentView::Embed(all[k]),
                        }),
                    forall|k: int|
                        0 <= k < rest@.len() ==> (#[trigger] rest@[k])@ == all[out@.len() + k],
                decreases rest@.len(),
            {
                let embed: EmbedSpec = rest.remove(0);
                out.push(OutboundSend { channel_ref: target, content: Content::Embed(embed) });
            }
            assert(send_views(out@) =~= rendered(result@, target, mention_view(mention)));
        },
    }
    out
}

/// Renders the end of a handler's work: its result, or the generic
/// failure acknowledgment.
pub fn conclude(outcome: Result<HandlerResult, FetchError>, target: u64) -> (out: Vec<
    OutboundSend,
>)
    ensures
        send_views(out@) == concluded(crate::handlers::outcome_view(outcome), target),
{
    match outcome {
        Ok(result) => render(result, target, None),
        Err(_) => {
            let mut out: Vec<OutboundSend> = Vec::new();
            out.push(
                plain_send(
                    target,
                    String::from_str("Sorry, something went wrong while handling that command."),
                ),
            );
            assert(send_views(out@) =~= seq![text_send(target, failure_text())]);
            out
        },
    }
}

} // verus!
