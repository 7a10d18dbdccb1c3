//! From an inbound message to the bot's first reaction: silence, messages
//! to send at once, or the first request of a handler.

use vstd::prelude::*;
use crate::fetch::{FetchError, Request, RequestView};
use crate::handlers::{
    getblogs, getblogs_outcome, getblogs_request, getghorginfo, getghorginfo_outcome,
    getghorginfo_request, getghorgmembers, getghorgmembers_outcome, getghorgmembers_request,
    gethealth, gethealth_outcome, gethealth_request, getip, getip_outcome, getip_request,
    graphql_post, identified_get, outcome_view, ping, plain_get, Blogs, Envelope, Welcome,
};
use crate::model::{
    send_views, Content, Entry, HandlerResult, HandlerResultView, InboundMessage, Member,
    Organization, OutboundSend, OutboundSendView,
};
use crate::mention::{Mention, MentionView};
use crate::render::{render, rendered, text_send};
use crate::router::{
    addressed, arguments, command_name, command_views, find_command, route_of, usage_text,
    CommandKind, CommandView, Route, RouteView, Router, UsageError, UsageErrorView,
};
use crate::stories::gethnpost_request;

verus! {

/// The record that a handler waits for after its first request.
#[derive(Debug, Clone, Copy, PartialEq, Eq, Structural)]
pub enum Awaiting {
    Ip,
    StoryIndex,
    Health,
    Blogs,
    Organization,
    Members,
}

/// The bot's first reaction to an inbound message.
#[derive(Debug, Clone, PartialEq, Eq)]
pub enum Reaction {
    /// Nothing is sent and nothing is fetched.
    Silent,
    /// These messages are sent, in order, and nothing is fetched.
    Send(Vec<OutboundSend>),
    /// This request is issued; its answer goes to the handler that waits
    /// for the named record.
    Fetch { request: Request, awaiting: Awaiting },
}

/// What a [`Reaction`] holds, as plain values.
pub enum ReactionView {
    Silent,
    Send(Seq<OutboundSendView>),
    Fetch { request: RequestView, awaiting: Awaiting },
}

impl View for Reaction {
    type V = ReactionView;

    open spec fn view(&self) -> ReactionView {
        match self {
            Reaction::Silent => ReactionView::Silent,
            Reaction::Send(messages) => ReactionView::Send(send_views(messages@)),
            Reaction::Fetch { request, awaiting } => ReactionView::Fetch {
                request: request@,
                awaiting: *awaiting,
            },
        }
    }
}

/// The one message that reports a usage error.
pub open spec fn usage_reply(e: UsageErrorView, target: u64) -> ReactionView {
    ReactionView::Send(seq![text_send(target, usage_text(e))])
}

/// The usage error of a handler that reads its first argument and was
/// given none.
pub open spec fn missing_argument(invoked: Seq<char>) -> UsageErrorView {
    UsageErrorView { invoked, min_args: 1, given: 0 }
}

/// The mention that `ping` opts in to: the author, under the command
/// name `ping`.
pub open spec fn ping_mention(author: Seq<char>) -> MentionView {
    MentionView { author_name: author, command: "ping"@ }
}

/// How a handler opens: `ping` replies at once, and opts in to the
/// mention decoration; every other handler asks for its first request.
/// The two organization handlers read their first argument and report a
/// usage error when there is none.
pub open spec fn opening_of(
    handler: CommandKind,
    invoked: Seq<char>,
    args: Seq<Seq<char>>,
    author: Seq<char>,
    target: u64,
) -> ReactionView {
    match handler {
        CommandKind::Ping => ReactionView::Send(
            rendered(HandlerResultView::PlainText("Pong!"@), target, Some(ping_mention(author))),
        ),
        CommandKind::GetIp => ReactionView::Fetch {
            request: plain_get("https://httpbin.org/ip"@),
            awaiting: Awaiting::Ip,
        },
        CommandKind::GetHnPost => ReactionView::Fetch {
            request: plain_get("https://hacker-news.firebaseio.com/v0/topstories.json"@),
            awaiting: Awaiting::StoryIndex,
        },
        CommandKind::GetHealth => ReactionView::Fetch {
            request: graphql_post("{\"query\":\"{welcome}\"}"@),
            awaiting: Awaiting::Health,
        },
        CommandKind::GetBlogs => ReactionView::Fetch {
            request: graphql_post(
                "{\"query\":\"{  blogs {   id    slug    title    content  } }\"}"@,
            ),
            awaiting: Awaiting::Blogs,
        },
        CommandKind::GetGhOrgInfo => if args.len() == 0 {
            usage_reply(missing_argument(invoked), target)
        } else {
            ReactionView::Fetch {
                request: identified_get("https://api.github.com/orgs/"@ + args[0]),
                awaiting: Awaiting::Organization,
            }
        },
        CommandKind::GetGhOrgMembers => if args.len() == 0 {
            usage_reply(missing_argument(invoked), target)
        } else {
            ReactionView::Fetch {
                request: identified_get(
                    "https://api.github.com/orgs/"@ + args[0] + "/members"@,
                ),
                awaiting: Awaiting::Members,
            }
        },
    }
}

/// The bot's first reaction as a function of the registry, the prefix,
/// the text of the message, its author and the channel it came from.
pub open spec fn reaction_of(
    commands: Seq<CommandView>,
    prefix: char,
    raw: Seq<char>,
    author: Seq<char>,
    target: u64,
) -> ReactionView {
    match route_of(commands, prefix, raw) {
        RouteView::Ignored => ReactionView::Silent,
        RouteView::Usage(e) => usage_reply(e, target),
        RouteView::Invoke { handler, invoked, args } => opening_of(
            handler,
            invoked,
            args,
            author,
            target,
        ),
    }
}

fn usage_send(e: &UsageError, target: u64) -> (r: Reaction)
    ensures
        r@ == usage_reply(e@, target),
{
    let mut out: Vec<OutboundSend> = Vec::new();
    out.push(OutboundSend { channel_ref: target, content: Content::PlainText(e.message()) });
    assert(send_views(out@) =~= seq![text_send(target, usage_text(e@))]);
    Reaction::Send(out)
}

/// Opens the handler of a routed command.
pub fn open_handler(
    handler: CommandKind,
    invoked: String,
    args: &Vec<String>,
    author: &str,
    target: u64,
) -> (r: Reaction)
    ensures
        r@ == opening_of(handler, invoked@, crate::text::string_views(args@), author@, target),
{
    match handler {
        CommandKind::Ping => {
            let mention = Mention {
                author_name: String::from_str(author),
                command: String::from_str("ping"),
            };
            Reaction::Send(render(ping(), target, Some(mention)))
        },
        CommandKind::GetIp => Reaction::Fetch { request: getip_request(), awaiting: Awaiting::Ip },
        CommandKind::GetHnPost => Reaction::Fetch {
            request: gethnpost_request(),
            awaiting: Awaiting::StoryIndex,
        },
        CommandKind::GetHealth => Reaction::Fetch {
            request: gethealth_request(),
            awaiting: Awaiting::Health,
        },
        CommandKind::GetBlogs => Reaction::Fetch {
            request: getblogs_request(),
            awaiting: Awaiting::Blogs,
        },
        CommandKind::GetGhOrgInfo => {
            if args.len() == 0 {
                usage_send(&UsageError { invoked, min_args: 1, given: 0 }, target)
            } else {
                Reaction::Fetch {
                    request: getghorginfo_request(args[0].as_str()),
                    awaiting: Awaiting::Organization,
                }
            }
        },
        CommandKind::GetGhOrgMembers => {
            if args.len() == 0 {
                usage_send(&UsageError { invoked, min_args: 1, given: 0 }, target)
            } else {
                Reaction::Fetch {
                    request: getghorgmembers_request(args[0].as_str()),
                    awaiting: Awaiting::Members,
                }
            }
        },
    }
}

impl Router {
    /// Routes one inbound message and opens the handler it invokes.
    pub fn react(&self, msg: &InboundMessage) -> (r: Reaction)
        ensures
            r@ == reaction_of(
                command_views(self.commands@),
                self.prefix,
                msg.raw_text@,
                msg.author_name@,
                msg.channel_ref,
            ),
    {
        match self.route(msg.raw_text.as_str()) {
            Route::Ignored => Reaction::Silent,
            Route::Usage(e) => usage_send(&e, msg.channel_ref),
            Route::Invoke { handler, invoked, args } => open_handler(
                handler,
                invoked,
                &args,
                msg.author_name.as_str(),
                msg.channel_ref,
            ),
        }
    }
}

/// A decoded record, tagged with the endpoint it came from.
#[derive(Debug, Clone, PartialEq, Eq)]
pub enum Fetched {
    Ip(Vec<Entry>),
    Health(Envelope<Welcome>),
    Blogs(Envelope<Blogs>),
    Organization(Organization),
    Members(Vec<Member>),
}

/// What the handler that waits for `awaiting` makes of a fetch: a failed
/// fetch is handed on; the awaited record goes to its handler; any other
/// record does not have the expected shape. The story index is not
/// completed here: its identifiers start a run of their own.
pub open spec fn completion_of(awaiting: Awaiting, fetched: Result<Fetched, FetchError>) -> Result<
    HandlerResultView,
    FetchError,
> {
    match fetched {
        Err(e) => Err(e),
        Ok(record) => match (awaiting, record) {
            (Awaiting::Ip, Fetched::Ip(entries)) => getip_outcome(Ok(entries)),
            (Awaiting::Health, Fetched::Health(envelope)) => gethealth_outcome(Ok(envelope)),
            (Awaiting::Blogs, Fetched::Blogs(envelope)) => getblogs_outcome(Ok(envelope)),
            (Awaiting::Organization, Fetched::Organization(org)) => getghorginfo_outcome(Ok(org)),
            (Awaiting::Members, Fetched::Members(members)) => getghorgmembers_outcome(
                Ok(members),
            ),
            _ => Err(FetchError::Decode),
        },
    }
}

/// Hands a fetch to the handler that waits for it.
pub fn complete(awaiting: Awaiting, fetched: Result<Fetched, FetchError>) -> (r: Result<
    HandlerResult,
    FetchError,
>)
    ensures
        outcome_view(r) == completion_of(awaiting, fetched),
{
    match fetched {
        Err(e) => Err(e),
        Ok(record) => match (awaiting, record) {
            (Awaiting::Ip, Fetched::Ip(entries)) => getip(Ok(entries)),
            (Awaiting::Health, Fetched::Health(envelope)) => gethealth(Ok(envelope)),
            (Awaiting::Blogs, Fetched::Blogs(envelope)) => getblogs(Ok(envelope)),
            (Awaiting::Organization, Fetched::Organization(org)) => getghorginfo(Ok(org)),
            (Awaiting::Members, Fetched::Members(members)) => getghorgmembers(Ok(members)),
            _ => Err(FetchError::Decode),
        },
    }
}

/// A registered command that is invoked with fewer arguments than it
/// declares yields a usage error: one message that reports it is sent and
/// no request is issued.
pub proof fn lemma_too_few_arguments_is_usage(
    commands: Seq<CommandView>,
    prefix: char,
    raw: Seq<char>,
    author: Seq<char>,
    target: u64,
    i: int,
)
    requires
        addressed(prefix, raw),
        find_command(commands, command_name(raw), 0) == Some(i),
        arguments(raw).len() < commands[i].min_args,
    ensures
        route_of(commands, prefix, raw) is Usage,
        route_of(commands, prefix, raw)->Usage_0.min_args == commands[i].min_args,
        route_of(commands, prefix, raw)->Usage_0.given == arguments(raw).len(),
        reaction_of(commands, prefix, raw, author, target) == usage_reply(
            route_of(commands, prefix, raw)->Usage_0,
            target,
        ),
        !(reaction_of(commands, prefix, raw, author, target) is Fetch),
        reaction_of(commands, prefix, raw, author, target)->Send_0.len() == 1,
{
}

/// A handler that reads its first argument and is given none issues no
/// request either, whatever arity the registry declares for it.
pub proof fn lemma_missing_argument_fetches_nothing(
    handler: CommandKind,
    invoked: Seq<char>,
    author: Seq<char>,
    target: u64,
)
    requires
        handler == CommandKind::GetGhOrgInfo || handler == CommandKind::GetGhOrgMembers,
    ensures
        opening_of(handler, invoked, Seq::empty(), author, target) == usage_reply(
            missing_argument(invoked),
            target,
        ),
{
}

/// A message that does not begin with the prefix is not dispatched and
/// gets no reply, whatever the registry holds.
pub proof fn lemma_unaddressed_is_silent(
    commands: Seq<CommandView>,
    prefix: char,
    raw: Seq<char>,
    author: Seq<char>,
    target: u64,
)
    requires
        raw.len() == 0 || raw[0] != prefix,
    ensures
        route_of(commands, prefix, raw) == RouteView::Ignored,
        reaction_of(commands, prefix, raw, author, target) == ReactionView::Silent,
{
}

/// The reaction to `ping` is one message and no request: the handler's
/// text with the notice for the author under it, whatever the arguments.
pub proof fn lemma_ping_reply_holds_its_text(
    invoked: Seq<char>,
    args: Seq<Seq<char>>,
    author: Seq<char>,
    target: u64,
)
    ensures
        opening_of(CommandKind::Ping, invoked, args, author, target) == ReactionView::Send(
            seq![
                text_send(
                    target,
                    "Pong!"@ + "\n"@ + crate::mention::notice_text(ping_mention(author), target),
                ),
            ],
        ),
{
}

/// A message that names no registered command is ignored without a reply.
pub proof fn lemma_unknown_command_is_silent(
    commands: Seq<CommandView>,
    prefix: char,
    raw: Seq<char>,
    author: Seq<char>,
    target: u64,
)
    requires
        addressed(prefix, raw),
        find_command(commands, command_name(raw), 0) is None,
    ensures
        reaction_of(commands, prefix, raw, author, target) == ReactionView::Silent,
{
}

} // verus!
