//! The command registry and the router that matches an inbound message to
//! a registered command.

use vstd::prelude::*;
use crate::text::{
    decimal, decimal_string, is_space, is_space_char, lemma_word_end_bounds, split_whitespace,
    starts_with_char, string_views, tokens,
};

verus! {

/// The handlers that a command can be bound to.
#[derive(Debug, Clone, Copy, PartialEq, Eq, Structural)]
pub enum CommandKind {
    Ping,
    GetIp,
    GetHnPost,
    GetHealth,
    GetBlogs,
    GetGhOrgInfo,
    GetGhOrgMembers,
}

/// A registered command: its name, the number of arguments it needs at
/// least, and the handler it is bound to.
#[derive(Debug, Clone, PartialEq, Eq)]
pub struct Command {
    pub name: String,
    pub min_args: usize,
    pub handler: CommandKind,
}

/// What a [`Command`] holds, as plain values.
pub struct CommandView {
    pub name: Seq<char>,
    pub min_args: nat,
    pub handler: CommandKind,
}

impl View for Command {
    type V = CommandView;

    open spec fn view(&self) -> CommandView {
        CommandView { name: self.name@, min_args: self.min_args as nat, handler: self.handler }
    }
}

/// The views of the commands in `v`, position by position.
pub open spec fn command_views(v: Seq<Command>) -> Seq<CommandView> {
    Seq::new(v.len(), |i: int| v[i]@)
}

/// The position of the first command at or after `i` whose name is
/// exactly `name`.
pub open spec fn find_command(commands: Seq<CommandView>, name: Seq<char>, i: int) -> Option<int>
    decreases commands.len() - i,
{
    if i < 0 || i >= commands.len() {
        None
    } else if commands[i].name == name {
        Some(i)
    } else {
        find_command(commands, name, i + 1)
    }
}

/// A command was invoked with too few arguments.
#[derive(Debug, Clone, PartialEq, Eq)]
pub struct UsageError {
    /// The command as it was typed, prefix included.
    pub invoked: String,
    pub min_args: usize,
    pub given: usize,
}

/// What a [`UsageError`] holds, as plain values.
pub struct UsageErrorView {
    pub invoked: Seq<char>,
    pub min_args: nat,
    pub given: nat,
}

impl View for UsageError {
    type V = UsageErrorView;

    open spec fn view(&self) -> UsageErrorView {
        UsageErrorView {
            invoked: self.invoked@,
            min_args: self.min_args as nat,
            given: self.given as nat,
        }
    }
}

/// The text that tells the user how a command was misused.
pub open spec fn usage_text(e: UsageErrorView) -> Seq<char> {
    "Usage: "@ + e.invoked + " needs at least "@ + decimal(e.min_args) + " argument(s), got "@
        + decimal(e.given)
}

impl UsageError {
    /// The user-visible text of the error.
    pub fn message(&self) -> (r: String)
        ensures
            r@ == usage_text(self@),
    {
        let mut r: String = String::from_str("Usage: ");
        r.append(self.invoked.as_str());
        r.append(" needs at least ");
        r.append(decimal_string(self.min_args as u64).as_str());
        r.append(" argument(s), got ");
        r.append(decimal_string(self.given as u64).as_str());
        r
    }
}

/// What the router decided for one inbound message.
#[derive(Debug, Clone, PartialEq, Eq)]
pub enum Route {
    /// The message is not for the bot, or names no registered command.
    Ignored,
    /// A registered command was invoked with too few arguments.
    Usage(UsageError),
    /// A registered command is to run with these arguments; `invoked` is
    /// the command as it was typed, prefix included.
    Invoke { handler: CommandKind, invoked: String, args: Vec<String> },
}

/// What a [`Route`] holds, as plain values.
pub enum RouteView {
    Ignored,
    Usage(UsageErrorView),
    Invoke { handler: CommandKind, invoked: Seq<char>, args: Seq<Seq<char>> },
}

impl View for Route {
    type V = RouteView;

    open spec fn view(&self) -> RouteView {
        match self {
            Route::Ignored => RouteView::Ignored,
            Route::Usage(e) => RouteView::Usage(e@),
            Route::Invoke { handler, invoked, args } => RouteView::Invoke {
                handler: *handler,
                invoked: invoked@,
                args: string_views(args@),
            },
        }
    }
}

/// Tells whether a message is addressed to the bot: it begins with the
/// prefix. A whitespace prefix addresses nothing, since no token can
/// begin with it.
pub open spec fn addressed(prefix: char, raw: Seq<char>) -> bool {
    raw.len() > 0 && raw[0] == prefix && !is_space(prefix)
}

/// The name of the command that an addressed message invokes: its first
/// token without the prefix.
pub open spec fn command_name(raw: Seq<char>) -> Seq<char> {
    tokens(raw)[0].subrange(1, tokens(raw)[0].len() as int)
}

/// The arguments of an addressed message: every token after the first.
pub open spec fn arguments(raw: Seq<char>) -> Seq<Seq<char>> {
    tokens(raw).subrange(1, tokens(raw).len() as int)
}

/// The router's decision as a function of the registry, the prefix and
/// the text of the message.
pub open spec fn route_of(commands: Seq<CommandView>, prefix: char, raw: Seq<char>) -> RouteView {
    if !addressed(prefix, raw) {
        RouteView::Ignored
    } else {
        match find_command(commands, command_name(raw), 0) {
            None => RouteView::Ignored,
            Some(i) => if arguments(raw).len() < commands[i].min_args {
                RouteView::Usage(
                    UsageErrorView {
                        invoked: tokens(raw)[0],
                        min_args: commands[i].min_args,
                        given: arguments(raw).len(),
                    },
                )
            } else {
                RouteView::Invoke {
                    handler: commands[i].handler,
                    invoked: tokens(raw)[0],
                    args: arguments(raw),
                }
            },
        }
    }
}

/// An addressed message has a first token, which begins with the prefix.
pub proof fn lemma_addressed_has_command(prefix: char, raw: Seq<char>)
    requires
        addressed(prefix, raw),
    ensures
        tokens(raw).len() >= 1,
        tokens(raw)[0].len() >= 1,
        tokens(raw)[0][0] == prefix,
{
    lemma_word_end_bounds(raw, 0);
    let first = raw.subrange(0, crate::text::word_end(raw, 0));
    assert(tokens(raw) == seq![first] + crate::text::tokens_from(
        raw,
        crate::text::word_end(raw, 0),
    ));
    assert(tokens(raw)[0] == first);
}

/// The router: a prefix and the table of commands, built once and only
/// read afterwards.
#[derive(Debug, Clone, PartialEq, Eq)]
pub struct Router {
    pub prefix: char,
    pub commands: Vec<Command>,
}

/// The names and arities of the standard commands, in registration order.
pub open spec fn standard_commands() -> Seq<CommandView> {
    seq![
        CommandView { name: "ping"@, min_args: 0, handler: CommandKind::Ping },
        CommandView { name: "getip"@, min_args: 0, handler: CommandKind::GetIp },
        CommandView { name: "gethnpost"@, min_args: 0, handler: CommandKind::GetHnPost },
        CommandView { name: "gethealth"@, min_args: 0, handler: CommandKind::GetHealth },
        CommandView { name: "getblogs"@, min_args: 0, handler: CommandKind::GetBlogs },
        CommandView { name: "getghorginfo"@, min_args: 1, handler: CommandKind::GetGhOrgInfo },
        CommandView { name: "getghorgmembers"@, min_args: 1, handler: CommandKind::GetGhOrgMembers },
    ]
}

/// Every standard command is found under its own name: no name shadows
/// another in the standard table.
pub proof fn lemma_standard_names_resolve()
    ensures
        find_command(standard_commands(), "ping"@, 0) == Some(0int),
        find_command(standard_commands(), "getip"@, 0) == Some(1int),
        find_command(standard_commands(), "gethnpost"@, 0) == Some(2int),
        find_command(standard_commands(), "gethealth"@, 0) == Some(3int),
        find_command(standard_commands(), "getblogs"@, 0) == Some(4int),
        find_command(standard_commands(), "getghorginfo"@, 0) == Some(5int),
        find_command(standard_commands(), "getghorgmembers"@, 0) == Some(6int),
{
    reveal_strlit("ping");
    reveal_strlit("getip");
    reveal_strlit("gethnpost");
    reveal_strlit("gethealth");
    reveal_strlit("getblogs");
    reveal_strlit("getghorginfo");
    reveal_strlit("getghorgmembers");
    reveal_with_fuel(find_command, 8);
    assert("ping"@.len() == 4);
    assert("getip"@.len() == 5);
    assert("gethnpost"@.len() == 9);
    assert("gethealth"@.len() == 9);
    assert("getblogs"@.len() == 8);
    assert("getghorginfo"@.len() == 12);
    assert("getghorgmembers"@.len() == 15);
    assert("gethnpost"@[4] != "gethealth"@[4]);
    let table = standard_commands();
    assert(table[0].name == "ping"@ && table[1].name == "getip"@ && table[2].name == "gethnpost"@
        && table[3].name == "gethealth"@ && table[4].name == "getblogs"@ && table[5].name
        == "getghorginfo"@ && table[6].name == "getghorgmembers"@);
}

fn command(name: &str, min_args: usize, handler: CommandKind) -> (c: Command)
    ensures
        c@ == (CommandView { name: name@, min_args: min_args as nat, handler }),
{
    Command { name: String::from_str(name), min_args, handler }
}

impl Router {
    /// The router with the prefix `~` and the seven standard commands.
    pub fn standard() -> (r: Router)
        ensures
            r.prefix == '~',
            command_views(r.commands@) == standard_commands(),
    {
        let mut commands: Vec<Command> = Vec::new();
        commands.push(command("ping", 0, CommandKind::Ping));
        commands.push(command("getip", 0, CommandKind::GetIp));
        commands.push(command("gethnpost", 0, CommandKind::GetHnPost));
        commands.push(command("gethealth", 0, CommandKind::GetHealth));
        commands.push(command("getblogs", 0, CommandKind::GetBlogs));
        commands.push(command("getghorginfo", 1, CommandKind::GetGhOrgInfo));
        commands.push(command("getghorgmembers", 1, CommandKind::GetGhOrgMembers));
        assert(command_views(commands@) =~= standard_commands());
        Router { prefix: '~', commands }
    }

    /// Looks a command up by exact, case-sensitive name.
    pub fn lookup(&self, name: &String) -> (r: Option<usize>)
        ensures
            match r {
                Some(i) => find_command(command_views(self.commands@), name@, 0) == Some(i as int)
                    && i < self.commands@.len(),
                None => find_command(command_views(self.commands@), name@, 0) is None,
            },
    {
        let mut i: usize = 0;
        while i < self.commands.len()
            invariant
                i <= self.commands@.len(),
                find_command(command_views(self.commands@), name@, 0) == find_command(
                    command_views(self.commands@),
                    name@,
                    i as int,
                ),
            decreases self.commands@.len() - i,
        {
            if self.commands[i].name == *name {
                assert(command_views(self.commands@)[i as int].name == name@);
                return Some(i);
            }
            assert(command_views(self.commands@)[i as int].name != name@);
            i = i + 1;
        }
        None
    }

    /// Decides what to do with the text of one inbound message.
    pub fn route(&self, raw_text: &str) -> (r: Route)
        ensures
            r@ == route_of(command_views(self.commands@), self.prefix, raw_text@),
    {
        if !starts_with_char(raw_text, self.prefix) || is_space_char(self.prefix) {
            return Route::Ignored;
        }
        proof {
            lemma_addressed_has_command(self.prefix, raw_text@);
        }
        let mut toks: Vec<String> = split_whitespace(raw_text);
        let ghost all = toks@;
        assert(string_views(all).len() == all.len());
        assert(string_views(all)[0] == all[0]@);
        let first: String = toks.remove(0);
        assert(string_views(toks@) =~= arguments(raw_text@));
        let name: String = String::from_str(
            first.as_str().substring_char(1, first.as_str().unicode_len()),
        );
        match self.lookup(&name) {
            None => Route::Ignored,
            Some(i) => {
                let min_args: usize = self.commands[i].min_args;
                let handler: CommandKind = self.commands[i].handler;
                if toks.len() < min_args {
                    Route::Usage(UsageError { invoked: first, min_args, given: toks.len() })
                } else {
                    Route::Invoke { handler, invoked: first, args: toks }
                }
            },
        }
    }
}

} // verus!
