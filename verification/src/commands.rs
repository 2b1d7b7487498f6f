//! Slash commands of the chat / discovery bar: the command table and the
//! parser that turns a typed line into an invocation.

use vstd::prelude::*;

use crate::text::{chars_of, has_prefix, slice_chars, starts_with_chars, string_of, trim, trim_chars};

verus! {

/// Identity of a slash command.
#[derive(Clone, Copy, Debug, PartialEq, Eq, Structural)]
pub enum CommandId {
    ClearChat,
    Discover,
    ClearDiscoveries,
    ClearHistory,
    AddArxivCategory,
    AddFeed,
    Sota,
    ReadingList,
    Code,
    Compare,
    Digest,
    Author,
    Trending,
    Watch,
    ExportHistory,
    ExportLibrary,
}

/// A row of the command table: the command and the text that invokes it.
#[derive(Clone, Copy, Debug)]
pub struct CommandSpec {
    pub id: CommandId,
    pub command: &'static str,
}

/// The command table.
pub open spec fn command_specs_spec() -> Seq<CommandSpec> {
    seq![
        CommandSpec { id: CommandId::ClearChat, command: "/clear" },
        CommandSpec { id: CommandId::Discover, command: "/discover" },
        CommandSpec { id: CommandId::ClearDiscoveries, command: "/clear discoveries" },
        CommandSpec { id: CommandId::ClearHistory, command: "/clear history" },
        CommandSpec { id: CommandId::AddArxivCategory, command: "/add" },
        CommandSpec { id: CommandId::AddFeed, command: "/add-feed" },
        CommandSpec { id: CommandId::Sota, command: "/sota" },
        CommandSpec { id: CommandId::ReadingList, command: "/reading-list" },
        CommandSpec { id: CommandId::Code, command: "/code" },
        CommandSpec { id: CommandId::Compare, command: "/compare" },
        CommandSpec { id: CommandId::Digest, command: "/digest" },
        CommandSpec { id: CommandId::Author, command: "/author" },
        CommandSpec { id: CommandId::Trending, command: "/trending" },
        CommandSpec { id: CommandId::Watch, command: "/watch" },
        CommandSpec { id: CommandId::ExportHistory, command: "/export-history" },
        CommandSpec { id: CommandId::ExportLibrary, command: "/export-library" },
    ]
}

/// The command table, in order.
pub fn command_specs() -> (v: Vec<CommandSpec>)
    ensures
        v@ == command_specs_spec(),
{
    let v = vec![
        CommandSpec { id: CommandId::ClearChat, command: "/clear" },
        CommandSpec { id: CommandId::Discover, command: "/discover" },
        CommandSpec { id: CommandId::ClearDiscoveries, command: "/clear discoveries" },
        CommandSpec { id: CommandId::ClearHistory, command: "/clear history" },
        CommandSpec { id: CommandId::AddArxivCategory, command: "/add" },
        CommandSpec { id: CommandId::AddFeed, command: "/add-feed" },
        CommandSpec { id: CommandId::Sota, command: "/sota" },
        CommandSpec { id: CommandId::ReadingList, command: "/reading-list" },
        CommandSpec { id: CommandId::Code, command: "/code" },
        CommandSpec { id: CommandId::Compare, command: "/compare" },
        CommandSpec { id: CommandId::Digest, command: "/digest" },
        CommandSpec { id: CommandId::Author, command: "/author" },
        CommandSpec { id: CommandId::Trending, command: "/trending" },
        CommandSpec { id: CommandId::Watch, command: "/watch" },
        CommandSpec { id: CommandId::ExportHistory, command: "/export-history" },
        CommandSpec { id: CommandId::ExportLibrary, command: "/export-library" },
    ];
    assert(v@ =~= command_specs_spec());
    v
}

/// A parsed slash command.
#[derive(Debug, Clone, PartialEq, Eq)]
pub enum SlashCommandInvocation {
    ClearChat,
    Discover { topic: String },
    ClearDiscoveries,
    ClearHistory,
    AddArxivCategory { category: String },
    AddFeed { url: String },
    Sota { topic: String },
    ReadingList { topic: String },
    Code { topic: String },
    Compare { topic: String },
    Digest,
    Author { name: String },
    Trending { topic: String },
    Watch { topic: String },
    ExportHistory { format: String },
    ExportLibrary { format: String },
    Unknown { raw: String },
}

/// `raw` invokes `command`: it is the command, or the command followed by
/// a space and arguments.
pub open spec fn invokes(raw: Seq<char>, command: Seq<char>) -> bool {
    has_prefix(raw, command) && (raw.len() == command.len() || raw[command.len() as int] == ' ')
}

/// Among `specs`, the one with the longest command that `raw` invokes (the
/// last of equally long ones), given the best so far.
pub open spec fn best_from(specs: Seq<CommandSpec>, raw: Seq<char>, best: Option<CommandSpec>) -> Option<
    CommandSpec,
>
    decreases specs.len(),
{
    if specs.len() == 0 {
        best
    } else {
        let s = specs[0];
        let nb = if invokes(raw, s.command@) && (match best {
            Some(b) => s.command@.len() >= b.command@.len(),
            None => true,
        }) {
            Some(s)
        } else {
            best
        };
        best_from(specs.drop_first(), raw, nb)
    }
}

/// The command `raw` invokes: the longest matching one, so that
/// `/clear history` is not taken for `/clear`.
pub open spec fn find_command_spec(raw: Seq<char>) -> Option<CommandSpec> {
    best_from(command_specs_spec(), raw, None)
}

/// What follows `prefix` in `input`, trimmed (empty when `input` does not
/// start with `prefix`).
pub open spec fn arg_after_spec(input: Seq<char>, prefix: Seq<char>) -> Seq<char> {
    if has_prefix(input, prefix) {
        trim(input.skip(prefix.len() as int))
    } else {
        Seq::empty()
    }
}

fn invokes_exec(raw: &Vec<char>, command: &str) -> (r: bool)
    ensures
        r == invokes(raw@, command@),
{
    let c = chars_of(command);
    starts_with_chars(raw, &c) && (raw.len() == c.len() || raw[c.len()] == ' ')
}

/// The command that `raw` invokes.
pub fn find_command(raw: &str) -> (r: Option<CommandSpec>)
    ensures
        r == find_command_spec(raw@),
{
    let v = chars_of(raw);
    let specs = command_specs();
    let mut best: Option<CommandSpec> = None;
    let mut best_len: usize = 0;
    let mut i: usize = 0;
    assert(specs@.skip(0) == specs@);
    while i < specs.len()
        invariant
            i <= specs@.len(),
            specs@ == command_specs_spec(),
            v@ == raw@,
            best matches Some(b) ==> best_len == b.command@.len(),
            find_command_spec(raw@) == best_from(specs@.skip(i as int), raw@, best),
        decreases specs@.len() - i,
    {
        let s = specs[i];
        let ghost rest = specs@.skip(i as int);
        assert(rest[0] == s);
        assert(rest.drop_first() == specs@.skip(i + 1));
        let clen = chars_of(s.command).len();
        if invokes_exec(&v, s.command) && (best.is_none() || clen >= best_len) {
            best = Some(s);
            best_len = clen;
        }
        i += 1;
    }
    best
}

/// What follows `prefix` in `input`, trimmed.
pub fn arg_after(input: &Vec<char>, prefix: &str) -> (r: String)
    ensures
        r@ == arg_after_spec(input@, prefix@),
{
    let p = chars_of(prefix);
    if starts_with_chars(input, &p) {
        let rest = slice_chars(input, p.len(), input.len());
        string_of(&trim_chars(&rest))
    } else {
        String::new()
    }
}

/// The invocation a typed line denotes.
pub open spec fn parse_matches(r: SlashCommandInvocation, raw: Seq<char>) -> bool {
    let t = trim(raw);
    match find_command_spec(t) {
        Some(s) => match s.id {
            CommandId::ClearChat => r is ClearChat,
            CommandId::Discover => r matches SlashCommandInvocation::Discover { topic }
                && topic@ == arg_after_spec(t, "/discover"@),
            CommandId::ClearDiscoveries => r is ClearDiscoveries,
            CommandId::ClearHistory => r is ClearHistory,
            CommandId::AddArxivCategory => r matches SlashCommandInvocation::AddArxivCategory {
                category,
            } && category@ == arg_after_spec(t, "/add"@),
            CommandId::AddFeed => r matches SlashCommandInvocation::AddFeed { url } && url@
                == arg_after_spec(t, "/add-feed"@),
            CommandId::Sota => r matches SlashCommandInvocation::Sota { topic } && topic@
                == arg_after_spec(t, "/sota"@),
            CommandId::ReadingList => r matches SlashCommandInvocation::ReadingList { topic }
                && topic@ == arg_after_spec(t, "/reading-list"@),
            CommandId::Code => r matches SlashCommandInvocation::Code { topic } && topic@
                == arg_after_spec(t, "/code"@),
            CommandId::Compare => r matches SlashCommandInvocation::Compare { topic } && topic@
                == arg_after_spec(t, "/compare"@),
            CommandId::Digest => r is Digest,
            CommandId::Author => r matches SlashCommandInvocation::Author { name } && name@
                == arg_after_spec(t, "/author"@),
            CommandId::Trending => r matches SlashCommandInvocation::Trending { topic } && topic@
                == arg_after_spec(t, "/trending"@),
            CommandId::Watch => r matches SlashCommandInvocation::Watch { topic } && topic@
                == arg_after_spec(t, "/watch"@),
            CommandId::ExportHistory => r matches SlashCommandInvocation::ExportHistory { format }
                && format@ == arg_after_spec(t, "/export-history"@),
            CommandId::ExportLibrary => r matches SlashCommandInvocation::ExportLibrary { format }
                && format@ == arg_after_spec(t, "/export-library"@),
        },
        None => r matches SlashCommandInvocation::Unknown { raw: x } && x@ == t,
    }
}

/// Parse a typed slash-command line.
pub fn parse_slash_command(raw: &str) -> (r: SlashCommandInvocation)
    ensures
        parse_matches(r, raw@),
{
    let t = trim_chars(&chars_of(raw));
    let ts = string_of(&t);
    match find_command(ts.as_str()) {
        Some(spec) => match spec.id {
            CommandId::ClearChat => SlashCommandInvocation::ClearChat,
            CommandId::Discover => SlashCommandInvocation::Discover {
                topic: arg_after(&t, "/discover"),
            },
            CommandId::ClearDiscoveries => SlashCommandInvocation::ClearDiscoveries,
            CommandId::ClearHistory => SlashCommandInvocation::ClearHistory,
            CommandId::AddArxivCategory => SlashCommandInvocation::AddArxivCategory {
                category: arg_after(&t, "/add"),
            },
            CommandId::AddFeed => SlashCommandInvocation::AddFeed { url: arg_after(&t, "/add-feed") },
            CommandId::Sota => SlashCommandInvocation::Sota { topic: arg_after(&t, "/sota") },
            CommandId::ReadingList => SlashCommandInvocation::ReadingList {
                topic: arg_after(&t, "/reading-list"),
            },
            CommandId::Code => SlashCommandInvocation::Code { topic: arg_after(&t, "/code") },
            CommandId::Compare => SlashCommandInvocation::Compare {
                topic: arg_after(&t, "/compare"),
            },
            CommandId::Digest => SlashCommandInvocation::Digest,
            CommandId::Author => SlashCommandInvocation::Author { name: arg_after(&t, "/author") },
            CommandId::Trending => SlashCommandInvocation::Trending {
                topic: arg_after(&t, "/trending"),
            },
            CommandId::Watch => SlashCommandInvocation::Watch { topic: arg_after(&t, "/watch") },
            CommandId::ExportHistory => SlashCommandInvocation::ExportHistory {
                format: arg_after(&t, "/export-history"),
            },
            CommandId::ExportLibrary => SlashCommandInvocation::ExportLibrary {
                format: arg_after(&t, "/export-library"),
            },
        },
        None => SlashCommandInvocation::Unknown { raw: ts },
    }
}

/// The command an invocation belongs to (`None` for an unknown line).
pub open spec fn invocation_id(r: SlashCommandInvocation) -> Option<CommandId> {
    match r {
        SlashCommandInvocation::ClearChat => Some(CommandId::ClearChat),
        SlashCommandInvocation::Discover { .. } => Some(CommandId::Discover),
        SlashCommandInvocation::ClearDiscoveries => Some(CommandId::ClearDiscoveries),
        SlashCommandInvocation::ClearHistory => Some(CommandId::ClearHistory),
        SlashCommandInvocation::AddArxivCategory { .. } => Some(CommandId::AddArxivCategory),
        SlashCommandInvocation::AddFeed { .. } => Some(CommandId::AddFeed),
        SlashCommandInvocation::Sota { .. } => Some(CommandId::Sota),
        SlashCommandInvocation::ReadingList { .. } => Some(CommandId::ReadingList),
        SlashCommandInvocation::Code { .. } => Some(CommandId::Code),
        SlashCommandInvocation::Compare { .. } => Some(CommandId::Compare),
        SlashCommandInvocation::Digest => Some(CommandId::Digest),
        SlashCommandInvocation::Author { .. } => Some(CommandId::Author),
        SlashCommandInvocation::Trending { .. } => Some(CommandId::Trending),
        SlashCommandInvocation::Watch { .. } => Some(CommandId::Watch),
        SlashCommandInvocation::ExportHistory { .. } => Some(CommandId::ExportHistory),
        SlashCommandInvocation::ExportLibrary { .. } => Some(CommandId::ExportLibrary),
        SlashCommandInvocation::Unknown { .. } => None,
    }
}

/// The argument an invocation carries, if its command takes one.
pub open spec fn invocation_arg(r: SlashCommandInvocation) -> Option<Seq<char>> {
    match r {
        SlashCommandInvocation::Discover { topic } => Some(topic@),
        SlashCommandInvocation::AddArxivCategory { category } => Some(category@),
        SlashCommandInvocation::AddFeed { url } => Some(url@),
        SlashCommandInvocation::Sota { topic } => Some(topic@),
        SlashCommandInvocation::ReadingList { topic } => Some(topic@),
        SlashCommandInvocation::Code { topic } => Some(topic@),
        SlashCommandInvocation::Compare { topic } => Some(topic@),
        SlashCommandInvocation::Author { name } => Some(name@),
        SlashCommandInvocation::Trending { topic } => Some(topic@),
        SlashCommandInvocation::Watch { topic } => Some(topic@),
        SlashCommandInvocation::ExportHistory { format } => Some(format@),
        SlashCommandInvocation::ExportLibrary { format } => Some(format@),
        _ => None,
    }
}

/// The commands that take an argument.
pub open spec fn takes_argument(id: CommandId) -> bool {
    !(id == CommandId::ClearChat || id == CommandId::ClearDiscoveries || id
        == CommandId::ClearHistory || id == CommandId::Digest)
}

proof fn lemma_best_from_member(specs: Seq<CommandSpec>, raw: Seq<char>, best: Option<CommandSpec>)
    ensures
        best_from(specs, raw, best) == best || exists|i: int|
            0 <= i < specs.len() && best_from(specs, raw, best) == Some(#[trigger] specs[i]),
    decreases specs.len(),
{
    if specs.len() > 0 {
        let s = specs[0];
        let nb = if invokes(raw, s.command@) && (match best {
            Some(b) => s.command@.len() >= b.command@.len(),
            None => true,
        }) {
            Some(s)
        } else {
            best
        };
        lemma_best_from_member(specs.drop_first(), raw, nb);
        let r = best_from(specs, raw, best);
        if r != best {
            if r == nb {
                assert(specs[0] == s);
            } else {
                let i = choose|i: int|
                    0 <= i < specs.drop_first().len() && r == Some(#[trigger] specs.drop_first()[i]);
                assert(specs[i + 1] == specs.drop_first()[i]);
            }
        }
    }
}

/// Law: a parsed line is the invocation of the command it invokes — the
/// command with the same identity as the longest command the trimmed line
/// starts with — carrying, when that command takes an argument, the
/// trimmed text after the command; a line that invokes no command is
/// unknown and carries the trimmed line.
pub proof fn lemma_invocation_follows_command(r: SlashCommandInvocation, raw: Seq<char>)
    requires
        parse_matches(r, raw),
    ensures
        invocation_id(r) == (match find_command_spec(trim(raw)) {
            Some(s) => Some(s.id),
            None => None,
        }),
        find_command_spec(trim(raw)) matches Some(s) ==> (takes_argument(s.id) ==> invocation_arg(r)
            == Some(arg_after_spec(trim(raw), s.command@))) && (!takes_argument(s.id)
            ==> invocation_arg(r) is None),
        find_command_spec(trim(raw)) is None ==> (r matches SlashCommandInvocation::Unknown { raw: x }
            && x@ == trim(raw)),
{
    let t = trim(raw);
    lemma_best_from_member(command_specs_spec(), t, None);
    match find_command_spec(t) {
        Some(s) => {
            let tab = command_specs_spec();
            let i = choose|i: int| 0 <= i < tab.len() && find_command_spec(t) == Some(#[trigger] tab[i]);
            assert(s == tab[i]);
        },
        None => {},
    }
}

/// The text that invokes each command.
pub open spec fn command_text(id: CommandId) -> Seq<char> {
    match id {
        CommandId::ClearChat => "/clear"@,
        CommandId::Discover => "/discover"@,
        CommandId::ClearDiscoveries => "/clear discoveries"@,
        CommandId::ClearHistory => "/clear history"@,
        CommandId::AddArxivCategory => "/add"@,
        CommandId::AddFeed => "/add-feed"@,
        CommandId::Sota => "/sota"@,
        CommandId::ReadingList => "/reading-list"@,
        CommandId::Code => "/code"@,
        CommandId::Compare => "/compare"@,
        CommandId::Digest => "/digest"@,
        CommandId::Author => "/author"@,
        CommandId::Trending => "/trending"@,
        CommandId::Watch => "/watch"@,
        CommandId::ExportHistory => "/export-history"@,
        CommandId::ExportLibrary => "/export-library"@,
    }
}

/// Law: the command a line invokes is the command named by the text it
/// starts with — `/watch …` is the Watch command, `/trending …` the
/// Trending command, and so on for every row of the table.
pub proof fn lemma_commands_named_by_their_text(raw: Seq<char>)
    ensures
        find_command_spec(raw) matches Some(s) ==> s.command@ == command_text(s.id) && invokes(
            raw,
            command_text(s.id),
        ),
{
    lemma_best_from_member(command_specs_spec(), raw, None);
    lemma_best_from_invokes(command_specs_spec(), raw, None);
    match find_command_spec(raw) {
        Some(s) => {
            let tab = command_specs_spec();
            let i = choose|i: int| 0 <= i < tab.len() && find_command_spec(raw) == Some(#[trigger] tab[i]);
            assert(s == tab[i]);
        },
        None => {},
    }
}

proof fn lemma_best_from_invokes(specs: Seq<CommandSpec>, raw: Seq<char>, best: Option<CommandSpec>)
    requires
        best matches Some(b) ==> invokes(raw, b.command@),
    ensures
        best_from(specs, raw, best) matches Some(b) ==> invokes(raw, b.command@),
    decreases specs.len(),
{
    if specs.len() > 0 {
        let s = specs[0];
        let nb = if invokes(raw, s.command@) && (match best {
            Some(b) => s.command@.len() >= b.command@.len(),
            None => true,
        }) {
            Some(s)
        } else {
            best
        };
        lemma_best_from_invokes(specs.drop_first(), raw, nb);
    }
}

} // verus!
