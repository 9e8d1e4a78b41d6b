//! The command line: what it asks for, and what is shown.

use crate::profile::{Metadata, ProfileSummary};
use crate::text::{decimal, push_padded, same_text};
use vstd::prelude::*;
use vstd::string::*;

use crate::path::path_bytes;
use crate::profile::text_view;
use crate::text::{decimal_text, padded, texts};

verus! {

/// The version of this program.
pub const VERSION: &'static str = "0.1.0";

/// What the command line asks for.
pub enum Action {
    /// Save a ChatGPT account in a profile.
    Login { name: String },
    /// Show the profiles.
    List,
    /// Run Codex with a profile, and where it is told so with a session to continue.
    Run { name: String, resume: Option<String> },
    /// Remove the login of a profile.
    Logout { name: String },
}

/// What an action says.
pub enum ActionView {
    Login { name: Seq<char> },
    List,
    Run { name: Seq<char>, resume: Option<Seq<char>> },
    Logout { name: Seq<char> },
}

impl View for Action {
    type V = ActionView;

    open spec fn view(&self) -> ActionView {
        match self {
            Action::Login { name } => ActionView::Login { name: name@ },
            Action::List => ActionView::List,
            Action::Run { name, resume } => ActionView::Run {
                name: name@,
                resume: text_view(*resume),
            },
            Action::Logout { name } => ActionView::Logout { name: name@ },
        }
    }
}

/// The command line, understood.
pub struct Args {
    pub command: Action,
}

/// An argument of an action.
pub struct Argument {
    pub id: &'static str,
    /// How its value is called in the help.
    pub shown: &'static str,
    pub required: bool,
    /// The name after two dashes by which it is given; none where its place tells what it is.
    pub long: Option<&'static str>,
}

/// What an argument says.
pub struct ArgumentView {
    pub id: Seq<char>,
    pub shown: Seq<char>,
    pub required: bool,
    pub long: Option<Seq<char>>,
}

impl View for Argument {
    type V = ArgumentView;

    open spec fn view(&self) -> ArgumentView {
        ArgumentView {
            id: self.id@,
            shown: self.shown@,
            required: self.required,
            long: match self.long {
                Some(long) => Some(long@),
                None => None,
            },
        }
    }
}

/// An action as the command line knows it.
pub struct Subcommand {
    pub name: &'static str,
    pub about: &'static str,
    pub arguments: Vec<Argument>,
}

/// What an action of the command line says.
pub struct SubcommandView {
    pub name: Seq<char>,
    pub about: Seq<char>,
    pub arguments: Seq<ArgumentView>,
}

impl View for Subcommand {
    type V = SubcommandView;

    open spec fn view(&self) -> SubcommandView {
        SubcommandView {
            name: self.name@,
            about: self.about@,
            arguments: self.arguments@.map_values(|argument: Argument| argument@),
        }
    }
}

/// What the command line may hold.
pub struct Grammar {
    pub name: &'static str,
    pub version: &'static str,
    pub about: &'static str,
    /// Whether one of the actions has to be asked for.
    pub required: bool,
    pub actions: Vec<Subcommand>,
}

/// What a grammar says.
pub struct GrammarView {
    pub name: Seq<char>,
    pub version: Seq<char>,
    pub about: Seq<char>,
    pub required: bool,
    pub actions: Seq<SubcommandView>,
}

impl View for Grammar {
    type V = GrammarView;

    open spec fn view(&self) -> GrammarView {
        GrammarView {
            name: self.name@,
            version: self.version@,
            about: self.about@,
            required: self.required,
            actions: self.actions@.map_values(|action: Subcommand| action@),
        }
    }
}

/// The name of a profile, as an argument.
pub open spec fn name_argument() -> ArgumentView {
    ArgumentView { id: "name"@, shown: "NAME"@, required: true, long: None }
}

/// The session to continue, as an argument.
pub open spec fn resume_argument() -> ArgumentView {
    ArgumentView { id: "resume"@, shown: "RESUME"@, required: false, long: Some("resume"@) }
}

/// The grammar of this program.
pub open spec fn own_grammar() -> GrammarView {
    GrammarView {
        name: "coduck"@,
        version: VERSION@,
        about: "Run Codex with a named ChatGPT account"@,
        required: true,
        actions: seq![
            SubcommandView {
                name: "login"@,
                about: "save a ChatGPT account in this profile's keyring entry"@,
                arguments: seq![name_argument()],
            },
            SubcommandView {
                name: "list"@,
                about: "show cached profile identities without contacting Codex"@,
                arguments: Seq::empty(),
            },
            SubcommandView {
                name: "run"@,
                about: "run the official Codex terminal using this profile"@,
                arguments: seq![name_argument(), resume_argument()],
            },
            SubcommandView {
                name: "logout"@,
                about: "remove this profile's local login"@,
                arguments: seq![name_argument()],
            },
        ],
    }
}

fn subcommand(name: &'static str, about: &'static str, named: bool, resumes: bool) -> (action:
    Subcommand)
    ensures
        action@ == (SubcommandView {
            name: name@,
            about: about@,
            arguments: if named && resumes {
                seq![name_argument(), resume_argument()]
            } else if named {
                seq![name_argument()]
            } else if resumes {
                seq![resume_argument()]
            } else {
                Seq::empty()
            },
        }),
{
    let mut arguments: Vec<Argument> = Vec::new();
    if named {
        arguments.push(Argument { id: "name", shown: "NAME", required: true, long: None });
    }
    if resumes {
        arguments.push(
            Argument { id: "resume", shown: "RESUME", required: false, long: Some("resume") },
        );
    }
    let action = Subcommand { name, about, arguments };
    assert(action@.arguments =~= if named && resumes {
        seq![name_argument(), resume_argument()]
    } else if named {
        seq![name_argument()]
    } else if resumes {
        seq![resume_argument()]
    } else {
        Seq::empty()
    });
    action
}

fn grammar() -> (grammar: Grammar)
    ensures
        grammar@ == own_grammar(),
{
    let mut actions: Vec<Subcommand> = Vec::new();
    actions.push(
        subcommand("login", "save a ChatGPT account in this profile's keyring entry", true, false),
    );
    actions.push(
        subcommand("list", "show cached profile identities without contacting Codex", false, false),
    );
    actions.push(
        subcommand("run", "run the official Codex terminal using this profile", true, true),
    );
    actions.push(subcommand("logout", "remove this profile's local login", true, false));
    let grammar = Grammar {
        name: "coduck",
        version: VERSION,
        about: "Run Codex with a named ChatGPT account",
        required: true,
        actions,
    };
    assert(grammar@.actions =~= own_grammar().actions);
    grammar
}

/// What was found on the command line: an action and the values of its arguments.
pub struct Found {
    pub action: String,
    pub values: Vec<(String, Option<String>)>,
}

/// What was found says.
pub struct FoundView {
    pub action: Seq<char>,
    pub values: Seq<(Seq<char>, Option<Seq<char>>)>,
}

impl View for Found {
    type V = FoundView;

    open spec fn view(&self) -> FoundView {
        FoundView {
            action: self.action@,
            values: self.values@.map_values(
                |value: (String, Option<String>)| (value.0@, text_view(value.1)),
            ),
        }
    }
}

/// Why the command line is not followed, as it is to be printed: help and version on the
/// standard output, and anything else as an error.
pub struct Refusal {
    pub text: String,
    pub error: bool,
}

/// What a refusal says.
pub struct RefusalView {
    pub text: Seq<char>,
    pub error: bool,
}

impl View for Refusal {
    type V = RefusalView;

    open spec fn view(&self) -> RefusalView {
        RefusalView { text: self.text@, error: self.error }
    }
}

/// What reading a command line gave says.
pub open spec fn found_view(found: Result<Option<Found>, Refusal>) -> Result<
    Option<FoundView>,
    RefusalView,
> {
    match found {
        Ok(Some(known)) => Ok(Some(known@)),
        Ok(None) => Ok(None),
        Err(refusal) => Err(refusal@),
    }
}

/// The outside type of a command line's grammar.
#[verifier::external_type_specification]
#[verifier::external_body]
pub struct ExCommand(clap::Command);

/// What `clap::Command::try_get_matches_from` finds on a command line that a grammar is for.
pub uninterp spec fn command_line(grammar: GrammarView, line: Seq<Seq<char>>) -> Result<
    Option<FoundView>,
    RefusalView,
>;

/// Turns a grammar into `clap::Command`, member by member. Nothing is claimed of the result.
#[verifier::external_body]
fn to_command(grammar: &Grammar) -> clap::Command {
    let actions = grammar.actions.iter().map(|action| {
        let arguments = action.arguments.iter().map(|argument| {
            let known = clap::Arg::new(argument.id).value_name(argument.shown);
            known.required(argument.required).long(argument.long)
        });
        clap::Command::new(action.name).about(action.about).args(arguments)
    });
    let command = clap::Command::new(grammar.name).version(grammar.version).about(grammar.about);
    let command = command.subcommand_required(grammar.required);
    command.arg_required_else_help(grammar.required).subcommands(actions)
}

/// Reads a command line with `clap::Command::try_get_matches_from`. What is found (the action
/// that `clap::ArgMatches::subcommand` gives, and for each argument that `ids` lists there the
/// value that `try_get_one` gives), or else the text of the `clap::Error` and whether its
/// `use_stderr` holds, are a function of the grammar and the line, which `command_line` names.
/// The grammar has to be the one of this program: `clap` may panic on one that contradicts
/// itself.
#[verifier::external_body]
fn read_line(grammar: &Grammar, line: &Vec<String>) -> (found: Result<Option<Found>, Refusal>)
    requires
        grammar@ == own_grammar(),
    ensures
        found_view(found) == command_line(grammar@, texts(line@)),
{
    match to_command(grammar).try_get_matches_from(line) {
        Ok(matches) => Ok(matches.subcommand().map(|(action, matched)| {
            let values = matched.ids().map(|id| {
                let value = matched.try_get_one::<String>(id.as_str());
                (id.to_string(), value.ok().flatten().cloned())
            });
            Found { action: action.to_owned(), values: values.collect() }
        })),
        Err(error) => Err(Refusal { text: error.to_string(), error: error.use_stderr() }),
    }
}

/// The value of an argument, where it was given.
pub open spec fn value_of(values: Seq<(Seq<char>, Option<Seq<char>>)>, id: Seq<char>) -> Option<
    Seq<char>,
>
    decreases values.len(),
{
    if values.len() == 0 {
        None
    } else if values.first().0 == id && values.first().1 is Some {
        values.first().1
    } else {
        value_of(values.drop_first(), id)
    }
}

/// What the command line asks for, by what was found on it; none where that is incomplete.
pub open spec fn action_of(found: FoundView) -> Option<ActionView> {
    let name = value_of(found.values, "name"@);
    if found.action == "list"@ {
        Some(ActionView::List)
    } else if name is None {
        None
    } else if found.action == "login"@ {
        Some(ActionView::Login { name: name->0 })
    } else if found.action == "run"@ {
        Some(ActionView::Run { name: name->0, resume: value_of(found.values, "resume"@) })
    } else if found.action == "logout"@ {
        Some(ActionView::Logout { name: name->0 })
    } else {
        None
    }
}

/// What is said of a command line that is incomplete.
pub open spec fn incomplete() -> RefusalView {
    RefusalView {
        text: "error: a required subcommand or argument was not provided\n"@,
        error: true,
    }
}

impl Found {
    fn value(&self, id: &str) -> (value: Option<String>)
        ensures
            text_view(value) == value_of(self@.values, id@),
    {
        let ghost all = self@.values;
        let mut i: usize = 0;
        assert(all.skip(0) =~= all);
        while i < self.values.len()
            invariant
                i <= self.values.len(),
                all == self@.values,
                value_of(all, id@) == value_of(all.skip(i as int), id@),
            decreases self.values.len() - i,
        {
            let (name, value) = &self.values[i];
            assert(all.skip(i as int).first() == (name@, text_view(*value)));
            assert(all.skip(i as int).drop_first() =~= all.skip(i + 1));
            if same_text(name.as_str(), id) {
                if let Some(held) = value {
                    return Some(held.clone());
                }
            }
            i += 1;
        }
        assert(all.skip(i as int).len() == 0);
        None
    }

    /// Tells what the command line asks for.
    pub fn action(&self) -> (action: Option<Action>)
        ensures
            match action_of(self@) {
                Some(known) => action is Some && action->0@ == known,
                None => action is None,
            },
    {
        if same_text(self.action.as_str(), "list") {
            return Some(Action::List);
        }
        let name = match self.value("name") {
            Some(name) => name,
            None => return None,
        };
        if same_text(self.action.as_str(), "login") {
            Some(Action::Login { name })
        } else if same_text(self.action.as_str(), "run") {
            Some(Action::Run { name, resume: self.value("resume") })
        } else if same_text(self.action.as_str(), "logout") {
            Some(Action::Logout { name })
        } else {
            None
        }
    }
}

/// What the command line asks for, by what reading it gave.
pub open spec fn args_of(found: Result<Option<FoundView>, RefusalView>) -> Result<
    ActionView,
    RefusalView,
> {
    match found {
        Err(refusal) => Err(refusal),
        Ok(None) => Err(incomplete()),
        Ok(Some(known)) => match action_of(known) {
            Some(action) => Ok(action),
            None => Err(incomplete()),
        },
    }
}

/// What understanding a command line gave says.
pub open spec fn args_view(args: Result<Args, Refusal>) -> Result<ActionView, RefusalView> {
    match args {
        Ok(known) => Ok(known.command@),
        Err(refusal) => Err(refusal@),
    }
}

impl Args {
    /// Tells what the command line asks for, by what reading it gave.
    pub fn from_found(found: Result<Option<Found>, Refusal>) -> (args: Result<Args, Refusal>)
        ensures
            args_view(args) == args_of(found_view(found)),
    {
        let known = match found {
            Err(refusal) => return Err(refusal),
            Ok(known) => known,
        };
        let action = match &known {
            Some(known) => known.action(),
            None => None,
        };
        match action {
            Some(command) => Ok(Args { command }),
            None => Err(
                Refusal {
                    text: "error: a required subcommand or argument was not provided\n".to_owned(),
                    error: true,
                },
            ),
        }
    }

    /// Understands a command line, whose first word is the name of this program.
    pub fn try_parse_from(line: &Vec<String>) -> (args: Result<Args, Refusal>)
        ensures
            args_view(args) == args_of(command_line(own_grammar(), texts(line@))),
    {
        Args::from_found(read_line(&grammar(), line))
    }
}

/// Whatever is asked for but the list, a profile is named on the command line; and a session
/// is continued only where one is named there.
pub proof fn law_commands_name_their_profile(found: FoundView)
    ensures
        action_of(found) matches Some(action) ==> match action {
            ActionView::List => true,
            ActionView::Login { name } => value_of(found.values, "name"@) == Some(name),
            ActionView::Logout { name } => value_of(found.values, "name"@) == Some(name),
            ActionView::Run { name, resume } => value_of(found.values, "name"@) == Some(name)
                && value_of(found.values, "resume"@) == resume,
        },
{
}

/// How many bytes a text has.
pub open spec fn byte_length(text: Seq<char>) -> nat {
    path_bytes(text).len()
}

/// What stands above a column.
pub open spec fn column_header(column: int) -> Seq<char> {
    if column == 0 {
        "PROFILE"@
    } else if column == 1 {
        "CACHED IDENTITY"@
    } else if column == 2 {
        "PLAN"@
    } else {
        "LAST VERIFIED (UNIX SECONDS)"@
    }
}

/// What stands in a column for a profile of which something is remembered.
pub open spec fn cell(name: Seq<char>, metadata: Metadata, column: int) -> Seq<char> {
    if column == 0 {
        name
    } else if column == 1 {
        metadata.identity@.label()
    } else if column == 2 {
        metadata.identity@.plan_type
    } else {
        decimal_text(metadata.last_verified as nat)
    }
}

/// The width of a column: the most bytes that its header or a cell has. A profile of which
/// nothing is remembered does not count.
pub open spec fn column_width(profiles: Seq<ProfileSummary>, column: int) -> nat
    decreases profiles.len(),
{
    if profiles.len() == 0 {
        byte_length(column_header(column))
    } else {
        let before = column_width(profiles.drop_last(), column);
        match profiles.last().metadata {
            Some(metadata) => {
                let length = byte_length(cell(profiles.last().name@, metadata, column));
                if length > before {
                    length
                } else {
                    before
                }
            },
            None => before,
        }
    }
}

/// Three texts brought to the widths of their columns and a fourth, on a line.
pub open spec fn line_of(
    first: Seq<char>,
    second: Seq<char>,
    third: Seq<char>,
    fourth: Seq<char>,
    all: Seq<ProfileSummary>,
) -> Seq<char> {
    padded(first, column_width(all, 0)) + "  "@ + padded(second, column_width(all, 1)) + "  "@
        + padded(third, column_width(all, 2)) + "  "@ + fourth + "\n"@
}

/// The line of a profile.
pub open spec fn profile_line(profile: ProfileSummary, all: Seq<ProfileSummary>) -> Seq<char> {
    let name = profile.name@;
    match profile.metadata {
        Some(metadata) => line_of(
            cell(name, metadata, 0),
            cell(name, metadata, 1),
            cell(name, metadata, 2),
            cell(name, metadata, 3),
            all,
        ),
        None => padded(name, column_width(all, 0)) + "  "@ + "incomplete; use coduck login "@ + name
            + "\n"@,
    }
}

/// The lines of some of all profiles.
pub open spec fn profile_lines(
    profiles: Seq<ProfileSummary>,
    all: Seq<ProfileSummary>,
) -> Seq<char>
    decreases profiles.len(),
{
    if profiles.len() == 0 {
        Seq::empty()
    } else {
        profile_lines(profiles.drop_last(), all) + profile_line(profiles.last(), all)
    }
}

/// The list of all profiles as it is shown.
pub open spec fn listing(profiles: Seq<ProfileSummary>) -> Seq<char> {
    if profiles.len() == 0 {
        "No profiles. Use coduck login NAME.\n"@
    } else {
        line_of(
            column_header(0),
            column_header(1),
            column_header(2),
            column_header(3),
            profiles,
        ) + profile_lines(profiles, profiles)
    }
}

fn width(profiles: &Vec<ProfileSummary>, column: usize) -> (width: usize)
    requires
        column < 3,
    ensures
        width == column_width(profiles@, column as int),
{
    let header = if column == 0 {
        "PROFILE"
    } else if column == 1 {
        "CACHED IDENTITY"
    } else {
        "PLAN"
    };
    let mut width: usize = header.as_bytes().len();
    let mut i: usize = 0;
    while i < profiles.len()
        invariant
            i <= profiles.len(),
            column < 3,
            width == column_width(profiles@.take(i as int), column as int),
        decreases profiles.len() - i,
    {
        let profile = &profiles[i];
        proof {
            assert(profiles@.take(i + 1).drop_last() =~= profiles@.take(i as int));
        }
        if let Some(metadata) = &profile.metadata {
            let text = if column == 0 {
                profile.name.as_str()
            } else if column == 1 {
                metadata.identity.label()
            } else {
                metadata.identity.plan_type.as_str()
            };
            let length: usize = text.as_bytes().len();
            if length > width {
                width = length;
            }
        }
        i += 1;
    }
    assert(profiles@.take(profiles.len() as int) =~= profiles@);
    width
}

fn push_line(
    output: &mut String,
    first: &str,
    second: &str,
    third: &str,
    fourth: &str,
    widths: (usize, usize, usize),
    Ghost(all): Ghost<Seq<ProfileSummary>>,
)
    requires
        widths.0 == column_width(all, 0),
        widths.1 == column_width(all, 1),
        widths.2 == column_width(all, 2),
    ensures
        final(output)@ == old(output)@ + line_of(first@, second@, third@, fourth@, all),
{
    push_padded(output, first, widths.0);
    output.append("  ");
    push_padded(output, second, widths.1);
    output.append("  ");
    push_padded(output, third, widths.2);
    output.append("  ");
    output.append(fourth);
    output.append("\n");
    assert(output@ =~= old(output)@ + line_of(first@, second@, third@, fourth@, all));
}

/// Shows the profiles with what is remembered of each, in columns.
pub fn list_profiles(profiles: &Vec<ProfileSummary>) -> (output: String)
    ensures
        output@ == listing(profiles@),
{
    if profiles.len() == 0 {
        return "No profiles. Use coduck login NAME.\n".to_owned();
    }
    let ghost all = profiles@;
    let widths = (width(profiles, 0), width(profiles, 1), width(profiles, 2));
    let mut output = String::new();
    push_line(
        &mut output,
        "PROFILE",
        "CACHED IDENTITY",
        "PLAN",
        "LAST VERIFIED (UNIX SECONDS)",
        widths,
        Ghost(all),
    );
    let ghost start = output@;
    proof {
        assert(start =~= line_of(
            column_header(0),
            column_header(1),
            column_header(2),
            column_header(3),
            all,
        ));
    }
    let mut i: usize = 0;
    assert(output@ =~= start + profile_lines(all.take(0), all));
    while i < profiles.len()
        invariant
            i <= profiles.len(),
            all == profiles@,
            widths.0 == column_width(all, 0),
            widths.1 == column_width(all, 1),
            widths.2 == column_width(all, 2),
            output@ == start + profile_lines(all.take(i as int), all),
        decreases profiles.len() - i,
    {
        let profile = &profiles[i];
        let ghost before = output@;
        match &profile.metadata {
            Some(metadata) => {
                let verified = decimal(metadata.last_verified);
                push_line(
                    &mut output,
                    profile.name.as_str(),
                    metadata.identity.label(),
                    metadata.identity.plan_type.as_str(),
                    verified.as_str(),
                    widths,
                    Ghost(all),
                );
            },
            None => {
                push_padded(&mut output, profile.name.as_str(), widths.0);
                output.append("  ");
                output.append("incomplete; use coduck login ");
                output.append(profile.name.as_str());
                output.append("\n");
            },
        }
        proof {
            let line = profile_line(all[i as int], all);
            assert(output@ =~= before + line);
            assert(all.take(i + 1).drop_last() =~= all.take(i as int));
            assert(output@ =~= start + profile_lines(all.take(i + 1), all));
        }
        i += 1;
    }
    assert(all.take(profiles.len() as int) =~= all);
    output
}

/// Every cell and every header fits into its column, counted in bytes.
pub proof fn law_columns_hold_their_cells(profiles: Seq<ProfileSummary>, i: int, column: int)
    requires
        0 <= i < profiles.len(),
        profiles[i].metadata is Some,
    ensures
        byte_length(column_header(column)) <= column_width(profiles, column),
        byte_length(cell(profiles[i].name@, profiles[i].metadata->0, column)) <= column_width(
            profiles,
            column,
        ),
    decreases profiles.len(),
{
    lemma_header_fits(profiles, column);
    if i < profiles.len() - 1 {
        let before = profiles.drop_last();
        assert(before[i] == profiles[i]);
        law_columns_hold_their_cells(before, i, column);
    }
}

proof fn lemma_header_fits(profiles: Seq<ProfileSummary>, column: int)
    ensures
        byte_length(column_header(column)) <= column_width(profiles, column),
    decreases profiles.len(),
{
    if profiles.len() > 0 {
        lemma_header_fits(profiles.drop_last(), column);
    }
}

} // verus!
