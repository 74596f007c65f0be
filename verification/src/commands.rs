use vstd::prelude::*;
use crate::reaction::{
    AddReactionRoleCommand, RemoveReactionRoleCommand, ADD_REACTION_ROLE_NAME,
    REMOVE_REACTION_ROLE_NAME,
};
use crate::snippets::{
    ExportSnippetCommand, RemoveSnippetCommand, SetSnippetCommand, SnippetCommand,
    EXPORT_SNIPPET_NAME, REMOVE_SNIPPET_NAME, SET_SNIPPET_NAME, SNIPPET_CHOICES, SNIPPET_NAME,
};
use crate::state::{State, StateView};
use crate::reaction::lemma_choice_targets_its_message;
use crate::text::spec_parse_u64;

verus! {

/// What a command option accepts.
#[derive(PartialEq, Eq, Structural, Clone, Copy)]
pub enum OptionKind {
    String,
    Role,
}

/// One of the fixed values a command option offers.
pub struct CommandChoice {
    pub name: String,
    pub value: String,
}

/// An option of a slash command.
pub struct CommandOption {
    pub name: String,
    pub description: String,
    pub kind: OptionKind,
    pub required: bool,
    pub choices: Vec<CommandChoice>,
}

/// A slash command as the bot registers it.
pub struct CommandSpec {
    pub name: String,
    pub description: String,
    pub options: Vec<CommandOption>,
}

pub struct ChoiceView {
    pub name: Seq<char>,
    pub value: Seq<char>,
}

pub struct OptionView {
    pub name: Seq<char>,
    pub description: Seq<char>,
    pub kind: OptionKind,
    pub required: bool,
    pub choices: Seq<ChoiceView>,
}

pub struct CommandView {
    pub name: Seq<char>,
    pub description: Seq<char>,
    pub options: Seq<OptionView>,
}

impl View for CommandChoice {
    type V = ChoiceView;

    open spec fn view(&self) -> ChoiceView {
        ChoiceView { name: self.name@, value: self.value@ }
    }
}

pub open spec fn choices_view(v: Seq<CommandChoice>) -> Seq<ChoiceView> {
    v.map_values(|c: CommandChoice| c@)
}

impl View for CommandOption {
    type V = OptionView;

    open spec fn view(&self) -> OptionView {
        OptionView {
            name: self.name@,
            description: self.description@,
            kind: self.kind,
            required: self.required,
            choices: choices_view(self.choices@),
        }
    }
}

pub open spec fn options_view(v: Seq<CommandOption>) -> Seq<OptionView> {
    v.map_values(|o: CommandOption| o@)
}

impl View for CommandSpec {
    type V = CommandView;

    open spec fn view(&self) -> CommandView {
        CommandView { name: self.name@, description: self.description@, options: options_view(self.options@) }
    }
}

pub open spec fn commands_view(v: Seq<CommandSpec>) -> Seq<CommandView> {
    v.map_values(|c: CommandSpec| c@)
}

/// A required option of this kind with these choices.
pub open spec fn required_option(
    name: Seq<char>,
    description: Seq<char>,
    kind: OptionKind,
    choices: Seq<ChoiceView>,
) -> OptionView {
    OptionView { name, description, kind, required: true, choices }
}

/// Builds a required option.
pub fn make_required_option(name: &str, description: &str, kind: OptionKind, choices: Vec<CommandChoice>) -> (res:
    CommandOption)
    ensures
        res@ == required_option(name@, description@, kind, choices_view(choices@)),
{
    CommandOption {
        name: String::from_str(name),
        description: String::from_str(description),
        kind,
        required: true,
        choices,
    }
}

/// The value that a user gave for an option.
pub enum OptionValue {
    String(String),
    Role(u64),
    Other,
}

/// A copy of an option value.
pub fn copy_option_value(v: &OptionValue) -> (res: OptionValue)
    ensures
        res == *v,
{
    match v {
        OptionValue::String(s) => OptionValue::String(s.clone()),
        OptionValue::Role(r) => OptionValue::Role(*r),
        OptionValue::Other => OptionValue::Other,
    }
}

/// The resolved value of the option at `index`, if the command has that option and its
/// value was resolved.
pub fn get_option_value(options: &Vec<Option<OptionValue>>, index: usize) -> (res: Option<OptionValue>)
    ensures
        res == (if index < options.len() {
            options@[index as int]
        } else {
            None
        }),
{
    if index < options.len() {
        match &options[index] {
            Some(v) => Some(copy_option_value(v)),
            None => None,
        }
    } else {
        None
    }
}

/// The commands the bot answers.
#[derive(PartialEq, Eq, Structural, Clone, Copy)]
pub enum CommandKind {
    Snippet,
    SetSnippet,
    RemoveSnippet,
    ExportSnippet,
    AddReactionRole,
    RemoveReactionRole,
}

impl CommandKind {
    /// The name under which the command is registered.
    pub open spec fn spec_name(self) -> Seq<char> {
        match self {
            CommandKind::Snippet => SNIPPET_NAME@,
            CommandKind::SetSnippet => SET_SNIPPET_NAME@,
            CommandKind::RemoveSnippet => REMOVE_SNIPPET_NAME@,
            CommandKind::ExportSnippet => EXPORT_SNIPPET_NAME@,
            CommandKind::AddReactionRole => ADD_REACTION_ROLE_NAME@,
            CommandKind::RemoveReactionRole => REMOVE_REACTION_ROLE_NAME@,
        }
    }

    /// The command as it is registered, given the state.
    pub open spec fn spec(self, st: StateView) -> CommandView {
        match self {
            CommandKind::Snippet => SnippetCommand::spec(st),
            CommandKind::SetSnippet => SetSnippetCommand::spec(),
            CommandKind::RemoveSnippet => RemoveSnippetCommand::spec(st),
            CommandKind::ExportSnippet => ExportSnippetCommand::spec(st),
            CommandKind::AddReactionRole => AddReactionRoleCommand::spec(),
            CommandKind::RemoveReactionRole => RemoveReactionRoleCommand::spec(st),
        }
    }
}

/// The command that answers to this name, if any.
pub open spec fn spec_command_kind(name: Seq<char>) -> Option<CommandKind> {
    if name == SNIPPET_NAME@ {
        Some(CommandKind::Snippet)
    } else if name == SET_SNIPPET_NAME@ {
        Some(CommandKind::SetSnippet)
    } else if name == REMOVE_SNIPPET_NAME@ {
        Some(CommandKind::RemoveSnippet)
    } else if name == EXPORT_SNIPPET_NAME@ {
        Some(CommandKind::ExportSnippet)
    } else if name == ADD_REACTION_ROLE_NAME@ {
        Some(CommandKind::AddReactionRole)
    } else if name == REMOVE_REACTION_ROLE_NAME@ {
        Some(CommandKind::RemoveReactionRole)
    } else {
        None
    }
}

/// The command that answers to this name, if any.
pub fn command_kind(name: &str) -> (res: Option<CommandKind>)
    ensures
        res == spec_command_kind(name@),
{
    let name = name.to_owned();
    if name == SNIPPET_NAME.to_owned() {
        Some(CommandKind::Snippet)
    } else if name == SET_SNIPPET_NAME.to_owned() {
        Some(CommandKind::SetSnippet)
    } else if name == REMOVE_SNIPPET_NAME.to_owned() {
        Some(CommandKind::RemoveSnippet)
    } else if name == EXPORT_SNIPPET_NAME.to_owned() {
        Some(CommandKind::ExportSnippet)
    } else if name == ADD_REACTION_ROLE_NAME.to_owned() {
        Some(CommandKind::AddReactionRole)
    } else if name == REMOVE_REACTION_ROLE_NAME.to_owned() {
        Some(CommandKind::RemoveReactionRole)
    } else {
        None
    }
}

/// The commands in the order the bot registers them.
pub open spec fn registration_order() -> Seq<CommandKind> {
    seq![
        CommandKind::Snippet,
        CommandKind::SetSnippet,
        CommandKind::RemoveSnippet,
        CommandKind::ExportSnippet,
        CommandKind::AddReactionRole,
        CommandKind::RemoveReactionRole,
    ]
}

/// The commands the bot registers, in order. The snippet commands offer the first 25
/// snippets as choices, so there must be 25 snippets at least.
pub fn get_commands(state: &State) -> (res: Vec<CommandSpec>)
    requires
        state@.snippets.len() >= SNIPPET_CHOICES,
    ensures
        commands_view(res@) == registration_order().map_values(|k: CommandKind| k.spec(state@)),
{
    let res = vec![
        SnippetCommand::register(state),
        SetSnippetCommand::register(),
        RemoveSnippetCommand::register(state),
        ExportSnippetCommand::register(state),
        AddReactionRoleCommand::register(),
        RemoveReactionRoleCommand::register(state),
    ];
    assert(commands_view(res@) =~= registration_order().map_values(|k: CommandKind| k.spec(state@)));
    res
}

/// Every command is answered under the name it is registered with: looking up the name
/// of a registered command finds that command.
pub proof fn lemma_registered_names_dispatch(kind: CommandKind, st: StateView)
    ensures
        kind.spec(st).name == kind.spec_name(),
        spec_command_kind(kind.spec_name()) == Some(kind),
{
    reveal_strlit("snippet");
    reveal_strlit("set-snippet");
    reveal_strlit("remove-snippet");
    reveal_strlit("export-snippet");
    reveal_strlit("add-reaction-role");
    reveal_strlit("remove-reaction-role");
    assert(REMOVE_SNIPPET_NAME@[0] != EXPORT_SNIPPET_NAME@[0]);
    assert(SNIPPET_NAME@.len() != SET_SNIPPET_NAME@.len());
    assert(REMOVE_SNIPPET_NAME@ != EXPORT_SNIPPET_NAME@);
}

/// What every registered command asks for. All options are required, and only the role
/// option of `add-reaction-role` asks for a role; every other option asks for text. The
/// commands that take a snippet id take exactly one option, which offers the first 25
/// snippets in order, each standing for its id and shown as `id: title`. The command that
/// removes a reaction role takes exactly one option, which offers one choice per reaction
/// role, in order, shown as it stands and reading back as that role's message id. The
/// other commands offer no choices.
pub proof fn lemma_registered_options(st: StateView, kind: CommandKind)
    requires
        st.snippets.len() >= SNIPPET_CHOICES,
    ensures
        ({
            let opts = kind.spec(st).options;
            &&& forall|j: int| 0 <= j < opts.len() ==> #[trigger] opts[j].required
            &&& forall|j: int|
                0 <= j < opts.len() ==> ((#[trigger] opts[j]).kind == OptionKind::Role <==> (kind
                    == CommandKind::AddReactionRole && j == 2))
            &&& (kind == CommandKind::Snippet || kind == CommandKind::RemoveSnippet || kind
                == CommandKind::ExportSnippet) ==> {
                &&& opts.len() == 1
                &&& opts[0].choices.len() == SNIPPET_CHOICES
                &&& forall|c: int|
                    0 <= c < SNIPPET_CHOICES ==> (#[trigger] opts[0].choices[c]).value == st.snippets[c].id
                        && opts[0].choices[c].name == st.snippets[c].id + ": "@ + st.snippets[c].title
            }
            &&& kind == CommandKind::RemoveReactionRole ==> {
                &&& opts.len() == 1
                &&& opts[0].choices.len() == st.reaction_roles.len()
                &&& forall|c: int|
                    0 <= c < st.reaction_roles.len() ==> spec_parse_u64(
                        (#[trigger] opts[0].choices[c]).value,
                    ) == Some(st.reaction_roles[c].message_id) && opts[0].choices[c].name
                        == opts[0].choices[c].value
            }
            &&& (kind == CommandKind::SetSnippet || kind == CommandKind::AddReactionRole) ==> {
                &&& opts.len() == 3
                &&& forall|j: int| 0 <= j < opts.len() ==> (#[trigger] opts[j]).choices.len() == 0
            }
        }),
{
    let opts = kind.spec(st).options;
    if kind == CommandKind::Snippet || kind == CommandKind::RemoveSnippet || kind
        == CommandKind::ExportSnippet {
        assert forall|c: int| 0 <= c < SNIPPET_CHOICES implies (#[trigger] opts[0].choices[c]).value
            == st.snippets[c].id && opts[0].choices[c].name == st.snippets[c].id + ": "@
            + st.snippets[c].title by {
            assert(st.snippets.take(SNIPPET_CHOICES as int)[c] == st.snippets[c]);
        }
    }
    if kind == CommandKind::RemoveReactionRole {
        assert forall|c: int| 0 <= c < st.reaction_roles.len() implies spec_parse_u64(
            (#[trigger] opts[0].choices[c]).value,
        ) == Some(st.reaction_roles[c].message_id) && opts[0].choices[c].name
            == opts[0].choices[c].value by {
            lemma_choice_targets_its_message(st, c);
        }
    }
}

} // verus!
