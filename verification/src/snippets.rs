use vstd::prelude::*;
use crate::commands::{
    choices_view, make_required_option, required_option, ChoiceView, CommandChoice, CommandSpec,
    CommandView, OptionKind, OptionValue,
};
use crate::reply::{
    embed_reply, error_embed, error_reply, make_plain_embed, plain_embed, surround, Reply,
    ReplyView, OK_COLOR,
};
use crate::state::{has_id, lemma_first_match_at, SnippetView, State, StateView};
use crate::text::{unescape_newlines, unescape_newlines_in};

verus! {

pub const SNIPPET_NAME: &'static str = "snippet";

/// Shows a snippet.
pub struct SnippetCommand;

pub const SET_SNIPPET_NAME: &'static str = "set-snippet";

/// Sets a snippet's title and content.
pub struct SetSnippetCommand;

pub const REMOVE_SNIPPET_NAME: &'static str = "remove-snippet";

/// Removes a snippet.
pub struct RemoveSnippetCommand;

pub const EXPORT_SNIPPET_NAME: &'static str = "export-snippet";

/// Shows a snippet's raw content for editing.
pub struct ExportSnippetCommand;

/// The number of snippets offered as choices.
pub const SNIPPET_CHOICES: usize = 25;

/// The choice that names a snippet: shown as `id: title`, standing for the id.
pub open spec fn snippet_choice(s: SnippetView) -> ChoiceView {
    ChoiceView { name: s.id + ": "@ + s.title, value: s.id }
}

/// The choices offered for a snippet id: the first 25 snippets.
pub open spec fn snippet_choices(st: StateView) -> Seq<ChoiceView> {
    st.snippets.take(SNIPPET_CHOICES as int).map_values(|s: SnippetView| snippet_choice(s))
}

/// The choices offered for a snippet id: one for each of the first 25 snippets. There must
/// be 25 snippets at least.
pub fn gen_opts(state: &State) -> (res: Vec<CommandChoice>)
    requires
        state@.snippets.len() >= SNIPPET_CHOICES,
    ensures
        choices_view(res@) == snippet_choices(state@),
{
    let mut res: Vec<CommandChoice> = Vec::new();
    let mut i: usize = 0;
    while i < SNIPPET_CHOICES
        invariant
            i <= SNIPPET_CHOICES <= state.snippets.len(),
            choices_view(res@) == snippet_choices(state@).take(i as int),
        decreases SNIPPET_CHOICES - i,
    {
        let snippet = &state.snippets[i];
        let mut name = snippet.id.clone();
        name.append(": ");
        name.append(snippet.title.as_str());
        let choice = CommandChoice { name, value: snippet.id.clone() };
        assert(state@.snippets[i as int] == state.snippets@[i as int]@);
        assert(choice@ == snippet_choice(state@.snippets[i as int]));
        let ghost before = res@;
        res.push(choice);
        assert(res@ == before.push(choice));
        assert(snippet_choices(state@)[i as int] == snippet_choice(state@.snippets[i as int]));
        assert(choices_view(res@) =~= choices_view(before).push(choice@));
        assert(snippet_choices(state@).take(i + 1) =~= snippet_choices(state@).take(i as int).push(
            snippet_choices(state@)[i as int],
        ));
        assert(choices_view(res@) =~= snippet_choices(state@).take(i + 1));
        i = i + 1;
    }
    assert(snippet_choices(state@).take(SNIPPET_CHOICES as int) =~= snippet_choices(state@));
    res
}

/// Where snippet ids are unique, the value of the choice offered for a snippet finds that
/// snippet.
pub proof fn lemma_choice_finds_its_snippet(st: StateView, i: int)
    requires
        0 <= i < SNIPPET_CHOICES <= st.snippets.len(),
        st.unique_snippet_ids(),
    ensures
        st.find_snippet(snippet_choices(st)[i].value) == Some(st.snippets[i]),
{
    let id = st.snippets[i].id;
    assert(st.snippets.take(SNIPPET_CHOICES as int)[i] == st.snippets[i]);
    assert(snippet_choices(st)[i] == snippet_choice(st.snippets[i]));
    assert forall|j: int| 0 <= j < i implies !has_id(id)(#[trigger] st.snippets[j]) by {
        assert(st.snippets[j].id != st.snippets[i].id);
    }
    lemma_first_match_at(st.snippets, has_id(id), i);
}

/// The reply that shows the snippet with this id, or says that there is none.
pub open spec fn snippet_reply(st: StateView, name: Seq<char>) -> ReplyView {
    match st.find_snippet(name) {
        Some(s) => embed_reply(plain_embed(s.title, s.content, Some(OK_COLOR))),
        None => embed_reply(error_embed("Failed to get embed for snippet '"@ + name + "'"@)),
    }
}

/// Builds the reply that shows the snippet with this id, or says that there is none.
pub fn followup_snippet(state: &State, snippet_name: &String) -> (res: Reply)
    ensures
        res@ == snippet_reply(state@, snippet_name@),
{
    match state.find_snippet(snippet_name) {
        Some(snippet) => {
            let embed = make_plain_embed(snippet.title.clone(), snippet.content.clone(), Some(OK_COLOR));
            Reply { ephemeral: false, content: None, embed }
        },
        None => error_reply(surround("Failed to get embed for snippet '", snippet_name.as_str(), "'")),
    }
}

/// The option that asks for a snippet id, offering the snippets as choices.
pub open spec fn snippet_id_option(st: StateView, name: Seq<char>, description: Seq<char>) -> crate::commands::OptionView {
    required_option(name, description, OptionKind::String, snippet_choices(st))
}

impl SnippetCommand {
    pub open spec fn spec(st: StateView) -> CommandView {
        CommandView {
            name: SNIPPET_NAME@,
            description: "Shows a snippet"@,
            options: seq![snippet_id_option(st, "snippet"@, "The name of the snippet"@)],
        }
    }

    /// The command as it is registered.
    pub fn register(state: &State) -> (res: CommandSpec)
        requires
            state@.snippets.len() >= SNIPPET_CHOICES,
        ensures
            res@ == Self::spec(state@),
    {
        let option = make_required_option("snippet", "The name of the snippet", OptionKind::String, gen_opts(state));
        let res = CommandSpec {
            name: String::from_str(SNIPPET_NAME),
            description: String::from_str("Shows a snippet"),
            options: vec![option],
        };
        assert(res@.options =~= Self::spec(state@).options);
        res
    }

    /// The answer to the command: the snippet named by the option, when the option is text.
    pub fn invoke(state: &State, id: &OptionValue) -> (res: Option<Reply>)
        ensures
            match id {
                OptionValue::String(id) => res matches Some(r) && r@ == snippet_reply(state@, id@),
                _ => res is None,
            },
    {
        match id {
            OptionValue::String(id) => Some(followup_snippet(state, id)),
            _ => None,
        }
    }
}

impl SetSnippetCommand {
    pub open spec fn spec() -> CommandView {
        CommandView {
            name: SET_SNIPPET_NAME@,
            description: "Set a snippet's contents"@,
            options: seq![
                required_option("id"@, "The snippet ID"@, OptionKind::String, Seq::empty()),
                required_option("title"@, "The embed title"@, OptionKind::String, Seq::empty()),
                required_option("content"@, "The embed content"@, OptionKind::String, Seq::empty()),
            ],
        }
    }

    /// The command as it is registered.
    pub fn register() -> (res: CommandSpec)
        ensures
            res@ == Self::spec(),
    {
        let id = make_required_option("id", "The snippet ID", OptionKind::String, Vec::new());
        let title = make_required_option("title", "The embed title", OptionKind::String, Vec::new());
        let content = make_required_option("content", "The embed content", OptionKind::String, Vec::new());
        assert(id@.choices =~= Seq::<ChoiceView>::empty());
        assert(title@.choices =~= Seq::<ChoiceView>::empty());
        assert(content@.choices =~= Seq::<ChoiceView>::empty());
        let res = CommandSpec {
            name: String::from_str(SET_SNIPPET_NAME),
            description: String::from_str("Set a snippet's contents"),
            options: vec![id, title, content],
        };
        assert(res@.options =~= Self::spec().options);
        res
    }

    /// Sets the snippet when the three options are text, giving back its id; otherwise
    /// changes nothing.
    pub fn invoke(state: &mut State, id: OptionValue, title: OptionValue, content: OptionValue) -> (res: Option<
        String,
    >)
        ensures
            match (id, title, content) {
                (OptionValue::String(i), OptionValue::String(t), OptionValue::String(c)) => {
                    &&& final(state)@ == old(state)@.set_snippet(i@, t@, c@)
                    &&& res matches Some(r) && r@ == i@
                },
                _ => final(state)@ == old(state)@ && res is None,
            },
    {
        match (id, title, content) {
            (OptionValue::String(i), OptionValue::String(t), OptionValue::String(c)) => {
                let res = i.clone();
                state.set_snippet(i, t, c);
                Some(res)
            },
            _ => None,
        }
    }

    /// The answer once the commands were registered again: the error, if that failed, or
    /// else the snippet.
    pub fn reply(state: &State, id: &String, register_error: Option<String>) -> (res: Reply)
        ensures
            res@ == match register_error {
                Some(e) => embed_reply(error_embed(e@)),
                None => snippet_reply(state@, id@),
            },
    {
        match register_error {
            Some(e) => error_reply(e),
            None => followup_snippet(state, id),
        }
    }
}

/// The reply to removing the snippet with this id, found or not.
pub open spec fn removed_snippet_reply(id: Seq<char>, found: bool) -> ReplyView {
    if found {
        embed_reply(
            plain_embed(
                "Removed snippet"@,
                "Successfully removed the '"@ + id + "' snippet"@,
                Some(OK_COLOR),
            ),
        )
    } else {
        embed_reply(error_embed("Failed to find a snippet '"@ + id + "'"@))
    }
}

impl RemoveSnippetCommand {
    pub open spec fn spec(st: StateView) -> CommandView {
        CommandView {
            name: REMOVE_SNIPPET_NAME@,
            description: "Removes a snippet"@,
            options: seq![snippet_id_option(st, "id"@, "The snippet's ID"@)],
        }
    }

    /// The command as it is registered.
    pub fn register(state: &State) -> (res: CommandSpec)
        requires
            state@.snippets.len() >= SNIPPET_CHOICES,
        ensures
            res@ == Self::spec(state@),
    {
        let option = make_required_option("id", "The snippet's ID", OptionKind::String, gen_opts(state));
        let res = CommandSpec {
            name: String::from_str(REMOVE_SNIPPET_NAME),
            description: String::from_str("Removes a snippet"),
            options: vec![option],
        };
        assert(res@.options =~= Self::spec(state@).options);
        res
    }

    /// Removes the snippet named by the option, when the option is text, and gives the
    /// answer; otherwise changes nothing and gives none.
    pub fn invoke(state: &mut State, id: &OptionValue) -> (res: Option<Reply>)
        ensures
            match id {
                OptionValue::String(id) => {
                    &&& final(state)@ == old(state)@.remove_snippet(id@)
                    &&& res matches Some(r) && r@ == removed_snippet_reply(
                        id@,
                        old(state)@.find_snippet(id@) is Some,
                    )
                },
                _ => final(state)@ == old(state)@ && res is None,
            },
    {
        match id {
            OptionValue::String(id) => {
                let removed = state.remove_snippet(id);
                let reply = match removed {
                    Some(_) => {
                        let embed = make_plain_embed(
                            String::from_str("Removed snippet"),
                            surround("Successfully removed the '", id.as_str(), "' snippet"),
                            Some(OK_COLOR),
                        );
                        Reply { ephemeral: false, content: None, embed }
                    },
                    None => error_reply(surround("Failed to find a snippet '", id.as_str(), "'")),
                };
                Some(reply)
            },
            _ => None,
        }
    }
}

/// The reply to exporting the snippet with this id: its content, with `\n` escapes turned
/// into newlines, in a code block above the embed, or an error without colour.
pub open spec fn export_reply(st: StateView, id: Seq<char>) -> ReplyView {
    match st.find_snippet(id) {
        Some(s) => ReplyView {
            ephemeral: false,
            content: Some("```\n"@ + unescape_newlines(s.content) + "\n```"@),
            embed: plain_embed(s.title, s.content, Some(OK_COLOR)),
        },
        None => embed_reply(plain_embed("Error"@, "Failed to find snippet '"@ + id + "'"@, None)),
    }
}

impl ExportSnippetCommand {
    pub open spec fn spec(st: StateView) -> CommandView {
        CommandView {
            name: EXPORT_SNIPPET_NAME@,
            description: "Exports a snippet for editing"@,
            options: seq![snippet_id_option(st, "id"@, "The snippet's ID"@)],
        }
    }

    /// The command as it is registered.
    pub fn register(state: &State) -> (res: CommandSpec)
        requires
            state@.snippets.len() >= SNIPPET_CHOICES,
        ensures
            res@ == Self::spec(state@),
    {
        let option = make_required_option("id", "The snippet's ID", OptionKind::String, gen_opts(state));
        let res = CommandSpec {
            name: String::from_str(EXPORT_SNIPPET_NAME),
            description: String::from_str("Exports a snippet for editing"),
            options: vec![option],
        };
        assert(res@.options =~= Self::spec(state@).options);
        res
    }

    /// The answer to the command, when the option is text.
    pub fn invoke(state: &State, id: &OptionValue) -> (res: Option<Reply>)
        ensures
            match id {
                OptionValue::String(id) => res matches Some(r) && r@ == export_reply(state@, id@),
                _ => res is None,
            },
    {
        match id {
            OptionValue::String(id) => {
                let reply = match state.find_snippet(id) {
                    Some(s) => {
                        let unescaped = unescape_newlines_in(s.content.as_str());
                        let content = surround("```\n", unescaped.as_str(), "\n```");
                        let embed = make_plain_embed(s.title.clone(), s.content.clone(), Some(OK_COLOR));
                        Reply { ephemeral: false, content: Some(content), embed }
                    },
                    None => {
                        let embed = make_plain_embed(
                            String::from_str("Error"),
                            surround("Failed to find snippet '", id.as_str(), "'"),
                            None,
                        );
                        Reply { ephemeral: false, content: None, embed }
                    },
                };
                Some(reply)
            },
            _ => None,
        }
    }
}

} // verus!
