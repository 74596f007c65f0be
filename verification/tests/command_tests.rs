use tabletbot::commands::{command_kind, get_commands, get_option_value, CommandKind, OptionKind, OptionValue};
use tabletbot::reaction::{
    find_guild_role, gen_opts as reaction_choices, get_reaction_role, AddReactionRoleCommand,
    InvokeError, RemoveReactionRoleCommand, ADD_REACTION_ROLE_NAME, REMOVE_REACTION_ROLE_NAME,
};
use tabletbot::reply::{ERROR_COLOR, OK_COLOR};
use tabletbot::snippets::{
    followup_snippet, gen_opts as snippet_choices, ExportSnippetCommand, RemoveSnippetCommand,
    SetSnippetCommand, SnippetCommand, EXPORT_SNIPPET_NAME, REMOVE_SNIPPET_NAME, SET_SNIPPET_NAME,
    SNIPPET_NAME,
};
use tabletbot::state::{ReactionRole, Snippet, State};

fn text(s: &str) -> OptionValue {
    OptionValue::String(s.to_string())
}

fn state_with(ids: &[(&str, &str, &str)]) -> State {
    let mut state = State::default();
    for (id, title, content) in ids {
        state.snippets.push(Snippet { id: id.to_string(), title: title.to_string(), content: content.to_string() });
    }
    state
}

fn many_snippets(n: usize) -> State {
    let mut state = State::default();
    for i in 0..n {
        state.set_snippet(format!("id{}", i), format!("Title {}", i), format!("Content {}", i));
    }
    state
}

#[test]
fn option_values_by_index() {
    let options = vec![Some(text("a")), None, Some(OptionValue::Role(5))];
    assert!(matches!(get_option_value(&options, 0), Some(OptionValue::String(s)) if s == "a"));
    assert!(get_option_value(&options, 1).is_none());
    assert!(matches!(get_option_value(&options, 2), Some(OptionValue::Role(5))));
    assert!(get_option_value(&options, 3).is_none());
}

#[test]
fn names_dispatch_to_their_commands() {
    assert!(command_kind(SNIPPET_NAME) == Some(CommandKind::Snippet));
    assert!(command_kind("set-snippet") == Some(CommandKind::SetSnippet));
    assert!(command_kind(REMOVE_SNIPPET_NAME) == Some(CommandKind::RemoveSnippet));
    assert!(command_kind(EXPORT_SNIPPET_NAME) == Some(CommandKind::ExportSnippet));
    assert!(command_kind(ADD_REACTION_ROLE_NAME) == Some(CommandKind::AddReactionRole));
    assert!(command_kind(REMOVE_REACTION_ROLE_NAME) == Some(CommandKind::RemoveReactionRole));
    assert!(command_kind("snippets").is_none());
    assert!(command_kind("").is_none());
}

#[test]
fn registered_commands_in_order() {
    let state = many_snippets(30);
    let commands = get_commands(&state);
    let names: Vec<&str> = commands.iter().map(|c| c.name.as_str()).collect();
    assert_eq!(names, vec![SNIPPET_NAME, SET_SNIPPET_NAME, REMOVE_SNIPPET_NAME, EXPORT_SNIPPET_NAME, ADD_REACTION_ROLE_NAME, REMOVE_REACTION_ROLE_NAME]);
    for c in &commands {
        assert!(command_kind(&c.name).is_some());
    }
    let snippet = &commands[0];
    assert_eq!(snippet.description, "Shows a snippet");
    assert_eq!(snippet.options.len(), 1);
    assert_eq!(snippet.options[0].name, "snippet");
    assert!(snippet.options[0].required);
    assert!(snippet.options[0].kind == OptionKind::String);
    assert_eq!(snippet.options[0].choices.len(), 25);
    let add = &commands[4];
    assert_eq!(add.options.len(), 3);
    assert!(add.options[2].kind == OptionKind::Role);
    assert_eq!(add.options[2].description, "The role to assign when reacted with this emote");
}

#[test]
fn snippet_choices_are_the_first_25() {
    let state = many_snippets(27);
    let choices = snippet_choices(&state);
    assert_eq!(choices.len(), 25);
    assert_eq!(choices[0].name, "id0: Title 0");
    assert_eq!(choices[0].value, "id0");
    assert_eq!(choices[24].value, "id24");
}

#[test]
fn reaction_role_choices_name_messages_in_decimal() {
    let mut state = State::default();
    state.add_reaction_role(ReactionRole { message_id: 1095473409958703164, role_id: 7, emote: "x".to_string() });
    state.add_reaction_role(ReactionRole { message_id: 42, role_id: 8, emote: "y".to_string() });
    let choices = reaction_choices(&state);
    assert_eq!(choices.len(), 2);
    assert_eq!(choices[0].name, "1095473409958703164");
    assert_eq!(choices[0].value, "1095473409958703164");
    assert_eq!(choices[1].value, "42");
    let spec = RemoveReactionRoleCommand::register(&state);
    assert_eq!(spec.options[0].choices.len(), 2);
}

#[test]
fn snippet_command_shows_or_reports() {
    let state = state_with(&[("faq", "FAQ", "Read it")]);
    let reply = SnippetCommand::invoke(&state, &text("faq")).unwrap();
    assert!(!reply.ephemeral);
    assert!(reply.content.is_none());
    assert_eq!(reply.embed.title, "FAQ");
    assert_eq!(reply.embed.description, "Read it");
    assert_eq!(reply.embed.colour, Some(OK_COLOR));
    let missing = SnippetCommand::invoke(&state, &text("nope")).unwrap();
    assert_eq!(missing.embed.title, "Error");
    assert_eq!(missing.embed.description, "Failed to get embed for snippet 'nope'");
    assert_eq!(missing.embed.colour, Some(ERROR_COLOR));
    assert!(SnippetCommand::invoke(&state, &OptionValue::Role(1)).is_none());
    assert_eq!(followup_snippet(&state, &"faq".to_string()).embed.title, "FAQ");
}

#[test]
fn set_snippet_command_sets_and_replies() {
    let mut state = State::default();
    let id = SetSnippetCommand::invoke(&mut state, text("faq"), text("FAQ"), text("Body")).unwrap();
    assert_eq!(id, "faq");
    let reply = SetSnippetCommand::reply(&state, &id, None);
    assert_eq!(reply.embed.title, "FAQ");
    assert_eq!(reply.embed.description, "Body");
    let failed = SetSnippetCommand::reply(&state, &id, Some("HTTP error".to_string()));
    assert_eq!(failed.embed.title, "Error");
    assert_eq!(failed.embed.description, "HTTP error");
    assert_eq!(failed.embed.colour, Some(ERROR_COLOR));
    assert!(SetSnippetCommand::invoke(&mut state, text("x"), OptionValue::Other, text("y")).is_none());
    assert_eq!(state.snippets.len(), 1);
}

#[test]
fn remove_snippet_command() {
    let mut state = state_with(&[("a", "A", "1"), ("b", "B", "2")]);
    let reply = RemoveSnippetCommand::invoke(&mut state, &text("a")).unwrap();
    assert_eq!(reply.embed.title, "Removed snippet");
    assert_eq!(reply.embed.description, "Successfully removed the 'a' snippet");
    assert_eq!(reply.embed.colour, Some(OK_COLOR));
    assert_eq!(state.snippets.len(), 1);
    let reply = RemoveSnippetCommand::invoke(&mut state, &text("a")).unwrap();
    assert_eq!(reply.embed.title, "Error");
    assert_eq!(reply.embed.description, "Failed to find a snippet 'a'");
    assert!(RemoveSnippetCommand::invoke(&mut state, &OptionValue::Other).is_none());
    assert_eq!(state.snippets.len(), 1);
}

#[test]
fn export_snippet_command() {
    let state = state_with(&[("code", "Code", "line one\\nline two")]);
    let reply = ExportSnippetCommand::invoke(&state, &text("code")).unwrap();
    assert_eq!(reply.content.as_deref(), Some("```\nline one\nline two\n```"));
    assert_eq!(reply.embed.title, "Code");
    assert_eq!(reply.embed.description, "line one\\nline two");
    assert_eq!(reply.embed.colour, Some(OK_COLOR));
    let missing = ExportSnippetCommand::invoke(&state, &text("x")).unwrap();
    assert_eq!(missing.embed.title, "Error");
    assert_eq!(missing.embed.description, "Failed to find snippet 'x'");
    assert_eq!(missing.embed.colour, None);
    assert!(missing.content.is_none());
    assert!(ExportSnippetCommand::invoke(&state, &OptionValue::Role(3)).is_none());
}

#[test]
fn add_reaction_role_arguments() {
    let made = AddReactionRoleCommand::parse_arguments(&text("👍"), &text("1095473409958703164"), &OptionValue::Role(77)).ok().unwrap();
    assert_eq!(made.message_id, 1095473409958703164);
    assert_eq!(made.role_id, 77);
    assert_eq!(made.emote, "👍");
    let bad_id = AddReactionRoleCommand::parse_arguments(&text("👍"), &text("not a number"), &OptionValue::Role(77));
    assert!(matches!(bad_id, Err(InvokeError::InvalidMessageId)));
    let bad_kind = AddReactionRoleCommand::parse_arguments(&text("👍"), &text("1"), &text("role"));
    assert!(matches!(bad_kind, Err(InvokeError::InvalidArguments)));
}

#[test]
fn add_reaction_role_replies() {
    let reply = AddReactionRoleCommand::reply(&"👍".to_string(), &"+0012".to_string(), 77, None);
    assert!(reply.ephemeral);
    assert_eq!(reply.embed.title, "Reaction role");
    assert_eq!(reply.embed.description, "Successfully added a reaction role");
    assert_eq!(reply.embed.colour, Some(OK_COLOR));
    let fields: Vec<(&str, &str, bool)> = reply.embed.fields.iter().map(|f| (f.name.as_str(), f.value.as_str(), f.inline)).collect();
    assert_eq!(fields, vec![("Emote", "👍", false), ("Message ID", "+0012", false), ("Role", "77", false)]);
    let failed = AddReactionRoleCommand::reply(&"👍".to_string(), &"12".to_string(), 77, Some("boom".to_string()));
    assert!(!failed.ephemeral);
    assert_eq!(failed.embed.title, "Error");
    assert_eq!(failed.embed.description, "boom");
}

#[test]
fn remove_reaction_role_command() {
    let mut state = State::default();
    state.add_reaction_role(ReactionRole { message_id: 12, role_id: 77, emote: "👍".to_string() });
    let reply = RemoveReactionRoleCommand::invoke(&mut state, &text("12")).ok().unwrap().unwrap();
    assert!(reply.ephemeral);
    assert_eq!(reply.embed.description, "Succesfully removed reaction role");
    assert_eq!(reply.embed.colour, None);
    let fields: Vec<(&str, &str)> = reply.embed.fields.iter().map(|f| (f.name.as_str(), f.value.as_str())).collect();
    assert_eq!(fields, vec![("Message ID", "12"), ("Emote", "👍"), ("Role", "77")]);
    assert!(state.reaction_roles.is_empty());
    assert!(RemoveReactionRoleCommand::invoke(&mut state, &text("12")).ok().unwrap().is_none());
    assert!(matches!(RemoveReactionRoleCommand::invoke(&mut state, &text("x")), Err(InvokeError::InvalidMessageId)));
    assert!(matches!(RemoveReactionRoleCommand::invoke(&mut state, &OptionValue::Role(1)), Err(InvokeError::InvalidArguments)));
}

#[test]
fn reaction_role_choice_removes_its_role() {
    let mut state = State::default();
    state.add_reaction_role(ReactionRole { message_id: 1095473409958703164, role_id: 9, emote: "e".to_string() });
    let choice = reaction_choices(&state).remove(0);
    let reply = RemoveReactionRoleCommand::invoke(&mut state, &OptionValue::String(choice.value)).ok().unwrap();
    assert!(reply.is_some());
    assert!(state.reaction_roles.is_empty());
}

#[test]
fn reaction_role_lookup_for_events() {
    let mut state = State::default();
    state.add_reaction_role(ReactionRole { message_id: 12, role_id: 77, emote: "👍".to_string() });
    assert_eq!(get_reaction_role(&state, 12, Some(1)), Some(77));
    assert_eq!(get_reaction_role(&state, 12, None), None);
    assert_eq!(get_reaction_role(&state, 13, Some(1)), None);
    assert_eq!(find_guild_role(77, &vec![1, 77, 3]), Some(77));
    assert_eq!(find_guild_role(77, &vec![1, 3]), None);
    assert_eq!(find_guild_role(77, &vec![]), None);
}

#[test]
fn snippet_choice_finds_its_snippet() {
    let state = many_snippets(26);
    let choices = snippet_choices(&state);
    for (i, choice) in choices.iter().enumerate() {
        let reply = SnippetCommand::invoke(&state, &OptionValue::String(choice.value.clone())).unwrap();
        assert_eq!(reply.embed.title, format!("Title {}", i));
    }
}
