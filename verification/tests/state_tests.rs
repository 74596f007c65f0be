use std::cell::RefCell;
use tabletbot::state::{ReactionRole, Snippet, State, StateEnv};

fn snippet(id: &str, title: &str, content: &str) -> Snippet {
    Snippet { id: id.to_string(), title: title.to_string(), content: content.to_string() }
}

fn role(message_id: u64, role_id: u64, emote: &str) -> ReactionRole {
    ReactionRole { message_id, role_id, emote: emote.to_string() }
}

#[test]
fn default_state_is_empty() {
    let state = State::default();
    assert!(state.snippets.is_empty());
    assert!(state.reaction_roles.is_empty());
}

#[test]
fn set_then_find_gives_what_was_set() {
    let mut state = State::default();
    state.set_snippet("faq".to_string(), "FAQ".to_string(), "Read it".to_string());
    let found = state.find_snippet(&"faq".to_string()).unwrap();
    assert_eq!(found.title, "FAQ");
    assert_eq!(found.content, "Read it");
    state.set_snippet("faq".to_string(), "FAQ 2".to_string(), "New".to_string());
    assert_eq!(state.snippets.len(), 1);
    let found = state.find_snippet(&"faq".to_string()).unwrap();
    assert_eq!(found.title, "FAQ 2");
    assert_eq!(found.content, "New");
}

#[test]
fn set_adds_at_end_and_keeps_others() {
    let mut state = State::default();
    state.snippets.push(snippet("a", "A", "1"));
    state.snippets.push(snippet("b", "B", "2"));
    state.set_snippet("c".to_string(), "C".to_string(), "3".to_string());
    let ids: Vec<&str> = state.snippets.iter().map(|s| s.id.as_str()).collect();
    assert_eq!(ids, vec!["a", "b", "c"]);
    state.set_snippet("a".to_string(), "A2".to_string(), "10".to_string());
    assert_eq!(state.snippets[0].title, "A2");
    assert_eq!(state.find_snippet(&"b".to_string()).unwrap().content, "2");
}

#[test]
fn lookups_find_the_first_duplicate() {
    let mut state = State::default();
    state.snippets.push(snippet("x", "first", "1"));
    state.snippets.push(snippet("x", "second", "2"));
    assert_eq!(state.snippet_position(&"x".to_string()), Some(0));
    state.set_snippet("x".to_string(), "third".to_string(), "3".to_string());
    assert_eq!(state.snippets[0].title, "third");
    assert_eq!(state.snippets[1].title, "second");
    let removed = state.remove_snippet(&"x".to_string()).unwrap();
    assert_eq!(removed.title, "third");
    assert_eq!(state.find_snippet(&"x".to_string()).unwrap().title, "second");
}

#[test]
fn remove_snippet_removes_only_that_one() {
    let mut state = State::default();
    state.snippets.push(snippet("a", "A", "1"));
    state.snippets.push(snippet("b", "B", "2"));
    state.snippets.push(snippet("c", "C", "3"));
    let removed = state.remove_snippet(&"b".to_string()).unwrap();
    assert_eq!(removed.id, "b");
    assert!(state.find_snippet(&"b".to_string()).is_none());
    assert_eq!(state.snippet_position(&"c".to_string()), Some(1));
    assert!(state.remove_snippet(&"zzz".to_string()).is_none());
    assert_eq!(state.snippets.len(), 2);
}

#[test]
fn reaction_roles_add_find_remove() {
    let mut state = State::default();
    state.add_reaction_role(role(10, 100, "👍"));
    state.add_reaction_role(role(20, 200, "🎉"));
    assert_eq!(state.find_reaction_role(20).unwrap().role_id, 200);
    assert_eq!(state.reaction_role_position(10), Some(0));
    assert!(state.find_reaction_role(30).is_none());
    let removed = state.remove_reaction_role(10).unwrap();
    assert_eq!(removed.role_id, 100);
    assert_eq!(removed.emote, "👍");
    assert!(state.find_reaction_role(10).is_none());
    assert!(state.remove_reaction_role(10).is_none());
    assert_eq!(state.reaction_roles.len(), 1);
}

#[test]
fn adding_a_second_role_for_a_message_keeps_the_first_found() {
    let mut state = State::default();
    state.add_reaction_role(role(10, 100, "a"));
    state.add_reaction_role(role(10, 101, "b"));
    assert_eq!(state.reaction_roles.len(), 2);
    assert_eq!(state.find_reaction_role(10).unwrap().role_id, 100);
}

#[test]
fn snippet_edits_leave_reaction_roles_alone() {
    let mut state = State::default();
    state.add_reaction_role(role(10, 100, "a"));
    state.set_snippet("s".to_string(), "S".to_string(), "c".to_string());
    state.remove_snippet(&"s".to_string());
    assert_eq!(state.reaction_roles.len(), 1);
    state.snippets.push(snippet("t", "T", "c"));
    state.remove_reaction_role(10);
    assert_eq!(state.snippets.len(), 1);
}

#[test]
fn state_path_follows_the_environment() {
    let env = StateEnv { state_file: Some("/etc/bot/state.json".to_string()), data_dir: Some("/data".to_string()), current_dir: "/home".to_string() };
    assert_eq!(State::get_path(&env), "/etc/bot/state.json");
    assert_eq!(State::get_data_root(&env), "/data");
    let env = StateEnv { state_file: None, data_dir: Some("/data".to_string()), current_dir: "/home".to_string() };
    assert_eq!(State::get_path(&env), "/data/state.json");
    let env = StateEnv { state_file: None, data_dir: None, current_dir: "/home".to_string() };
    assert_eq!(State::get_data_root(&env), "/home");
    assert_eq!(State::get_path(&env), "/home/state.json");
}

#[test]
fn read_and_write_use_the_state_path() {
    let env = StateEnv { state_file: None, data_dir: Some("/data".to_string()), current_dir: "/home".to_string() };
    let seen = RefCell::new(Vec::new());
    let read = State::read(&env, |path| {
        seen.borrow_mut().push(path);
        None
    });
    assert!(read.is_none());
    let read = State::read(&env, |_path| {
        let mut state = State::default();
        state.add_reaction_role(role(1, 2, "x"));
        Some(state)
    });
    assert_eq!(read.unwrap().reaction_roles.len(), 1);
    let mut state = State::default();
    state.set_snippet("a".to_string(), "A".to_string(), "c".to_string());
    state.write(&env, |written: &State, path| {
        assert_eq!(written.snippets.len(), 1);
        seen.borrow_mut().push(path);
    });
    assert_eq!(*seen.borrow(), vec!["/data/state.json".to_string(), "/data/state.json".to_string()]);
}
