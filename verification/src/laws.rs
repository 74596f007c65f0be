use vstd::prelude::*;
use crate::state::{
    first_match, for_message, has_id, lemma_first_match, lemma_first_match_at, ReactionRoleView,
    SnippetView, StateView,
};

verus! {

/// After a snippet is set, a lookup by its id finds it with the title and content that
/// were set.
pub proof fn lemma_find_after_set(st: StateView, id: Seq<char>, title: Seq<char>, content: Seq<char>)
    ensures
        st.set_snippet(id, title, content).find_snippet(id) == Some(
            SnippetView { id, title, content },
        ),
{
    let p = has_id(id);
    let s = st.snippets;
    let entry = SnippetView { id, title, content };
    let after = st.set_snippet(id, title, content).snippets;
    lemma_first_match(s, p);
    match first_match(s, p) {
        Some(i) => {
            assert forall|j: int| 0 <= j < i implies !p(#[trigger] after[j]) by {
                assert(after[j] == s[j]);
            }
            lemma_first_match_at(after, p, i);
        },
        None => {
            assert forall|j: int| 0 <= j < s.len() implies !p(#[trigger] after[j]) by {
                assert(after[j] == s[j]);
            }
            lemma_first_match_at(after, p, s.len() as int);
        },
    }
}

/// Two sequences that agree except at places where neither matches `p` have their first
/// match at the same place, and the same element there.
proof fn lemma_first_match_same<A>(s: Seq<A>, t: Seq<A>, p: spec_fn(A) -> bool)
    requires
        forall|j: int| 0 <= j < s.len() && p(#[trigger] s[j]) ==> j < t.len() && t[j] == s[j],
        forall|j: int| 0 <= j < t.len() && p(#[trigger] t[j]) ==> j < s.len() && t[j] == s[j],
    ensures
        first_match(s, p) == first_match(t, p),
        first_match(s, p) matches Some(i) ==> s[i] == t[i],
{
    lemma_first_match(s, p);
    lemma_first_match(t, p);
    match first_match(s, p) {
        Some(i) => {
            match first_match(t, p) {
                Some(k) => {
                    if k < i {
                        assert(p(t[k]));
                        assert(!p(s[k]));
                    } else if i < k {
                        assert(p(s[i]));
                        assert(!p(t[i]));
                    }
                },
                None => {
                    assert(p(s[i]));
                    assert(!p(t[i]));
                },
            }
        },
        None => {
            match first_match(t, p) {
                Some(k) => {
                    assert(p(t[k]));
                    assert(!p(s[k]));
                },
                None => {},
            }
        },
    }
}

/// Setting one snippet changes no lookup of another id.
pub proof fn lemma_set_keeps_other_snippets(
    st: StateView,
    id: Seq<char>,
    title: Seq<char>,
    content: Seq<char>,
    other: Seq<char>,
)
    requires
        other != id,
    ensures
        st.set_snippet(id, title, content).find_snippet(other) == st.find_snippet(other),
{
    let s = st.snippets;
    let after = st.set_snippet(id, title, content).snippets;
    let q = has_id(other);
    lemma_first_match(s, has_id(id));
    assert forall|j: int| 0 <= j < s.len() && q(#[trigger] s[j]) implies j < after.len() && after[j]
        == s[j] by {
        if st.snippet_index(id) == Some(j) {
            assert(s[j].id == id);
        }
    }
    assert forall|j: int| 0 <= j < after.len() && q(#[trigger] after[j]) implies j < s.len()
        && after[j] == s[j] by {
        if j == s.len() || st.snippet_index(id) == Some(j) {
            assert(after[j].id == id);
        }
    }
    lemma_first_match_same(s, after, q);
}

/// Setting a snippet keeps the snippet ids unique.
pub proof fn lemma_set_keeps_ids_unique(st: StateView, id: Seq<char>, title: Seq<char>, content: Seq<char>)
    requires
        st.unique_snippet_ids(),
    ensures
        st.set_snippet(id, title, content).unique_snippet_ids(),
{
    let s = st.snippets;
    let after = st.set_snippet(id, title, content).snippets;
    lemma_first_match(s, has_id(id));
    assert forall|i: int, j: int|
        0 <= i < after.len() && 0 <= j < after.len() && i != j implies #[trigger] after[i].id
        != #[trigger] after[j].id by {
        match st.snippet_index(id) {
            Some(k) => {
                if i == k {
                    assert(s[i].id == id);
                } else if j == k {
                    assert(s[j].id == id);
                }
            },
            None => {
                if i == s.len() {
                    assert(s[j].id != id);
                } else if j == s.len() {
                    assert(s[i].id != id);
                }
            },
        }
    }
}

/// Where snippet ids are unique, once a snippet is removed no lookup by its id finds one.
pub proof fn lemma_find_after_remove(st: StateView, id: Seq<char>)
    requires
        st.unique_snippet_ids(),
    ensures
        st.remove_snippet(id).find_snippet(id) is None,
{
    let s = st.snippets;
    let p = has_id(id);
    let after = st.remove_snippet(id).snippets;
    lemma_first_match(s, p);
    lemma_first_match(after, p);
    match first_match(s, p) {
        Some(i) => {
            match first_match(after, p) {
                Some(k) => {
                    if k < i {
                        assert(after[k] == s[k]);
                    } else {
                        assert(after[k] == s[k + 1]);
                        assert(s[k + 1].id != s[i].id);
                    }
                },
                None => {},
            }
        },
        None => {},
    }
}

/// Removing one snippet changes no lookup of another id.
pub proof fn lemma_remove_keeps_other_snippets(st: StateView, id: Seq<char>, other: Seq<char>)
    requires
        other != id,
    ensures
        st.remove_snippet(id).find_snippet(other) == st.find_snippet(other),
{
    let s = st.snippets;
    let p = has_id(id);
    let q = has_id(other);
    let after = st.remove_snippet(id).snippets;
    lemma_first_match(s, p);
    lemma_first_match(s, q);
    lemma_first_match(after, q);
    match first_match(s, p) {
        Some(i) => {
            match (first_match(s, q), first_match(after, q)) {
                (Some(a), Some(b)) => {
                    if a < i {
                        if b < a {
                            assert(after[b] == s[b]);
                        } else if a < b {
                            assert(after[a] == s[a]);
                        }
                    } else {
                        assert(a != i);
                        if b < i {
                            assert(after[b] == s[b]);
                        } else if b + 1 < a {
                            assert(after[b] == s[b + 1]);
                        } else if a - 1 < b {
                            assert(after[a - 1] == s[a]);
                        }
                    }
                },
                (Some(a), None) => {
                    if a < i {
                        assert(after[a] == s[a]);
                    } else {
                        assert(a != i);
                        assert(after[a - 1] == s[a]);
                    }
                },
                (None, Some(b)) => {
                    if b < i {
                        assert(after[b] == s[b]);
                    } else {
                        assert(after[b] == s[b + 1]);
                    }
                },
                (None, None) => {},
            }
        },
        None => {},
    }
}

/// Removing a snippet keeps the snippet ids unique.
pub proof fn lemma_remove_keeps_ids_unique(st: StateView, id: Seq<char>)
    requires
        st.unique_snippet_ids(),
    ensures
        st.remove_snippet(id).unique_snippet_ids(),
{
    let s = st.snippets;
    let after = st.remove_snippet(id).snippets;
    lemma_first_match(s, has_id(id));
    match st.snippet_index(id) {
        Some(k) => {
            assert forall|i: int, j: int|
                0 <= i < after.len() && 0 <= j < after.len() && i != j implies #[trigger] after[i].id
                != #[trigger] after[j].id by {
                let si = if i < k { i } else { i + 1 };
                let sj = if j < k { j } else { j + 1 };
                assert(after[i] == s[si]);
                assert(after[j] == s[sj]);
            }
        },
        None => {},
    }
}

/// After a reaction role is added for a message that had none, a lookup by that message
/// finds it.
pub proof fn lemma_find_role_after_add(st: StateView, role: ReactionRoleView)
    requires
        st.find_reaction_role(role.message_id) is None,
    ensures
        st.add_reaction_role(role).find_reaction_role(role.message_id) == Some(role),
{
    let s = st.reaction_roles;
    let p = for_message(role.message_id);
    let after = st.add_reaction_role(role).reaction_roles;
    lemma_first_match(s, p);
    assert forall|j: int| 0 <= j < s.len() implies !p(#[trigger] after[j]) by {
        assert(after[j] == s[j]);
    }
    lemma_first_match_at(after, p, s.len() as int);
}

/// Where each message has at most one reaction role, once the reaction role of a message
/// is removed no lookup by that message finds one.
pub proof fn lemma_find_role_after_remove(st: StateView, message_id: u64)
    requires
        st.unique_message_ids(),
    ensures
        st.remove_reaction_role(message_id).find_reaction_role(message_id) is None,
{
    let s = st.reaction_roles;
    let p = for_message(message_id);
    let after = st.remove_reaction_role(message_id).reaction_roles;
    lemma_first_match(s, p);
    lemma_first_match(after, p);
    match first_match(s, p) {
        Some(i) => {
            match first_match(after, p) {
                Some(k) => {
                    if k < i {
                        assert(after[k] == s[k]);
                    } else {
                        assert(after[k] == s[k + 1]);
                        assert(s[k + 1].message_id != s[i].message_id);
                    }
                },
                None => {},
            }
        },
        None => {},
    }
}

/// Snippet edits leave the reaction roles alone, and reaction role edits the snippets.
pub proof fn lemma_edits_are_independent(
    st: StateView,
    id: Seq<char>,
    title: Seq<char>,
    content: Seq<char>,
    role: ReactionRoleView,
    message_id: u64,
)
    ensures
        st.set_snippet(id, title, content).reaction_roles == st.reaction_roles,
        st.remove_snippet(id).reaction_roles == st.reaction_roles,
        st.add_reaction_role(role).snippets == st.snippets,
        st.remove_reaction_role(message_id).snippets == st.snippets,
{
}

/// Setting a snippet whose id is present replaces, in place, the first snippet that carries
/// the id and nothing else; setting one whose id is absent appends it and changes nothing
/// else.
pub proof fn lemma_set_replaces_in_place(st: StateView, id: Seq<char>, title: Seq<char>, content: Seq<char>)
    ensures
        ({
            let s = st.snippets;
            let after = st.set_snippet(id, title, content).snippets;
            let entry = SnippetView { id, title, content };
            &&& forall|i: int|
                0 <= i < s.len() && s[i].id == id && (forall|j: int| 0 <= j < i ==> #[trigger] s[j].id != id)
                    ==> {
                    &&& after.len() == s.len()
                    &&& after[i] == entry
                    &&& forall|j: int| 0 <= j < s.len() && j != i ==> #[trigger] after[j] == s[j]
                }
            &&& (forall|j: int| 0 <= j < s.len() ==> #[trigger] s[j].id != id) ==> {
                &&& after.len() == s.len() + 1
                &&& after[s.len() as int] == entry
                &&& forall|j: int| 0 <= j < s.len() ==> #[trigger] after[j] == s[j]
            }
        }),
{
    let s = st.snippets;
    let p = has_id(id);
    lemma_first_match(s, p);
    assert forall|i: int|
        0 <= i < s.len() && s[i].id == id && (forall|j: int| 0 <= j < i ==> #[trigger] s[j].id != id)
            implies st.snippet_index(id) == Some(i) by {
        assert forall|j: int| 0 <= j < i implies !p(#[trigger] s[j]) by {
            assert(s[j].id != id);
        }
        lemma_first_match_at(s, p, i);
    }
    if forall|j: int| 0 <= j < s.len() ==> #[trigger] s[j].id != id {
        match first_match(s, p) {
            Some(k) => {
                assert(s[k].id == id);
            },
            None => {},
        }
    }
}

/// Removing a snippet by id drops exactly the first snippet that carries the id, keeping
/// the others in order; with no such snippet nothing changes.
pub proof fn lemma_remove_drops_only_that_snippet(st: StateView, id: Seq<char>)
    ensures
        ({
            let s = st.snippets;
            let after = st.remove_snippet(id).snippets;
            &&& forall|i: int|
                0 <= i < s.len() && s[i].id == id && (forall|j: int| 0 <= j < i ==> #[trigger] s[j].id != id)
                    ==> {
                    &&& after.len() + 1 == s.len()
                    &&& forall|j: int| 0 <= j < i ==> #[trigger] after[j] == s[j]
                    &&& forall|j: int| i <= j < after.len() ==> #[trigger] after[j] == s[j + 1]
                }
            &&& (forall|j: int| 0 <= j < s.len() ==> #[trigger] s[j].id != id) ==> after == s
        }),
{
    let s = st.snippets;
    let p = has_id(id);
    lemma_first_match(s, p);
    assert forall|i: int|
        0 <= i < s.len() && s[i].id == id && (forall|j: int| 0 <= j < i ==> #[trigger] s[j].id != id)
            implies st.snippet_index(id) == Some(i) by {
        assert forall|j: int| 0 <= j < i implies !p(#[trigger] s[j]) by {
            assert(s[j].id != id);
        }
        lemma_first_match_at(s, p, i);
    }
    if forall|j: int| 0 <= j < s.len() ==> #[trigger] s[j].id != id {
        match first_match(s, p) {
            Some(k) => {
                assert(s[k].id == id);
            },
            None => {},
        }
    }
}

/// Adding a reaction role appends it after all the others, which stay as they were, and
/// changes no lookup of another message.
pub proof fn lemma_add_role_appends(st: StateView, role: ReactionRoleView, other: u64)
    ensures
        ({
            let s = st.reaction_roles;
            let after = st.add_reaction_role(role).reaction_roles;
            &&& after.len() == s.len() + 1
            &&& after[s.len() as int] == role
            &&& forall|j: int| 0 <= j < s.len() ==> #[trigger] after[j] == s[j]
        }),
        st.add_reaction_role(role).snippets == st.snippets,
        other != role.message_id ==> st.add_reaction_role(role).find_reaction_role(other)
            == st.find_reaction_role(other),
{
    let s = st.reaction_roles;
    let after = st.add_reaction_role(role).reaction_roles;
    if other != role.message_id {
        let q = for_message(other);
        assert forall|j: int| 0 <= j < after.len() && q(#[trigger] after[j]) implies j < s.len()
            && after[j] == s[j] by {
            if j == s.len() {
                assert(after[j] == role);
            }
        }
        assert forall|j: int| 0 <= j < s.len() && q(#[trigger] s[j]) implies j < after.len()
            && after[j] == s[j] by {}
        lemma_first_match_same(s, after, q);
    }
}

/// Removing the reaction role of a message drops exactly the first reaction role for that
/// message, keeping the others in order, so no lookup of another message changes; with no
/// reaction role for the message nothing changes.
pub proof fn lemma_remove_role_drops_only_that_one(st: StateView, message_id: u64, other: u64)
    ensures
        ({
            let s = st.reaction_roles;
            let after = st.remove_reaction_role(message_id).reaction_roles;
            &&& forall|i: int|
                0 <= i < s.len() && s[i].message_id == message_id && (forall|j: int|
                    0 <= j < i ==> #[trigger] s[j].message_id != message_id) ==> {
                    &&& after.len() + 1 == s.len()
                    &&& forall|j: int| 0 <= j < i ==> #[trigger] after[j] == s[j]
                    &&& forall|j: int| i <= j < after.len() ==> #[trigger] after[j] == s[j + 1]
                }
            &&& (forall|j: int| 0 <= j < s.len() ==> #[trigger] s[j].message_id != message_id) ==> after
                == s
        }),
        st.remove_reaction_role(message_id).snippets == st.snippets,
        other != message_id ==> st.remove_reaction_role(message_id).find_reaction_role(other)
            == st.find_reaction_role(other),
{
    let s = st.reaction_roles;
    let p = for_message(message_id);
    let after = st.remove_reaction_role(message_id).reaction_roles;
    lemma_first_match(s, p);
    assert forall|i: int|
        0 <= i < s.len() && s[i].message_id == message_id && (forall|j: int|
            0 <= j < i ==> #[trigger] s[j].message_id != message_id) implies st.reaction_role_index(
        message_id,
    ) == Some(i) by {
        assert forall|j: int| 0 <= j < i implies !p(#[trigger] s[j]) by {
            assert(s[j].message_id != message_id);
        }
        lemma_first_match_at(s, p, i);
    }
    if forall|j: int| 0 <= j < s.len() ==> #[trigger] s[j].message_id != message_id {
        match first_match(s, p) {
            Some(k) => {
                assert(s[k].message_id == message_id);
            },
            None => {},
        }
    }
    if other != message_id {
        let q = for_message(other);
        lemma_first_match(s, q);
        lemma_first_match(after, q);
        match first_match(s, p) {
            Some(i) => {
                match (first_match(s, q), first_match(after, q)) {
                    (Some(a), Some(b)) => {
                        assert(a != i);
                        if a < i {
                            if b < a {
                                assert(after[b] == s[b]);
                            } else if a < b {
                                assert(after[a] == s[a]);
                            }
                        } else {
                            if b < i {
                                assert(after[b] == s[b]);
                            } else if b + 1 < a {
                                assert(after[b] == s[b + 1]);
                            } else if a - 1 < b {
                                assert(after[a - 1] == s[a]);
                            }
                        }
                    },
                    (Some(a), None) => {
                        assert(a != i);
                        if a < i {
                            assert(after[a] == s[a]);
                        } else {
                            assert(after[a - 1] == s[a]);
                        }
                    },
                    (None, Some(b)) => {
                        if b < i {
                            assert(after[b] == s[b]);
                        } else {
                            assert(after[b] == s[b + 1]);
                        }
                    },
                    (None, None) => {},
                }
            },
            None => {},
        }
    }
}

} // verus!
