use vstd::prelude::*;

verus! {

/// A message whose reactions hand out a role.
pub struct ReactionRole {
    pub message_id: u64,
    pub role_id: u64,
    pub emote: String,
}

/// A named piece of text that the bot can post as an embed.
pub struct Snippet {
    pub id: String,
    pub title: String,
    pub content: String,
}

/// Everything the bot remembers between runs.
pub struct State {
    pub snippets: Vec<Snippet>,
    pub reaction_roles: Vec<ReactionRole>,
}

pub struct ReactionRoleView {
    pub message_id: u64,
    pub role_id: u64,
    pub emote: Seq<char>,
}

pub struct SnippetView {
    pub id: Seq<char>,
    pub title: Seq<char>,
    pub content: Seq<char>,
}

pub struct StateView {
    pub snippets: Seq<SnippetView>,
    pub reaction_roles: Seq<ReactionRoleView>,
}

impl View for ReactionRole {
    type V = ReactionRoleView;

    open spec fn view(&self) -> ReactionRoleView {
        ReactionRoleView { message_id: self.message_id, role_id: self.role_id, emote: self.emote@ }
    }
}

impl View for Snippet {
    type V = SnippetView;

    open spec fn view(&self) -> SnippetView {
        SnippetView { id: self.id@, title: self.title@, content: self.content@ }
    }
}

pub open spec fn snippets_view(v: Seq<Snippet>) -> Seq<SnippetView> {
    v.map_values(|s: Snippet| s@)
}

pub open spec fn reaction_roles_view(v: Seq<ReactionRole>) -> Seq<ReactionRoleView> {
    v.map_values(|r: ReactionRole| r@)
}

impl View for State {
    type V = StateView;

    open spec fn view(&self) -> StateView {
        StateView {
            snippets: snippets_view(self.snippets@),
            reaction_roles: reaction_roles_view(self.reaction_roles@),
        }
    }
}

/// The index of the first element of `s` that satisfies `p`, if any.
pub open spec fn first_match<A>(s: Seq<A>, p: spec_fn(A) -> bool) -> Option<int>
    decreases s.len(),
{
    if s.len() == 0 {
        None
    } else if p(s[0]) {
        Some(0)
    } else {
        match first_match(s.drop_first(), p) {
            Some(i) => Some(i + 1),
            None => None,
        }
    }
}

/// `first_match` finds the first match: the one it names satisfies `p` and none before
/// it does, and it names none only where nothing matches.
pub proof fn lemma_first_match<A>(s: Seq<A>, p: spec_fn(A) -> bool)
    ensures
        match first_match(s, p) {
            Some(i) => 0 <= i < s.len() && p(s[i]) && forall|j: int| 0 <= j < i ==> !p(#[trigger] s[j]),
            None => forall|j: int| 0 <= j < s.len() ==> !p(#[trigger] s[j]),
        },
    decreases s.len(),
{
    if s.len() > 0 && !p(s[0]) {
        let rest = s.drop_first();
        lemma_first_match(rest, p);
        match first_match(rest, p) {
            Some(i) => {
                assert forall|j: int| 0 <= j < i + 1 implies !p(#[trigger] s[j]) by {
                    if j > 0 {
                        assert(s[j] == rest[j - 1]);
                    }
                }
            },
            None => {
                assert forall|j: int| 0 <= j < s.len() implies !p(#[trigger] s[j]) by {
                    if j > 0 {
                        assert(s[j] == rest[j - 1]);
                    }
                }
            },
        }
    }
}

/// The index that `first_match` names is the one where the first match stands.
pub proof fn lemma_first_match_at<A>(s: Seq<A>, p: spec_fn(A) -> bool, i: int)
    requires
        0 <= i < s.len(),
        p(s[i]),
        forall|j: int| 0 <= j < i ==> !p(#[trigger] s[j]),
    ensures
        first_match(s, p) == Some(i),
{
    lemma_first_match(s, p);
}

pub open spec fn has_id(id: Seq<char>) -> spec_fn(SnippetView) -> bool {
    |s: SnippetView| s.id == id
}

pub open spec fn for_message(message_id: u64) -> spec_fn(ReactionRoleView) -> bool {
    |r: ReactionRoleView| r.message_id == message_id
}

impl StateView {
    /// Where the snippet with this id stands: the first one that carries it.
    pub open spec fn snippet_index(self, id: Seq<char>) -> Option<int> {
        first_match(self.snippets, has_id(id))
    }

    /// The snippet that a lookup by id finds.
    pub open spec fn find_snippet(self, id: Seq<char>) -> Option<SnippetView> {
        match self.snippet_index(id) {
            Some(i) => Some(self.snippets[i]),
            None => None,
        }
    }

    /// Sets a snippet: the one found by its id gets the new title and content, or a new
    /// snippet is added at the end.
    pub open spec fn set_snippet(self, id: Seq<char>, title: Seq<char>, content: Seq<char>) -> StateView {
        let entry = SnippetView { id, title, content };
        match self.snippet_index(id) {
            Some(i) => StateView { snippets: self.snippets.update(i, entry), ..self },
            None => StateView { snippets: self.snippets.push(entry), ..self },
        }
    }

    /// Removes the snippet that a lookup by id finds, if there is one.
    pub open spec fn remove_snippet(self, id: Seq<char>) -> StateView {
        match self.snippet_index(id) {
            Some(i) => StateView { snippets: self.snippets.remove(i), ..self },
            None => self,
        }
    }

    /// Where the reaction role of this message stands: the first one for it.
    pub open spec fn reaction_role_index(self, message_id: u64) -> Option<int> {
        first_match(self.reaction_roles, for_message(message_id))
    }

    /// The reaction role that a lookup by message finds.
    pub open spec fn find_reaction_role(self, message_id: u64) -> Option<ReactionRoleView> {
        match self.reaction_role_index(message_id) {
            Some(i) => Some(self.reaction_roles[i]),
            None => None,
        }
    }

    /// Adds a reaction role at the end.
    pub open spec fn add_reaction_role(self, role: ReactionRoleView) -> StateView {
        StateView { reaction_roles: self.reaction_roles.push(role), ..self }
    }

    /// Removes the reaction role that a lookup by message finds, if there is one.
    pub open spec fn remove_reaction_role(self, message_id: u64) -> StateView {
        match self.reaction_role_index(message_id) {
            Some(i) => StateView { reaction_roles: self.reaction_roles.remove(i), ..self },
            None => self,
        }
    }

    /// No two snippets share an id.
    pub open spec fn unique_snippet_ids(self) -> bool {
        forall|i: int, j: int|
            0 <= i < self.snippets.len() && 0 <= j < self.snippets.len() && i != j
                ==> #[trigger] self.snippets[i].id != #[trigger] self.snippets[j].id
    }

    /// No two reaction roles are for the same message.
    pub open spec fn unique_message_ids(self) -> bool {
        forall|i: int, j: int|
            0 <= i < self.reaction_roles.len() && 0 <= j < self.reaction_roles.len() && i != j
                ==> #[trigger] self.reaction_roles[i].message_id
                != #[trigger] self.reaction_roles[j].message_id
    }
}

impl Default for State {
    fn default() -> (s: State)
        ensures
            s@.snippets.len() == 0,
            s@.reaction_roles.len() == 0,
    {
        State { snippets: Vec::new(), reaction_roles: Vec::new() }
    }
}

impl State {
    /// Where the snippet with this id stands.
    pub fn snippet_position(&self, id: &String) -> (res: Option<usize>)
        ensures
            match res {
                Some(i) => i < self.snippets.len() && self@.snippet_index(id@) == Some(i as int),
                None => self@.snippet_index(id@) is None,
            },
    {
        let ghost p = has_id(id@);
        let mut i: usize = 0;
        while i < self.snippets.len()
            invariant
                i <= self.snippets.len(),
                p == has_id(id@),
                forall|j: int| 0 <= j < i ==> !p(#[trigger] self@.snippets[j]),
            decreases self.snippets.len() - i,
        {
            if self.snippets[i].id == *id {
                proof {
                    lemma_first_match_at(self@.snippets, p, i as int);
                }
                return Some(i);
            }
            i = i + 1;
        }
        proof {
            lemma_first_match(self@.snippets, p);
        }
        None
    }

    /// The snippet with this id: the first one that carries it.
    pub fn find_snippet(&self, id: &String) -> (res: Option<&Snippet>)
        ensures
            match res {
                Some(s) => self@.find_snippet(id@) == Some(s@),
                None => self@.find_snippet(id@) is None,
            },
    {
        match self.snippet_position(id) {
            Some(i) => Some(&self.snippets[i]),
            None => None,
        }
    }

    /// Sets the title and content of the snippet with this id, adding it if there is none.
    pub fn set_snippet(&mut self, id: String, title: String, content: String)
        ensures
            final(self)@ == old(self)@.set_snippet(id@, title@, content@),
    {
        let position = self.snippet_position(&id);
        let entry = Snippet { id, title, content };
        match position {
            Some(i) => {
                self.snippets.set(i, entry);
                assert(snippets_view(self.snippets@) =~= old(self)@.snippets.update(i as int, entry@));
            },
            None => {
                self.snippets.push(entry);
                assert(snippets_view(self.snippets@) =~= old(self)@.snippets.push(entry@));
            },
        }
    }

    /// Removes the snippet with this id, giving it back, or changes nothing if there is none.
    pub fn remove_snippet(&mut self, id: &String) -> (res: Option<Snippet>)
        ensures
            final(self)@ == old(self)@.remove_snippet(id@),
            match res {
                Some(s) => old(self)@.find_snippet(id@) == Some(s@),
                None => old(self)@.find_snippet(id@) is None,
            },
    {
        match self.snippet_position(id) {
            Some(i) => {
                let removed = self.snippets.remove(i);
                assert(snippets_view(self.snippets@) =~= old(self)@.snippets.remove(i as int));
                Some(removed)
            },
            None => None,
        }
    }

    /// Where the reaction role of this message stands.
    pub fn reaction_role_position(&self, message_id: u64) -> (res: Option<usize>)
        ensures
            match res {
                Some(i) => i < self.reaction_roles.len() && self@.reaction_role_index(message_id)
                    == Some(i as int),
                None => self@.reaction_role_index(message_id) is None,
            },
    {
        let ghost p = for_message(message_id);
        let mut i: usize = 0;
        while i < self.reaction_roles.len()
            invariant
                i <= self.reaction_roles.len(),
                p == for_message(message_id),
                forall|j: int| 0 <= j < i ==> !p(#[trigger] self@.reaction_roles[j]),
            decreases self.reaction_roles.len() - i,
        {
            if self.reaction_roles[i].message_id == message_id {
                proof {
                    lemma_first_match_at(self@.reaction_roles, p, i as int);
                }
                return Some(i);
            }
            i = i + 1;
        }
        proof {
            lemma_first_match(self@.reaction_roles, p);
        }
        None
    }

    /// The reaction role of this message: the first one for it.
    pub fn find_reaction_role(&self, message_id: u64) -> (res: Option<&ReactionRole>)
        ensures
            match res {
                Some(r) => self@.find_reaction_role(message_id) == Some(r@),
                None => self@.find_reaction_role(message_id) is None,
            },
    {
        match self.reaction_role_position(message_id) {
            Some(i) => Some(&self.reaction_roles[i]),
            None => None,
        }
    }

    /// Adds a reaction role at the end, whether or not the message has one already.
    pub fn add_reaction_role(&mut self, role: ReactionRole)
        ensures
            final(self)@ == old(self)@.add_reaction_role(role@),
    {
        let ghost r = role@;
        self.reaction_roles.push(role);
        assert(reaction_roles_view(self.reaction_roles@) =~= old(self)@.reaction_roles.push(r));
    }

    /// Removes the reaction role of this message, giving it back, or changes nothing if
    /// there is none.
    pub fn remove_reaction_role(&mut self, message_id: u64) -> (res: Option<ReactionRole>)
        ensures
            final(self)@ == old(self)@.remove_reaction_role(message_id),
            match res {
                Some(r) => old(self)@.find_reaction_role(message_id) == Some(r@),
                None => old(self)@.find_reaction_role(message_id) is None,
            },
    {
        match self.reaction_role_position(message_id) {
            Some(i) => {
                let removed = self.reaction_roles.remove(i);
                assert(reaction_roles_view(self.reaction_roles@) =~= old(self)@.reaction_roles.remove(
                    i as int,
                ));
                Some(removed)
            },
            None => None,
        }
    }
}

/// Where the bot looks for its state, as the environment says: the state file named by
/// `TABLETBOT_STATE`, the data directory named by `TABLETBOT_DATA`, and the working
/// directory.
pub struct StateEnv {
    pub state_file: Option<String>,
    pub data_dir: Option<String>,
    pub current_dir: String,
}

/// The directory that holds the bot's data: the one the environment names, or else the
/// working directory.
pub open spec fn spec_data_root(env: StateEnv) -> Seq<char> {
    match env.data_dir {
        Some(d) => d@,
        None => env.current_dir@,
    }
}

/// The file that holds the state: the one the environment names, or else `state.json` in
/// the data directory.
pub open spec fn spec_state_path(env: StateEnv) -> Seq<char> {
    match env.state_file {
        Some(p) => p@,
        None => spec_data_root(env) + "/state.json"@,
    }
}

impl State {
    /// The directory that holds the bot's data.
    pub fn get_data_root(env: &StateEnv) -> (res: String)
        ensures
            res@ == spec_data_root(*env),
    {
        match &env.data_dir {
            Some(d) => d.clone(),
            None => env.current_dir.clone(),
        }
    }

    /// The file that holds the state.
    pub fn get_path(env: &StateEnv) -> (res: String)
        ensures
            res@ == spec_state_path(*env),
    {
        match &env.state_file {
            Some(p) => p.clone(),
            None => Self::get_data_root(env).concat("/state.json"),
        }
    }

    /// Reads the state from where the environment says it is kept, by handing that path to
    /// `read_file`, and gives back what it read.
    pub fn read<F: Fn(String) -> Option<State>>(env: &StateEnv, read_file: F) -> (res: Option<State>)
        requires
            forall|path: String| read_file.requires((path,)),
        ensures
            exists|path: String| path@ == spec_state_path(*env) && #[trigger] read_file.ensures((path,), res),
    {
        let path = Self::get_path(env);
        read_file(path)
    }

    /// Writes the state to where the environment says it is kept, by handing it and that
    /// path to `write_file`.
    pub fn write<F: Fn(&State, String)>(&self, env: &StateEnv, write_file: F)
        requires
            forall|path: String| write_file.requires((self, path)),
        ensures
            exists|path: String| path@ == spec_state_path(*env) && #[trigger] write_file.ensures((self, path), ()),
    {
        let path = Self::get_path(env);
        write_file(self, path)
    }
}

} // verus!
