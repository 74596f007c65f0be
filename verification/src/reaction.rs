use vstd::prelude::*;
use crate::commands::{
    choices_view, make_required_option, required_option, ChoiceView, CommandChoice, CommandSpec,
    CommandView, OptionKind, OptionValue,
};
use crate::reply::{
    embed_reply, error_embed, error_reply, field, EmbedFieldView, EmbedView, Reply, ReplyView,
    Embed, OK_COLOR,
};
use crate::state::{ReactionRole, ReactionRoleView, State, StateView};
use crate::text::{decimal, lemma_decimal_parses_back, parse_u64, spec_decimal, spec_parse_u64};

verus! {

pub const ADD_REACTION_ROLE_NAME: &'static str = "add-reaction-role";

/// Adds a reaction role.
pub struct AddReactionRoleCommand;

pub const REMOVE_REACTION_ROLE_NAME: &'static str = "remove-reaction-role";

/// Removes a reaction role.
pub struct RemoveReactionRoleCommand;

/// Why the bot refuses the options of a command.
#[derive(PartialEq, Eq, Structural, Clone, Copy)]
pub enum InvokeError {
    /// The options are not of the kinds the command takes.
    InvalidArguments,
    /// The target message id is not a `u64`.
    InvalidMessageId,
}

/// The choice that names a reaction role: its message id, in decimal, both shown and meant.
pub open spec fn reaction_role_choice(r: ReactionRoleView) -> ChoiceView {
    ChoiceView { name: spec_decimal(r.message_id as nat), value: spec_decimal(r.message_id as nat) }
}

/// The choices offered for a reaction role: one for each, in order.
pub open spec fn reaction_role_choices(st: StateView) -> Seq<ChoiceView> {
    st.reaction_roles.map_values(|r: ReactionRoleView| reaction_role_choice(r))
}

/// The choices offered for a reaction role: one for each, in order.
pub fn gen_opts(state: &State) -> (res: Vec<CommandChoice>)
    ensures
        choices_view(res@) == reaction_role_choices(state@),
{
    let mut res: Vec<CommandChoice> = Vec::new();
    let mut i: usize = 0;
    while i < state.reaction_roles.len()
        invariant
            i <= state.reaction_roles.len(),
            choices_view(res@) == reaction_role_choices(state@).take(i as int),
        decreases state.reaction_roles.len() - i,
    {
        let message_id = state.reaction_roles[i].message_id;
        let choice = CommandChoice { name: decimal(message_id), value: decimal(message_id) };
        assert(state@.reaction_roles[i as int] == state.reaction_roles@[i as int]@);
        let ghost before = res@;
        res.push(choice);
        assert(choices_view(res@) =~= choices_view(before).push(choice@));
        assert(reaction_role_choices(state@).take(i + 1) =~= reaction_role_choices(state@).take(
            i as int,
        ).push(reaction_role_choices(state@)[i as int]));
        i = i + 1;
    }
    assert(reaction_role_choices(state@).take(i as int) =~= reaction_role_choices(state@));
    res
}

/// The value of the choice offered for a reaction role reads back as the message id of
/// that reaction role, so choosing it targets that message.
pub proof fn lemma_choice_targets_its_message(st: StateView, i: int)
    requires
        0 <= i < st.reaction_roles.len(),
    ensures
        spec_parse_u64(reaction_role_choices(st)[i].value) == Some(st.reaction_roles[i].message_id),
{
    lemma_decimal_parses_back(st.reaction_roles[i].message_id);
}

/// The reaction role that the options describe: the emote, the target message id read as a
/// `u64`, and the role.
pub open spec fn spec_reaction_role_arguments(
    emote: OptionValue,
    target: OptionValue,
    role: OptionValue,
) -> Result<ReactionRoleView, InvokeError> {
    match (emote, target, role) {
        (OptionValue::String(e), OptionValue::String(t), OptionValue::Role(r)) => {
            match spec_parse_u64(t@) {
                Some(m) => Ok(ReactionRoleView { message_id: m, role_id: r, emote: e@ }),
                None => Err(InvokeError::InvalidMessageId),
            }
        },
        _ => Err(InvokeError::InvalidArguments),
    }
}

/// The reply to adding a reaction role: the error, if registering the commands again
/// failed, or else the new reaction role, shown only to the user who added it.
pub open spec fn added_reaction_role_reply(
    emote: Seq<char>,
    target: Seq<char>,
    role_id: u64,
    register_error: Option<Seq<char>>,
) -> ReplyView {
    match register_error {
        Some(e) => embed_reply(error_embed(e)),
        None => ReplyView {
            ephemeral: true,
            content: None,
            embed: EmbedView {
                title: "Reaction role"@,
                description: "Successfully added a reaction role"@,
                colour: Some(OK_COLOR),
                fields: seq![
                    EmbedFieldView { name: "Emote"@, value: emote, inline: false },
                    EmbedFieldView { name: "Message ID"@, value: target, inline: false },
                    EmbedFieldView { name: "Role"@, value: spec_decimal(role_id as nat), inline: false },
                ],
            },
        },
    }
}

impl AddReactionRoleCommand {
    pub open spec fn spec() -> CommandView {
        CommandView {
            name: ADD_REACTION_ROLE_NAME@,
            description: "Adds a reaction role"@,
            options: seq![
                required_option("emote"@, "The emote to use for the reaction role"@, OptionKind::String, Seq::empty()),
                required_option("target"@, "The target message id"@, OptionKind::String, Seq::empty()),
                required_option("role"@, "The role to assign when reacted with this emote"@, OptionKind::Role, Seq::empty()),
            ],
        }
    }

    /// The command as it is registered.
    pub fn register() -> (res: CommandSpec)
        ensures
            res@ == Self::spec(),
    {
        let emote = make_required_option(
            "emote",
            "The emote to use for the reaction role",
            OptionKind::String,
            Vec::new(),
        );
        let target = make_required_option("target", "The target message id", OptionKind::String, Vec::new());
        let role = make_required_option(
            "role",
            "The role to assign when reacted with this emote",
            OptionKind::Role,
            Vec::new(),
        );
        assert(emote@.choices =~= Seq::<ChoiceView>::empty());
        assert(target@.choices =~= Seq::<ChoiceView>::empty());
        assert(role@.choices =~= Seq::<ChoiceView>::empty());
        let res = CommandSpec {
            name: String::from_str(ADD_REACTION_ROLE_NAME),
            description: String::from_str("Adds a reaction role"),
            options: vec![emote, target, role],
        };
        assert(res@.options =~= Self::spec().options);
        res
    }

    /// The reaction role that the options describe, or why they describe none.
    pub fn parse_arguments(emote: &OptionValue, target: &OptionValue, role: &OptionValue) -> (res: Result<
        ReactionRole,
        InvokeError,
    >)
        ensures
            match spec_reaction_role_arguments(*emote, *target, *role) {
                Ok(r) => res matches Ok(made) && made@ == r,
                Err(e) => res == Err::<ReactionRole, InvokeError>(e),
            },
    {
        match (emote, target, role) {
            (OptionValue::String(e), OptionValue::String(t), OptionValue::Role(r)) => {
                match parse_u64(t.as_str()) {
                    Some(message_id) => Ok(ReactionRole { message_id, role_id: *r, emote: e.clone() }),
                    None => Err(InvokeError::InvalidMessageId),
                }
            },
            _ => Err(InvokeError::InvalidArguments),
        }
    }

    /// The answer once the reaction role was added and the commands registered again.
    pub fn reply(emote: &String, target: &String, role_id: u64, register_error: Option<String>) -> (res: Reply)
        ensures
            res@ == added_reaction_role_reply(
                emote@,
                target@,
                role_id,
                match register_error {
                    Some(e) => Some(e@),
                    None => None,
                },
            ),
    {
        match register_error {
            Some(e) => error_reply(e),
            None => {
                let fields = vec![
                    field("Emote", emote.clone(), false),
                    field("Message ID", target.clone(), false),
                    field("Role", decimal(role_id), false),
                ];
                let embed = Embed {
                    title: String::from_str("Reaction role"),
                    description: String::from_str("Successfully added a reaction role"),
                    colour: Some(OK_COLOR),
                    fields,
                };
                let res = Reply { ephemeral: true, content: None, embed };
                assert(res@.embed.fields =~= added_reaction_role_reply(emote@, target@, role_id, None).embed.fields);
                res
            },
        }
    }
}

/// The reply to removing this reaction role, shown only to the user who removed it.
pub open spec fn removed_reaction_role_reply(r: ReactionRoleView) -> ReplyView {
    ReplyView {
        ephemeral: true,
        content: None,
        embed: EmbedView {
            title: "Reaction role"@,
            description: "Succesfully removed reaction role"@,
            colour: None,
            fields: seq![
                EmbedFieldView { name: "Message ID"@, value: spec_decimal(r.message_id as nat), inline: false },
                EmbedFieldView { name: "Emote"@, value: r.emote, inline: false },
                EmbedFieldView { name: "Role"@, value: spec_decimal(r.role_id as nat), inline: false },
            ],
        },
    }
}

impl RemoveReactionRoleCommand {
    pub open spec fn spec(st: StateView) -> CommandView {
        CommandView {
            name: REMOVE_REACTION_ROLE_NAME@,
            description: "Removes a reaction role"@,
            options: seq![
                required_option("target"@, "The target message id"@, OptionKind::String, reaction_role_choices(st)),
            ],
        }
    }

    /// The command as it is registered.
    pub fn register(state: &State) -> (res: CommandSpec)
        ensures
            res@ == Self::spec(state@),
    {
        let option = make_required_option("target", "The target message id", OptionKind::String, gen_opts(state));
        let res = CommandSpec {
            name: String::from_str(REMOVE_REACTION_ROLE_NAME),
            description: String::from_str("Removes a reaction role"),
            options: vec![option],
        };
        assert(res@.options =~= Self::spec(state@).options);
        res
    }

    /// Removes the reaction role of the target message and gives the answer, if there was
    /// one; refuses an option that is not text or not a `u64`, changing nothing.
    pub fn invoke(state: &mut State, target: &OptionValue) -> (res: Result<Option<Reply>, InvokeError>)
        ensures
            match target {
                OptionValue::String(t) => match spec_parse_u64(t@) {
                    Some(m) => {
                        &&& final(state)@ == old(state)@.remove_reaction_role(m)
                        &&& match old(state)@.find_reaction_role(m) {
                            Some(r) => res matches Ok(Some(reply)) && reply@ == removed_reaction_role_reply(r),
                            None => res matches Ok(None),
                        }
                    },
                    None => final(state)@ == old(state)@ && res matches Err(InvokeError::InvalidMessageId),
                },
                _ => final(state)@ == old(state)@ && res matches Err(InvokeError::InvalidArguments),
            },
    {
        match target {
            OptionValue::String(t) => match parse_u64(t.as_str()) {
                Some(message_id) => match state.remove_reaction_role(message_id) {
                    Some(removed) => {
                        let fields = vec![
                            field("Message ID", decimal(removed.message_id), false),
                            field("Emote", removed.emote, false),
                            field("Role", decimal(removed.role_id), false),
                        ];
                        let embed = Embed {
                            title: String::from_str("Reaction role"),
                            description: String::from_str("Succesfully removed reaction role"),
                            colour: None,
                            fields,
                        };
                        let reply = Reply { ephemeral: true, content: None, embed };
                        assert(reply@.embed.fields =~= removed_reaction_role_reply(removed@).embed.fields);
                        Ok(Some(reply))
                    },
                    None => Ok(None),
                },
                None => Err(InvokeError::InvalidMessageId),
            },
            _ => Err(InvokeError::InvalidArguments),
        }
    }
}

/// The role to look for when a reaction is added to or removed from a message: that of the
/// message's reaction role, if it has one and the reaction was made in a guild.
pub fn get_reaction_role(state: &State, message_id: u64, guild_id: Option<u64>) -> (res: Option<u64>)
    ensures
        res == match (state@.find_reaction_role(message_id), guild_id) {
            (Some(r), Some(_)) => Some(r.role_id),
            _ => None,
        },
{
    match (state.find_reaction_role(message_id), guild_id) {
        (Some(r), Some(_)) => Some(r.role_id),
        _ => None,
    }
}

/// The role of the guild with this id, if the guild has it.
pub fn find_guild_role(role_id: u64, guild_roles: &Vec<u64>) -> (res: Option<u64>)
    ensures
        res == (if guild_roles@.contains(role_id) {
            Some(role_id)
        } else {
            None
        }),
{
    let mut i: usize = 0;
    while i < guild_roles.len()
        invariant
            i <= guild_roles.len(),
            forall|j: int| 0 <= j < i ==> guild_roles@[j] != role_id,
        decreases guild_roles.len() - i,
    {
        if guild_roles[i] == role_id {
            return Some(role_id);
        }
        i = i + 1;
    }
    None
}

} // verus!
