use vstd::prelude::*;

verus! {

/// The colour of embeds that report success.
pub const OK_COLOR: u32 = 0x2ecc71;

/// The colour of embeds that report an error.
pub const ERROR_COLOR: u32 = 0xe74c3c;

/// A named value shown in an embed.
pub struct EmbedField {
    pub name: String,
    pub value: String,
    pub inline: bool,
}

/// The card the bot posts: a title, a description, an optional colour and fields.
pub struct Embed {
    pub title: String,
    pub description: String,
    pub colour: Option<u32>,
    pub fields: Vec<EmbedField>,
}

/// A message the bot sends in answer to a command.
pub struct Reply {
    pub ephemeral: bool,
    pub content: Option<String>,
    pub embed: Embed,
}

pub struct EmbedFieldView {
    pub name: Seq<char>,
    pub value: Seq<char>,
    pub inline: bool,
}

pub struct EmbedView {
    pub title: Seq<char>,
    pub description: Seq<char>,
    pub colour: Option<u32>,
    pub fields: Seq<EmbedFieldView>,
}

pub struct ReplyView {
    pub ephemeral: bool,
    pub content: Option<Seq<char>>,
    pub embed: EmbedView,
}

impl View for EmbedField {
    type V = EmbedFieldView;

    open spec fn view(&self) -> EmbedFieldView {
        EmbedFieldView { name: self.name@, value: self.value@, inline: self.inline }
    }
}

impl View for Embed {
    type V = EmbedView;

    open spec fn view(&self) -> EmbedView {
        EmbedView {
            title: self.title@,
            description: self.description@,
            colour: self.colour,
            fields: self.fields@.map_values(|f: EmbedField| f@),
        }
    }
}

impl View for Reply {
    type V = ReplyView;

    open spec fn view(&self) -> ReplyView {
        ReplyView {
            ephemeral: self.ephemeral,
            content: match self.content {
                Some(c) => Some(c@),
                None => None,
            },
            embed: self.embed@,
        }
    }
}

/// An embed without fields.
pub open spec fn plain_embed(title: Seq<char>, description: Seq<char>, colour: Option<u32>) -> EmbedView {
    EmbedView { title, description, colour, fields: Seq::empty() }
}

/// A reply that everybody sees, made of one embed and no text.
pub open spec fn embed_reply(embed: EmbedView) -> ReplyView {
    ReplyView { ephemeral: false, content: None, embed }
}

/// The embed that reports an error with this description.
pub open spec fn error_embed(description: Seq<char>) -> EmbedView {
    plain_embed("Error"@, description, Some(ERROR_COLOR))
}

/// Builds an embed without fields.
pub fn make_plain_embed(title: String, description: String, colour: Option<u32>) -> (res: Embed)
    ensures
        res@ == plain_embed(title@, description@, colour),
{
    let res = Embed { title, description, colour, fields: Vec::new() };
    assert(res@.fields =~= Seq::<EmbedFieldView>::empty());
    res
}

/// Builds the reply that reports an error with this description.
pub fn error_reply(description: String) -> (res: Reply)
    ensures
        res@ == embed_reply(error_embed(description@)),
{
    let embed = make_plain_embed(String::from_str("Error"), description, Some(ERROR_COLOR));
    Reply { ephemeral: false, content: None, embed }
}

/// Builds an embed field.
pub fn field(name: &str, value: String, inline: bool) -> (res: EmbedField)
    ensures
        res@ == (EmbedFieldView { name: name@, value: value@, inline }),
{
    EmbedField { name: String::from_str(name), value, inline }
}

/// `prefix`, then `middle`, then `suffix`, as one string.
pub fn surround(prefix: &str, middle: &str, suffix: &str) -> (res: String)
    ensures
        res@ == prefix@ + middle@ + suffix@,
{
    let mut res = String::from_str(prefix);
    res.append(middle);
    res.append(suffix);
    res
}

} // verus!
