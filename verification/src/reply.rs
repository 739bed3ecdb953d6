//! The outbound data model: a reply is plain text, optionally with a file
//! attachment and a rich embed. Spec predicates pin down, field by field, the
//! fixed replies that the dispatcher produces.

use vstd::prelude::*;

verus! {

/// One name/value field of an embed; `inline` is the layout flag the chat
/// platform uses when rendering.
pub struct EmbedField {
    pub name: String,
    pub value: String,
    pub inline: bool,
}

/// A rich-content block attachable to an outbound message.
pub struct ReplyEmbed {
    pub title: String,
    pub description: String,
    pub fields: Vec<EmbedField>,
    pub footer_text: String,
    /// Timestamp shown on the embed, as Unix seconds.
    pub timestamp_unix: i64,
}

/// One outbound chat message.
pub struct Reply {
    pub text: String,
    /// Path of a file to attach, if any.
    pub attachment_path: Option<String>,
    pub embed: Option<ReplyEmbed>,
}

/// A bare text reply: the given text, no attachment, no embed.
pub open spec fn is_text_reply(r: Reply, text: Seq<char>) -> bool {
    &&& r.text@ == text
    &&& r.attachment_path is None
    &&& r.embed is None
}

/// Builds a bare text reply.
pub fn text_reply(text: String) -> (r: Reply)
    ensures
        is_text_reply(r, text@),
{
    Reply { text, attachment_path: None, embed: None }
}

/// An embed field with the given name, value and layout flag.
pub open spec fn is_embed_field(
    f: EmbedField,
    name: Seq<char>,
    value: Seq<char>,
    inline: bool,
) -> bool {
    &&& f.name@ == name
    &&& f.value@ == value
    &&& f.inline == inline
}

/// The demonstration embed of the greeting reply: fixed title, description,
/// three fields and footer, stamped with the given time.
pub open spec fn is_hello_embed(e: ReplyEmbed, now_unix: i64) -> bool {
    &&& e.title@ == "This is a title"@
    &&& e.description@ == "This is a description"@
    &&& e.footer_text@ == "This is a footer"@
    &&& e.timestamp_unix == now_unix
    &&& e.fields@.len() == 3
    &&& is_embed_field(e.fields@[0], "This is the first field"@, "This is a field body"@, true)
    &&& is_embed_field(
        e.fields@[1],
        "This is the second field"@,
        "Both fields are inline"@,
        true,
    )
    &&& is_embed_field(
        e.fields@[2],
        "This is the third field"@,
        "This is not an inline field"@,
        false,
    )
}

/// The greeting reply: "Hello, World!", the attached file, and the
/// demonstration embed stamped with the given time.
pub open spec fn is_hello_reply(r: Reply, now_unix: i64) -> bool {
    &&& r.text@ == "Hello, World!"@
    &&& r.attachment_path matches Some(p) && p@ == "./yeet.gif"@
    &&& r.embed matches Some(e) && is_hello_embed(e, now_unix)
}

fn embed_field(name: &str, value: &str, inline: bool) -> (f: EmbedField)
    ensures
        is_embed_field(f, name@, value@, inline),
{
    EmbedField { name: name.to_owned(), value: value.to_owned(), inline }
}

/// Builds the greeting reply, stamped with the given time.
pub fn hello_reply(now_unix: i64) -> (r: Reply)
    ensures
        is_hello_reply(r, now_unix),
{
    let mut fields: Vec<EmbedField> = Vec::new();
    fields.push(embed_field("This is the first field", "This is a field body", true));
    fields.push(embed_field("This is the second field", "Both fields are inline", true));
    fields.push(embed_field("This is the third field", "This is not an inline field", false));
    let embed = ReplyEmbed {
        title: "This is a title".to_owned(),
        description: "This is a description".to_owned(),
        fields,
        footer_text: "This is a footer".to_owned(),
        timestamp_unix: now_unix,
    };
    Reply {
        text: "Hello, World!".to_owned(),
        attachment_path: Some("./yeet.gif".to_owned()),
        embed: Some(embed),
    }
}

} // verus!
