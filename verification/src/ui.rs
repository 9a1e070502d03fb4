//! Plain descriptions of the Discord embeds and buttons the bot sends.

use vstd::prelude::*;

verus! {

/// One titled field of an embed.
pub struct EmbedField {
    pub name: String,
    pub value: String,
    pub inline: bool,
}

/// An embed: optional title, description and footer, and a list of fields.
pub struct Embed {
    pub title: Option<String>,
    pub description: Option<String>,
    pub fields: Vec<EmbedField>,
    pub footer: Option<String>,
}

/// How a button is drawn.
#[derive(PartialEq, Eq, Structural, Clone, Copy)]
pub enum ButtonStyle {
    Primary,
    Link,
}

/// A button: either an interaction button with a custom id, or a link button with a url.
pub struct Button {
    pub custom_id: Option<String>,
    pub url: Option<String>,
    pub label: String,
    pub style: ButtonStyle,
    pub disabled: bool,
}

/// The view of an optional string.
pub open spec fn opt_view(o: Option<String>) -> Option<Seq<char>> {
    match o {
        Some(s) => Some(s@),
        None => None,
    }
}

/// The view of an embed field: name, value and whether it is inline.
pub open spec fn field_view(f: EmbedField) -> (Seq<char>, Seq<char>, bool) {
    (f.name@, f.value@, f.inline)
}

/// The views of a list of embed fields.
pub open spec fn fields_view(fs: Seq<EmbedField>) -> Seq<(Seq<char>, Seq<char>, bool)> {
    fs.map_values(|f: EmbedField| field_view(f))
}

/// Builds an embed field.
pub fn field(name: String, value: String, inline: bool) -> (f: EmbedField)
    ensures
        f.name@ == name@,
        f.value@ == value@,
        f.inline == inline,
{
    EmbedField { name, value, inline }
}

} // verus!
