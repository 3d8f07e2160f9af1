//! Rich-embed shapes for outbound messages: data the notification client
//! serializes onto the wire, carried here as plain values.

use vstd::prelude::*;

verus! {

/// A thumbnail image of an embed.
#[derive(Debug)]
pub struct Thumbnail {
    pub url: String,
}

/// The footer line of an embed.
#[derive(Debug)]
pub struct EmbedFooter {
    pub text: String,
}

/// One named field of an embed.
#[derive(Debug)]
pub struct EmbedField {
    pub name: String,
    pub value: String,
    pub inline: Option<bool>,
}

/// A rich embed attached to an outbound message.
#[derive(Debug)]
pub struct Embed {
    pub title: String,
    pub description: Option<String>,
    pub url: Option<String>,
    pub thumbnail: Thumbnail,
    pub footer: Option<EmbedFooter>,
    pub fields: Vec<EmbedField>,
}

} // verus!
