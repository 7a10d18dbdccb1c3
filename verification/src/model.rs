//! The uniform outbound message model that every handler produces, and the
//! records that the external endpoints return.

use vstd::prelude::*;
use crate::text::option_view;

verus! {

/// One named value inside an embed.
#[derive(Debug, Clone, PartialEq, Eq)]
pub struct EmbedField {
    pub name: String,
    pub value: String,
    pub inline: bool,
}

/// What an [`EmbedField`] holds, as plain sequences.
pub struct EmbedFieldView {
    pub name: Seq<char>,
    pub value: Seq<char>,
    pub inline: bool,
}

impl View for EmbedField {
    type V = EmbedFieldView;

    open spec fn view(&self) -> EmbedFieldView {
        EmbedFieldView { name: self.name@, value: self.value@, inline: self.inline }
    }
}

/// A rich message: title, description, optional image and ordered fields.
#[derive(Debug, Clone, PartialEq, Eq)]
pub struct EmbedSpec {
    pub title: String,
    pub description: String,
    pub image_url: Option<String>,
    pub fields: Vec<EmbedField>,
}

/// What an [`EmbedSpec`] holds, as plain sequences.
pub struct EmbedSpecView {
    pub title: Seq<char>,
    pub description: Seq<char>,
    pub image_url: Option<Seq<char>>,
    pub fields: Seq<EmbedFieldView>,
}

/// The views of the fields in `v`, position by position.
pub open spec fn field_views(v: Seq<EmbedField>) -> Seq<EmbedFieldView> {
    Seq::new(v.len(), |i: int| v[i]@)
}

/// The views of the embeds in `v`, position by position.
pub open spec fn embed_views(v: Seq<EmbedSpec>) -> Seq<EmbedSpecView> {
    Seq::new(v.len(), |i: int| v[i]@)
}

impl View for EmbedSpec {
    type V = EmbedSpecView;

    open spec fn view(&self) -> EmbedSpecView {
        EmbedSpecView {
            title: self.title@,
            description: self.description@,
            image_url: option_view(self.image_url),
            fields: field_views(self.fields@),
        }
    }
}

/// What a handler hands to the renderer: one plain text, or a batch of
/// embeds to be sent one by one.
#[derive(Debug, Clone, PartialEq, Eq)]
pub enum HandlerResult {
    PlainText(String),
    EmbedBatch(Vec<EmbedSpec>),
}

/// What a [`HandlerResult`] holds, as plain sequences.
pub enum HandlerResultView {
    PlainText(Seq<char>),
    EmbedBatch(Seq<EmbedSpecView>),
}

impl View for HandlerResult {
    type V = HandlerResultView;

    open spec fn view(&self) -> HandlerResultView {
        match self {
            HandlerResult::PlainText(s) => HandlerResultView::PlainText(s@),
            HandlerResult::EmbedBatch(v) => HandlerResultView::EmbedBatch(embed_views(v@)),
        }
    }
}

/// The body of one outbound message.
#[derive(Debug, Clone, PartialEq, Eq)]
pub enum Content {
    PlainText(String),
    Embed(EmbedSpec),
}

/// What a [`Content`] holds, as plain sequences.
pub enum ContentView {
    PlainText(Seq<char>),
    Embed(EmbedSpecView),
}

impl View for Content {
    type V = ContentView;

    open spec fn view(&self) -> ContentView {
        match self {
            Content::PlainText(s) => ContentView::PlainText(s@),
            Content::Embed(e) => ContentView::Embed(e@),
        }
    }
}

/// One message for the gateway to deliver to a channel.
#[derive(Debug, Clone, PartialEq, Eq)]
pub struct OutboundSend {
    pub channel_ref: u64,
    pub content: Content,
}

/// What an [`OutboundSend`] holds, as plain values.
pub struct OutboundSendView {
    pub channel_ref: u64,
    pub content: ContentView,
}

impl View for OutboundSend {
    type V = OutboundSendView;

    open spec fn view(&self) -> OutboundSendView {
        OutboundSendView { channel_ref: self.channel_ref, content: self.content@ }
    }
}

/// The views of the messages in `v`, position by position.
pub open spec fn send_views(v: Seq<OutboundSend>) -> Seq<OutboundSendView> {
    Seq::new(v.len(), |i: int| v[i]@)
}

/// A message as the gateway delivers it.
#[derive(Debug, Clone, PartialEq, Eq)]
pub struct InboundMessage {
    pub raw_text: String,
    pub author_name: String,
    pub channel_ref: u64,
}

/// One entry of the string-keyed mapping that the IP-echo endpoint
/// returns. A list of entries stands for the mapping; no key occurs twice
/// in it.
#[derive(Debug, Clone, PartialEq, Eq)]
pub struct Entry {
    pub key: String,
    pub value: String,
}

/// A news story as the per-item endpoint describes it.
#[derive(Debug, Clone, PartialEq, Eq)]
pub struct Story {
    pub title: String,
    pub by: String,
    pub url: Option<String>,
}

/// A blog post of the list field.
#[derive(Debug, Clone, PartialEq, Eq)]
pub struct Blog {
    pub id: String,
    pub slug: String,
    pub title: String,
    pub content: String,
}

/// The part of an organization profile that is rendered.
#[derive(Debug, Clone, PartialEq, Eq)]
pub struct Organization {
    pub name: String,
    pub description: String,
    pub avatar_url: String,
    pub html_url: String,
    pub company: Option<String>,
    pub blog: Option<String>,
    pub location: Option<String>,
    pub email: Option<String>,
    pub public_repos: u32,
}

/// What an [`Organization`] holds, as plain sequences.
pub struct OrganizationView {
    pub name: Seq<char>,
    pub description: Seq<char>,
    pub avatar_url: Seq<char>,
    pub html_url: Seq<char>,
    pub company: Option<Seq<char>>,
    pub blog: Option<Seq<char>>,
    pub location: Option<Seq<char>>,
    pub email: Option<Seq<char>>,
    pub public_repos: u32,
}

impl View for Organization {
    type V = OrganizationView;

    open spec fn view(&self) -> OrganizationView {
        OrganizationView {
            name: self.name@,
            description: self.description@,
            avatar_url: self.avatar_url@,
            html_url: self.html_url@,
            company: option_view(self.company),
            blog: option_view(self.blog),
            location: option_view(self.location),
            email: option_view(self.email),
            public_repos: self.public_repos,
        }
    }
}

/// The part of a member profile that is rendered.
#[derive(Debug, Clone, PartialEq, Eq)]
pub struct Member {
    pub login: String,
    pub html_url: String,
    pub avatar_url: String,
}

} // verus!
