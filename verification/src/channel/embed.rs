//! Rich content embedded in a message.

use vstd::prelude::*;

verus! {

/// Rich content embedded in a message.
#[derive(Clone, Debug)]
pub struct Embed {
    /// Who wrote the content.
    pub author: Option<EmbedAuthor>,
    /// The colour of the bar at the side, as one integer.
    pub colour: u32,
    /// The text of the content.
    pub description: Option<String>,
    /// The fields of the content, in their order.
    pub fields: Vec<EmbedField>,
    /// What stands below the content.
    pub footer: Option<EmbedFooter>,
    /// The image of the content.
    pub image: Option<EmbedImage>,
    /// The kind of the content, as the platform writes it.
    pub kind: String,
    /// Where the content comes from.
    pub provider: Option<EmbedProvider>,
    /// The small image of the content.
    pub thumbnail: Option<EmbedThumbnail>,
    /// When the content was made, as the platform writes it.
    pub timestamp: Option<String>,
    /// The title of the content.
    pub title: Option<String>,
    /// The address that the title links to.
    pub url: Option<String>,
    /// The video of the content.
    pub video: Option<EmbedVideo>,
}

/// Who wrote an embed.
#[derive(Clone, Debug)]
pub struct EmbedAuthor {
    pub icon_url: Option<String>,
    pub name: String,
    pub proxy_icon_url: Option<String>,
    pub url: Option<String>,
}

/// One field of an embed.
#[derive(Clone, Debug)]
pub struct EmbedField {
    /// Whether the field shares its line with others.
    pub inline: bool,
    pub name: String,
    pub value: String,
}

/// What stands below an embed.
#[derive(Clone, Debug)]
pub struct EmbedFooter {
    pub icon_url: Option<String>,
    pub proxy_icon_url: Option<String>,
    pub text: String,
}

/// The image of an embed.
#[derive(Clone, Debug)]
pub struct EmbedImage {
    pub height: u64,
    pub proxy_url: String,
    pub url: String,
    pub width: u64,
}

/// Where an embed comes from.
#[derive(Clone, Debug)]
pub struct EmbedProvider {
    pub name: String,
    pub url: Option<String>,
}

/// The small image of an embed.
#[derive(Clone, Debug)]
pub struct EmbedThumbnail {
    pub height: u64,
    pub proxy_url: String,
    pub url: String,
    pub width: u64,
}

/// The video of an embed.
#[derive(Clone, Debug)]
pub struct EmbedVideo {
    pub height: u64,
    pub url: String,
    pub width: u64,
}

} // verus!
