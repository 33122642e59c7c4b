//! Embed pages for link previews.
//!
//! A link to a video, a playlist or a channel is answered with a tiny HTML
//! page: it forwards a human visitor to the front-end at once, and carries the
//! Open Graph tags from which a crawler builds a rich preview. This crate holds
//! the rules of that answer; the transport around it lives elsewhere.
//!
//! - [`config`]: the two base addresses and their defaults, the routes and the
//!   port.
//! - [`escape`]: what escaping does to a text, and what then holds of it.
//! - [`page`]: the document, and the reply that carries it.
//! - [`embed`]: the answers to the four requests.
//! - [`parse`]: how a page is read back, and that reading gives back what was
//!   rendered.
pub mod config;
pub mod embed;
pub mod escape;
pub mod page;
pub mod parse;

pub use config::{get_env_string, ServiceConfig};
pub use embed::{
    channel, destination_url, playlist, status, video, ChannelMetadata, EntityKind, FetchError,
    PlaylistMetadata, VideoMetadata,
};
pub use page::{build_response, ContentType, Reply};
