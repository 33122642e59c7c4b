//! The answers to the four requests: the liveness probe and the embed pages
//! of a video, a playlist and a channel.
use vstd::prelude::*;
use crate::escape::{encode_safe, escape_safe};
use crate::page::{build_response, page_text, ContentType, Reply, STATUS_OK};

verus! {

/// What the liveness probe answers.
pub const STATUS_BODY: &'static str = "Service up!";

/// What follows the front-end's base address in the address of a video.
pub const VIDEO_PATH: &'static str = "/watch?v=";

/// What follows the front-end's base address in the address of a playlist.
pub const PLAYLIST_PATH: &'static str = "/playlist?list=";

/// What follows the front-end's base address in the address of a channel.
pub const CHANNEL_PATH: &'static str = "/channel/";

/// The kinds of thing that an embed page can stand for.
#[derive(Debug, Clone, Copy, PartialEq, Eq, Structural)]
pub enum EntityKind {
    Video,
    Playlist,
    Channel,
}

/// The backend could not be asked, refused, or sent what could not be read.
/// The three are one to this library: each gives the page without a preview.
#[derive(Debug, Clone, Copy, PartialEq, Eq, Structural)]
pub struct FetchError;

/// What the backend tells of a video.
#[derive(Debug, Clone)]
pub struct VideoMetadata {
    pub title: String,
    pub description: String,
    pub thumbnail_url: String,
}

/// What the backend tells of a playlist.
#[derive(Debug, Clone)]
pub struct PlaylistMetadata {
    pub name: String,
    pub uploader: String,
    pub thumbnail_url: String,
}

/// What the backend tells of a channel.
#[derive(Debug, Clone)]
pub struct ChannelMetadata {
    pub name: String,
    pub description: String,
    pub avatar_url: String,
}

impl EntityKind {
    /// What follows the front-end's base address in the address of a thing of
    /// this kind, before its identifier.
    pub open spec fn path(self) -> Seq<char> {
        match self {
            EntityKind::Video => VIDEO_PATH@,
            EntityKind::Playlist => PLAYLIST_PATH@,
            EntityKind::Channel => CHANNEL_PATH@,
        }
    }
}

/// The address on the front-end of the thing with a given identifier: base
/// address, path and identifier, one after the other, nothing added.
pub open spec fn destination(frontend_url: Seq<char>, kind: EntityKind, id: Seq<char>) -> Seq<
    char,
> {
    frontend_url + kind.path() + id
}

/// The text of the embed page for a destination and what was fetched: three
/// fields, of which the first two are text and the third an address. The text
/// fields stand escaped, the address as it is; with nothing fetched, all three
/// are empty.
pub open spec fn embed_text(
    destination: Seq<char>,
    fetched: Option<(Seq<char>, Seq<char>, Seq<char>)>,
) -> Seq<char> {
    match fetched {
        Some((title, description, image)) => page_text(
            destination,
            escape_safe(title),
            escape_safe(description),
            image,
        ),
        None => page_text(destination, Seq::empty(), Seq::empty(), Seq::empty()),
    }
}

/// Answers the liveness probe: always the same words, whatever else is the
/// case.
pub fn status() -> (reply: Reply)
    ensures
        reply.status == STATUS_OK,
        reply.content_type == ContentType::PlainText,
        reply.body@ == STATUS_BODY@,
{
    Reply {
        status: STATUS_OK,
        content_type: ContentType::PlainText,
        body: String::from_str(STATUS_BODY),
    }
}

/// Builds the address on the front-end of the thing with a given identifier.
/// Neither the base address nor the identifier is looked at.
pub fn destination_url(frontend_url: &str, kind: EntityKind, id: &str) -> (url: String)
    ensures
        url@ == destination(frontend_url@, kind, id@),
{
    let mut url = String::from_str(frontend_url);
    match kind {
        EntityKind::Video => url.append(VIDEO_PATH),
        EntityKind::Playlist => url.append(PLAYLIST_PATH),
        EntityKind::Channel => url.append(CHANNEL_PATH),
    }
    url.append(id);
    url
}

/// The embed page of a video, from what the backend answered for its
/// identifier. Title and description are escaped; the thumbnail's address is
/// not. A failed fetch gives the page with empty fields, and the same
/// destination.
pub fn video(frontend_url: &str, video_id: &str, fetched: Result<VideoMetadata, FetchError>) -> (reply:
    Reply)
    ensures
        reply.status == STATUS_OK,
        reply.content_type == ContentType::Html,
        reply.body@ == embed_text(
            destination(frontend_url@, EntityKind::Video, video_id@),
            match fetched {
                Ok(video) => Some((video.title@, video.description@, video.thumbnail_url@)),
                Err(_) => None,
            },
        ),
{
    let url = destination_url(frontend_url, EntityKind::Video, video_id);
    match fetched {
        Ok(video) => build_response(
            url,
            encode_safe(video.title.as_str()),
            encode_safe(video.description.as_str()),
            video.thumbnail_url,
        ),
        Err(_) => build_response(url, String::new(), String::new(), String::new()),
    }
}

/// The embed page of a playlist, from what the backend answered for its
/// identifier. The playlist's name is the title and its uploader the
/// description, both escaped; the thumbnail's address is not escaped. A failed
/// fetch gives the page with empty fields, and the same destination.
pub fn playlist(
    frontend_url: &str,
    playlist_id: &str,
    fetched: Result<PlaylistMetadata, FetchError>,
) -> (reply: Reply)
    ensures
        reply.status == STATUS_OK,
        reply.content_type == ContentType::Html,
        reply.body@ == embed_text(
            destination(frontend_url@, EntityKind::Playlist, playlist_id@),
            match fetched {
                Ok(playlist) => Some((playlist.name@, playlist.uploader@, playlist.thumbnail_url@)),
                Err(_) => None,
            },
        ),
{
    let url = destination_url(frontend_url, EntityKind::Playlist, playlist_id);
    match fetched {
        Ok(playlist) => build_response(
            url,
            encode_safe(playlist.name.as_str()),
            encode_safe(playlist.uploader.as_str()),
            playlist.thumbnail_url,
        ),
        Err(_) => build_response(url, String::new(), String::new(), String::new()),
    }
}

/// The embed page of a channel, from what the backend answered for its
/// identifier. Name and description are escaped; the avatar's address is not.
/// A failed fetch gives the page with empty fields, and the same destination.
pub fn channel(frontend_url: &str, channel_id: &str, fetched: Result<ChannelMetadata, FetchError>) -> (reply:
    Reply)
    ensures
        reply.status == STATUS_OK,
        reply.content_type == ContentType::Html,
        reply.body@ == embed_text(
            destination(frontend_url@, EntityKind::Channel, channel_id@),
            match fetched {
                Ok(channel) => Some((channel.name@, channel.description@, channel.avatar_url@)),
                Err(_) => None,
            },
        ),
{
    let url = destination_url(frontend_url, EntityKind::Channel, channel_id);
    match fetched {
        Ok(channel) => build_response(
            url,
            encode_safe(channel.name.as_str()),
            encode_safe(channel.description.as_str()),
            channel.avatar_url,
        ),
        Err(_) => build_response(url, String::new(), String::new(), String::new()),
    }
}

} // verus!
