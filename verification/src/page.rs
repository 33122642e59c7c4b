//! The embed page: a fixed HTML document around four fields.
use vstd::prelude::*;

verus! {

/// The document up to the address that the visitor is forwarded to.
pub const DOC_OPEN: &'static str =
    "<!DOCTYPE html>\n<html>\n<head>\n  <meta http-equiv=\"refresh\" content=\"0; url=";

/// Closes the refresh tag and opens the title element.
pub const TITLE_OPEN: &'static str = "\" />\n  <title>";

/// Closes the title element and opens the description tag.
pub const DESCRIPTION_OPEN: &'static str = "</title>\n  <meta name=\"description\" content=\"";

/// Closes the description tag and opens the Open Graph title.
pub const OG_TITLE_OPEN: &'static str = "\">\n  <meta property=\"og:title\" content=\"";

/// Closes the Open Graph title and opens the Open Graph description.
pub const OG_DESCRIPTION_OPEN: &'static str = "\">\n  <meta property=\"og:description\" content=\"";

/// Closes the Open Graph description and opens the site name.
pub const OG_SITE_NAME_OPEN: &'static str = "\">\n  <meta property=\"og:site_name\" content=\"";

/// The site name that every page carries.
pub const SITE_NAME: &'static str = "Piped";

/// Closes the site name and opens the Open Graph image.
pub const OG_IMAGE_OPEN: &'static str = "\">\n  <meta property=\"og:image\" content=\"";

/// Closes the Open Graph image and the document.
pub const DOC_CLOSE: &'static str = "\">\n</head>\n</html>";

/// The text of the embed page for a destination, a title, a description and a
/// thumbnail address. Each field stands in the document as it is given.
pub open spec fn page_text(
    url: Seq<char>,
    title: Seq<char>,
    description: Seq<char>,
    thumbnail: Seq<char>,
) -> Seq<char> {
    DOC_OPEN@ + url + TITLE_OPEN@ + title + DESCRIPTION_OPEN@ + description + OG_TITLE_OPEN@
        + title + OG_DESCRIPTION_OPEN@ + description + OG_SITE_NAME_OPEN@ + SITE_NAME@
        + OG_IMAGE_OPEN@ + thumbnail + DOC_CLOSE@
}

/// How the body of a reply is to be read.
#[derive(Debug, Clone, Copy, PartialEq, Eq, Structural)]
pub enum ContentType {
    /// `text/html`
    Html,
    /// Plain text, sent without a declared content type.
    PlainText,
}

/// What declares an HTML body.
pub const HTML_CONTENT_TYPE: &'static str = "text/html";

impl ContentType {
    /// The content type that a reply declares: `text/html` for a page, none
    /// for plain text.
    pub fn header(self) -> (value: Option<&'static str>)
        ensures
            value == match self {
                ContentType::Html => Some(HTML_CONTENT_TYPE),
                ContentType::PlainText => None,
            },
    {
        match self {
            ContentType::Html => Some(HTML_CONTENT_TYPE),
            ContentType::PlainText => None,
        }
    }
}

/// What is sent back for one request.
#[derive(Debug, Clone)]
pub struct Reply {
    /// The HTTP status code.
    pub status: u16,
    /// How the body is to be read.
    pub content_type: ContentType,
    /// The body.
    pub body: String,
}

/// The status code of every reply.
pub const STATUS_OK: u16 = 200;

/// Renders the embed page for a destination and three fields.
///
/// The fields are placed into the document as they are: a caller that holds
/// text from elsewhere escapes it first.
pub fn build_response(url: String, title: String, description: String, thumbnail: String) -> (reply:
    Reply)
    ensures
        reply.status == STATUS_OK,
        reply.content_type == ContentType::Html,
        reply.body@ == page_text(url@, title@, description@, thumbnail@),
{
    let mut body = String::from_str(DOC_OPEN);
    body.append(url.as_str());
    body.append(TITLE_OPEN);
    body.append(title.as_str());
    body.append(DESCRIPTION_OPEN);
    body.append(description.as_str());
    body.append(OG_TITLE_OPEN);
    body.append(title.as_str());
    body.append(OG_DESCRIPTION_OPEN);
    body.append(description.as_str());
    body.append(OG_SITE_NAME_OPEN);
    body.append(SITE_NAME);
    body.append(OG_IMAGE_OPEN);
    body.append(thumbnail.as_str());
    body.append(DOC_CLOSE);
    Reply { status: STATUS_OK, content_type: ContentType::Html, body }
}

} // verus!
