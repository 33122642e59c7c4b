//! Reading an embed page back: what a crawler finds in it.
use vstd::prelude::*;
use crate::embed::embed_text;
use crate::escape::{escape_safe, is_markup_char, lemma_escaped_is_markup_free, markup_free};
use crate::page::{
    page_text, DESCRIPTION_OPEN, DOC_CLOSE, DOC_OPEN, OG_DESCRIPTION_OPEN, OG_IMAGE_OPEN,
    OG_SITE_NAME_OPEN, OG_TITLE_OPEN, SITE_NAME, TITLE_OPEN,
};

verus! {

/// The fields that an embed page carries, as they stand in its text.
pub struct PageFields {
    /// The address of the refresh tag: where the visitor is forwarded to.
    pub url: Seq<char>,
    /// The content of the title element.
    pub title: Seq<char>,
    /// The content of the description tag.
    pub description: Seq<char>,
    /// The content of the Open Graph title.
    pub og_title: Seq<char>,
    /// The content of the Open Graph description.
    pub og_description: Seq<char>,
    /// The content of the Open Graph image.
    pub image: Seq<char>,
}

/// The longest start of a text in which a given character does not occur.
pub open spec fn up_to(s: Seq<char>, stop: char) -> Seq<char>
    decreases s.len(),
{
    if s.len() == 0 || s[0] == stop {
        Seq::empty()
    } else {
        seq![s[0]] + up_to(s.drop_first(), stop)
    }
}

/// Whether a character occurs nowhere in a text.
pub open spec fn lacks(s: Seq<char>, c: char) -> bool {
    forall|i: int| 0 <= i < s.len() ==> #[trigger] s[i] != c
}

/// What is left of a text once a given start has been read off it; `None`
/// where the text does not start so.
pub open spec fn after(s: Seq<char>, start: Seq<char>) -> Option<Seq<char>> {
    if start.is_prefix_of(s) {
        Some(s.skip(start.len() as int))
    } else {
        None
    }
}

/// What is left of a text once a field has been read off it that ends before
/// the first occurrence of `stop`, and then the fixed text `next`.
pub open spec fn after_field(s: Seq<char>, stop: char, next: Seq<char>) -> Option<Seq<char>> {
    after(s.skip(up_to(s, stop).len() as int), next)
}

/// Where a page forwards its visitor to: what stands in the refresh tag behind
/// the opening of the document, up to the `"` that closes the attribute.
pub open spec fn refresh_target(text: Seq<char>) -> Seq<char> {
    up_to(text.skip(DOC_OPEN@.len() as int), '"')
}

/// Reads an embed page as a crawler does: the fixed text of the document is
/// matched, and each field is what stands between two pieces of it, up to the
/// character that ends it (`<` for the title element, `"` for an attribute).
/// `None` where the text is not of that shape.
pub open spec fn read_page(text: Seq<char>) -> Option<PageFields> {
    let at_url = after(text, DOC_OPEN@);
    let at_title = after_field(at_url.unwrap(), '"', TITLE_OPEN@);
    let at_description = after_field(at_title.unwrap(), '<', DESCRIPTION_OPEN@);
    let at_og_title = after_field(at_description.unwrap(), '"', OG_TITLE_OPEN@);
    let at_og_description = after_field(at_og_title.unwrap(), '"', OG_DESCRIPTION_OPEN@);
    let at_site_name = after_field(at_og_description.unwrap(), '"', OG_SITE_NAME_OPEN@);
    let at_image = after(at_site_name.unwrap(), SITE_NAME@ + OG_IMAGE_OPEN@);
    let at_end = after_field(at_image.unwrap(), '"', DOC_CLOSE@);
    if at_url is Some && at_title is Some && at_description is Some && at_og_title is Some
        && at_og_description is Some && at_site_name is Some && at_image is Some
        && at_end == Some(Seq::<char>::empty()) {
        Some(
            PageFields {
                url: refresh_target(text),
                title: up_to(at_title.unwrap(), '<'),
                description: up_to(at_description.unwrap(), '"'),
                og_title: up_to(at_og_title.unwrap(), '"'),
                og_description: up_to(at_og_description.unwrap(), '"'),
                image: up_to(at_image.unwrap(), '"'),
            },
        )
    } else {
        None
    }
}

/// A field that lacks its closing character is read back whole, whatever
/// follows, if what follows starts with that character.
pub proof fn lemma_up_to_field(field: Seq<char>, stop: char, rest: Seq<char>)
    requires
        lacks(field, stop),
        rest.len() > 0,
        rest[0] == stop,
    ensures
        up_to(field + rest, stop) == field,
    decreases field.len(),
{
    if field.len() == 0 {
        assert(field + rest =~= rest);
        assert(up_to(field + rest, stop) =~= field);
    } else {
        assert((field + rest)[0] == field[0]);
        assert((field + rest).drop_first() =~= field.drop_first() + rest);
        assert forall|i: int| 0 <= i < field.drop_first().len() implies #[trigger] field.drop_first()[i]
            != stop by {
            assert(field.drop_first()[i] == field[i + 1]);
        }
        lemma_up_to_field(field.drop_first(), stop, rest);
        assert(seq![field[0]] + field.drop_first() =~= field);
    }
}

/// Reading a fixed text off the front of a text that starts with it leaves
/// what followed.
pub proof fn lemma_after_start(start: Seq<char>, rest: Seq<char>)
    ensures
        after(start + rest, start) == Some(rest),
{
    assert(start.is_prefix_of(start + rest)) by {
        assert((start + rest).subrange(0, start.len() as int) =~= start);
    }
    assert((start + rest).skip(start.len() as int) =~= rest);
}

/// Reading a field and the fixed text behind it leaves what followed them.
pub proof fn lemma_after_field(field: Seq<char>, stop: char, next: Seq<char>, rest: Seq<char>)
    requires
        lacks(field, stop),
        next.len() > 0,
        next[0] == stop,
    ensures
        up_to(field + (next + rest), stop) == field,
        after_field(field + (next + rest), stop, next) == Some(rest),
{
    lemma_up_to_field(field, stop, next + rest);
    lemma_after_start(field, next + rest);
    lemma_after_start(next, rest);
}

/// The fixed pieces of the document start with the character that ends the
/// field before them.
pub proof fn lemma_fixed_text_starts()
    ensures
        TITLE_OPEN@.len() > 0 && TITLE_OPEN@[0] == '"',
        DESCRIPTION_OPEN@.len() > 0 && DESCRIPTION_OPEN@[0] == '<',
        OG_TITLE_OPEN@.len() > 0 && OG_TITLE_OPEN@[0] == '"',
        OG_DESCRIPTION_OPEN@.len() > 0 && OG_DESCRIPTION_OPEN@[0] == '"',
        OG_SITE_NAME_OPEN@.len() > 0 && OG_SITE_NAME_OPEN@[0] == '"',
        DOC_CLOSE@.len() > 0 && DOC_CLOSE@[0] == '"',
{
    reveal_strlit("\" />\n  <title>");
    reveal_strlit("</title>\n  <meta name=\"description\" content=\"");
    reveal_strlit("\">\n  <meta property=\"og:title\" content=\"");
    reveal_strlit("\">\n  <meta property=\"og:description\" content=\"");
    reveal_strlit("\">\n  <meta property=\"og:site_name\" content=\"");
    reveal_strlit("\">\n</head>\n</html>");
}

/// Reading a rendered page gives back what was rendered: the destination, the
/// title and the description in both places, and the thumbnail's address, each
/// exactly. This holds where no field holds the character that ends it in the
/// document: `"` for the destination, the description and the thumbnail, `"`
/// and `<` for the title.
pub proof fn lemma_read_rendered_page(
    url: Seq<char>,
    title: Seq<char>,
    description: Seq<char>,
    thumbnail: Seq<char>,
)
    requires
        lacks(url, '"'),
        lacks(title, '<'),
        lacks(title, '"'),
        lacks(description, '"'),
        lacks(thumbnail, '"'),
    ensures
        read_page(page_text(url, title, description, thumbnail)) == Some(
            PageFields {
                url,
                title,
                description,
                og_title: title,
                og_description: description,
                image: thumbnail,
            },
        ),
{
    lemma_fixed_text_starts();
    let end = Seq::<char>::empty();
    let from_image = thumbnail + (DOC_CLOSE@ + end);
    let from_site_name = (SITE_NAME@ + OG_IMAGE_OPEN@) + from_image;
    let from_og_description = description + (OG_SITE_NAME_OPEN@ + from_site_name);
    let from_og_title = title + (OG_DESCRIPTION_OPEN@ + from_og_description);
    let from_description = description + (OG_TITLE_OPEN@ + from_og_title);
    let from_title = title + (DESCRIPTION_OPEN@ + from_description);
    let from_url = url + (TITLE_OPEN@ + from_title);
    let text = page_text(url, title, description, thumbnail);
    assert(text =~= DOC_OPEN@ + from_url);
    lemma_after_start(DOC_OPEN@, from_url);
    lemma_after_field(url, '"', TITLE_OPEN@, from_title);
    lemma_after_field(title, '<', DESCRIPTION_OPEN@, from_description);
    lemma_after_field(description, '"', OG_TITLE_OPEN@, from_og_title);
    lemma_after_field(title, '"', OG_DESCRIPTION_OPEN@, from_og_description);
    lemma_after_field(description, '"', OG_SITE_NAME_OPEN@, from_site_name);
    lemma_after_start(SITE_NAME@ + OG_IMAGE_OPEN@, from_image);
    lemma_after_field(thumbnail, '"', DOC_CLOSE@, end);
}

/// The page forwards to the destination it was rendered with, whatever the
/// other fields hold, provided the destination holds no `"`.
pub proof fn lemma_refresh_target_of_rendered(
    url: Seq<char>,
    title: Seq<char>,
    description: Seq<char>,
    thumbnail: Seq<char>,
)
    requires
        lacks(url, '"'),
    ensures
        refresh_target(page_text(url, title, description, thumbnail)) == url,
{
    lemma_fixed_text_starts();
    let rest = title + DESCRIPTION_OPEN@ + description + OG_TITLE_OPEN@ + title
        + OG_DESCRIPTION_OPEN@ + description + OG_SITE_NAME_OPEN@ + SITE_NAME@ + OG_IMAGE_OPEN@
        + thumbnail + DOC_CLOSE@;
    let text = page_text(url, title, description, thumbnail);
    assert(text =~= DOC_OPEN@ + (url + (TITLE_OPEN@ + rest)));
    lemma_after_start(DOC_OPEN@, url + (TITLE_OPEN@ + rest));
    lemma_after_field(url, '"', TITLE_OPEN@, rest);
}

/// A text without markup characters holds neither `<` nor `"`.
pub proof fn lemma_markup_free_lacks(s: Seq<char>)
    requires
        markup_free(s),
    ensures
        lacks(s, '<'),
        lacks(s, '"'),
{
    assert forall|i: int| 0 <= i < s.len() implies #[trigger] s[i] != '<' && s[i] != '"' by {
        assert(!is_markup_char(s[i]));
    }
}

/// The embed page of a thing that was fetched reads back as the destination,
/// the escaped title and description, and the image's address as it was
/// given, whatever the title and the description hold. The destination and the
/// image's address stand unescaped, so this holds where neither holds a `"`.
pub proof fn lemma_read_embed_page(
    destination: Seq<char>,
    title: Seq<char>,
    description: Seq<char>,
    image: Seq<char>,
)
    requires
        lacks(destination, '"'),
        lacks(image, '"'),
    ensures
        read_page(embed_text(destination, Some((title, description, image)))) == Some(
            PageFields {
                url: destination,
                title: escape_safe(title),
                description: escape_safe(description),
                og_title: escape_safe(title),
                og_description: escape_safe(description),
                image,
            },
        ),
        markup_free(escape_safe(title)),
        markup_free(escape_safe(description)),
{
    lemma_escaped_is_markup_free(title);
    lemma_escaped_is_markup_free(description);
    lemma_markup_free_lacks(escape_safe(title));
    lemma_markup_free_lacks(escape_safe(description));
    lemma_read_rendered_page(destination, escape_safe(title), escape_safe(description), image);
}

/// The embed page of a thing that could not be fetched reads back as the
/// destination and nothing else: title, description and image are empty.
pub proof fn lemma_read_embed_page_unfetched(destination: Seq<char>)
    requires
        lacks(destination, '"'),
    ensures
        read_page(embed_text(destination, None)) == Some(
            PageFields {
                url: destination,
                title: Seq::empty(),
                description: Seq::empty(),
                og_title: Seq::empty(),
                og_description: Seq::empty(),
                image: Seq::empty(),
            },
        ),
{
    lemma_read_rendered_page(destination, Seq::empty(), Seq::empty(), Seq::empty());
}

/// The destination of an embed page does not depend on what was fetched, nor
/// on whether anything was: it reads back as given, provided it holds no `"`.
pub proof fn lemma_refresh_target_of_embed(
    destination: Seq<char>,
    fetched: Option<(Seq<char>, Seq<char>, Seq<char>)>,
)
    requires
        lacks(destination, '"'),
    ensures
        refresh_target(embed_text(destination, fetched)) == destination,
{
    match fetched {
        Some((title, description, image)) => {
            lemma_refresh_target_of_rendered(
                destination,
                escape_safe(title),
                escape_safe(description),
                image,
            );
        },
        None => {
            lemma_refresh_target_of_rendered(
                destination,
                Seq::empty(),
                Seq::empty(),
                Seq::empty(),
            );
        },
    }
}

} // verus!
