//! Escaping of text that is placed into markup.
use vstd::prelude::*;

verus! {

/// What stands in the markup in place of one character: an entity for each of
/// `&`, `<`, `>`, `"`, `'` and `/`, and the character itself otherwise.
pub open spec fn escape_char(c: char) -> Seq<char> {
    if c == '&' {
        seq!['&', 'a', 'm', 'p', ';']
    } else if c == '<' {
        seq!['&', 'l', 't', ';']
    } else if c == '>' {
        seq!['&', 'g', 't', ';']
    } else if c == '"' {
        seq!['&', 'q', 'u', 'o', 't', ';']
    } else if c == '\'' {
        seq!['&', '#', 'x', '2', '7', ';']
    } else if c == '/' {
        seq!['&', '#', 'x', '2', 'F', ';']
    } else {
        seq![c]
    }
}

/// The escaped form of a text: the escaped forms of its characters, in order.
pub open spec fn escape_safe(s: Seq<char>) -> Seq<char>
    decreases s.len(),
{
    if s.len() == 0 {
        Seq::empty()
    } else {
        escape_char(s[0]) + escape_safe(s.drop_first())
    }
}

/// Whether a character is one that would open or close a tag or an attribute
/// value if it stood in the markup as it is.
pub open spec fn is_markup_char(c: char) -> bool {
    c == '<' || c == '>' || c == '"' || c == '\'' || c == '/'
}

/// Whether none of the characters of a text is a markup character.
pub open spec fn markup_free(s: Seq<char>) -> bool {
    forall|i: int| 0 <= i < s.len() ==> !is_markup_char(#[trigger] s[i])
}

/// Escapes a text with `html_escape::encode_safe`.
///
/// The outside function walks the text and replaces each of the six characters
/// `&`, `<`, `>`, `"`, `'`, `/` by its entity, leaving every other character as
/// it is. The contract claims exactly that and is not proved here.
#[verifier::external_body]
pub(crate) fn encode_safe(text: &str) -> (escaped: String)
    ensures
        escaped@ == escape_safe(text@),
{
    html_escape::encode_safe(text).into_owned()
}

/// An escaped text holds no markup character: wherever the text had one, the
/// escaped form has an entity, never the character itself.
pub proof fn lemma_escaped_is_markup_free(s: Seq<char>)
    ensures
        markup_free(escape_safe(s)),
    decreases s.len(),
{
    if s.len() > 0 {
        lemma_escaped_is_markup_free(s.drop_first());
        let head = escape_char(s[0]);
        let tail = escape_safe(s.drop_first());
        assert forall|i: int| 0 <= i < (head + tail).len() implies !is_markup_char(
            #[trigger] (head + tail)[i],
        ) by {
            if i >= head.len() {
                assert((head + tail)[i] == tail[i - head.len()]);
            }
        }
    }
}

/// Whether a piece stands in a text at a position.
pub open spec fn stands_at(s: Seq<char>, i: int, piece: Seq<char>) -> bool {
    0 <= i && i + piece.len() <= s.len() && s.subrange(i, i + piece.len()) == piece
}

/// Whether one of the six entities stands in a text at a position.
pub open spec fn entity_at(s: Seq<char>, i: int) -> bool {
    stands_at(s, i, escape_char('&')) || stands_at(s, i, escape_char('<')) || stands_at(
        s,
        i,
        escape_char('>'),
    ) || stands_at(s, i, escape_char('"')) || stands_at(s, i, escape_char('\'')) || stands_at(
        s,
        i,
        escape_char('/'),
    )
}

/// Whether every `&` of a text opens one of the six entities.
pub open spec fn ampersands_open_entities(s: Seq<char>) -> bool {
    forall|i: int| 0 <= i < s.len() && #[trigger] s[i] == '&' ==> entity_at(s, i)
}

/// A piece that stands in a text stands in it still, further back by the
/// length of what is put before the text.
proof fn lemma_stands_at_shifted(head: Seq<char>, tail: Seq<char>, i: int, piece: Seq<char>)
    requires
        stands_at(tail, i, piece),
    ensures
        stands_at(head + tail, head.len() + i, piece),
{
    assert((head + tail).subrange(head.len() + i, head.len() + i + piece.len()) =~= tail.subrange(
        i,
        i + piece.len(),
    ));
}

/// In an escaped text every `&` opens an entity: an `&` of the text itself
/// has become `&amp;`, and no other `&` is put in but at the start of an
/// entity.
pub proof fn lemma_escaped_ampersands_open_entities(s: Seq<char>)
    ensures
        ampersands_open_entities(escape_safe(s)),
    decreases s.len(),
{
    if s.len() > 0 {
        lemma_escaped_ampersands_open_entities(s.drop_first());
        let head = escape_char(s[0]);
        let tail = escape_safe(s.drop_first());
        let whole = head + tail;
        assert forall|i: int| 0 <= i < whole.len() && #[trigger] whole[i] == '&' implies entity_at(
            whole,
            i,
        ) by {
            if i < head.len() {
                assert(whole[i] == head[i]);
                assert(i == 0);
                assert(whole.subrange(0, head.len() as int) =~= head);
                assert(stands_at(whole, 0, head));
            } else {
                let j = i - head.len();
                assert(whole[i] == tail[j]);
                assert(entity_at(tail, j));
                if stands_at(tail, j, escape_char('&')) {
                    lemma_stands_at_shifted(head, tail, j, escape_char('&'));
                } else if stands_at(tail, j, escape_char('<')) {
                    lemma_stands_at_shifted(head, tail, j, escape_char('<'));
                } else if stands_at(tail, j, escape_char('>')) {
                    lemma_stands_at_shifted(head, tail, j, escape_char('>'));
                } else if stands_at(tail, j, escape_char('"')) {
                    lemma_stands_at_shifted(head, tail, j, escape_char('"'));
                } else if stands_at(tail, j, escape_char('\'')) {
                    lemma_stands_at_shifted(head, tail, j, escape_char('\''));
                } else {
                    lemma_stands_at_shifted(head, tail, j, escape_char('/'));
                }
            }
        }
    }
}

} // verus!
