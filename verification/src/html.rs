//! Verified HTML readers shared by the static and the browser fetch paths:
//! a character-level scanner for the document's `<title>` element, and the
//! visible-text extractors. The scanner is specified and proved directly;
//! only the DOM walk (scraper) and entity decoding (html-escape) are
//! trusted, each behind one wrapper.

use vstd::prelude::*;
use vstd::string::*;
use crate::text::{
    chars_of, is_match_at, match_at, trimmed, trim_text, collapse_ws, collapse_whitespace,
    cleaned_text, clean_lines, join_space, join_with_space,
};

verus! {

/// The first index at or after `i` holding the character `c`, or the length
/// of the sequence if there is none.
pub open spec fn first_at(s: Seq<char>, i: int, c: char) -> int
    decreases s.len() - i,
{
    if i < 0 || i >= s.len() {
        s.len() as int
    } else if s[i] == c {
        i
    } else {
        first_at(s, i + 1, c)
    }
}

proof fn lemma_first_at_range(s: Seq<char>, i: int, c: char)
    requires
        0 <= i,
    ensures
        first_at(s, i, c) <= s.len(),
        i <= s.len() ==> i <= first_at(s, i, c),
        i > s.len() ==> first_at(s, i, c) == s.len(),
    decreases s.len() - i,
{
    if !(i < 0 || i >= s.len()) && s[i] != c {
        lemma_first_at_range(s, i + 1, c);
    }
}

/// The index of the first character `c` at or after `from`, or the vector's
/// length if `c` does not occur there.
pub fn find_char(v: &Vec<char>, from: usize, c: char) -> (r: usize)
    ensures
        r as int == first_at(v@, from as int, c),
        from <= r <= v.len() || (from > v.len() && r == v.len()),
{
    proof {
        lemma_first_at_range(v@, from as int, c);
    }
    if from >= v.len() {
        return v.len();
    }
    let mut i: usize = from;
    while i < v.len() && v[i] != c
        invariant
            from <= i <= v.len(),
            first_at(v@, from as int, c) == first_at(v@, i as int, c),
        decreases v.len() - i,
    {
        i = i + 1;
    }
    i
}

/// A title element in the regex sense opens at position `i`: the text
/// `<title` followed (after any run of non-`>` characters) by `>`, then a
/// run of non-`<` characters, then the literal `</title>`.
pub open spec fn title_match_at(s: Seq<char>, i: int) -> bool {
    let j = first_at(s, i + 6, '>');
    let k = first_at(s, j + 1, '<');
    &&& is_match_at(s, "<title"@, i)
    &&& j < s.len()
    &&& is_match_at(s, "</title>"@, k)
}

/// The captured title text of a title element opening at `i`: everything
/// between the opening tag's `>` and the next `<`.
pub open spec fn title_capture_at(s: Seq<char>, i: int) -> Seq<char> {
    let j = first_at(s, i + 6, '>');
    let k = first_at(s, j + 1, '<');
    s.subrange(j + 1, k)
}

/// The position of the leftmost title element at or after `i`, or the
/// length of the sequence if there is none.
pub open spec fn first_title_match(s: Seq<char>, i: int) -> int
    decreases s.len() - i,
{
    if i < 0 || i >= s.len() {
        s.len() as int
    } else if title_match_at(s, i) {
        i
    } else {
        first_title_match(s, i + 1)
    }
}

/// The raw captured text of the document's leftmost title element.
pub open spec fn spec_title_capture(s: Seq<char>) -> Option<Seq<char>> {
    let m = first_title_match(s, 0);
    if m < s.len() {
        Some(title_capture_at(s, m))
    } else {
        None
    }
}

/// What html-escape's entity decoding returns for a given text. The decoded
/// form depends on the characters alone.
pub uninterp spec fn decoded_entities(s: Seq<char>) -> Seq<char>;

/// Relies on html_escape::decode_html_entities: decodes exact named and
/// numeric character references ending in `;`, leaving everything else
/// unchanged; the result is a function of the text alone.
#[verifier::external_body]
fn decode_entities(s: &str) -> (r: String)
    ensures
        r@ == decoded_entities(s@),
{
    html_escape::decode_html_entities(s).into_owned()
}

/// The title of a document: the captured text of its leftmost title
/// element, trimmed and entity-decoded; no title, or one that is empty
/// after trimming, counts as absent.
pub open spec fn spec_extract_title(s: Seq<char>) -> Option<Seq<char>> {
    match spec_title_capture(s) {
        Option::None => None,
        Option::Some(cap) => {
            let t = trimmed(cap);
            if t.len() == 0 {
                None
            } else {
                Some(decoded_entities(t))
            }
        },
    }
}

/// Extracts the document's title: the text of the leftmost complete
/// `<title ...> ... </title>` element, trimmed and entity-decoded. A
/// missing, empty or whitespace-only title yields `None`.
pub fn extract_title(html: &str) -> (r: Option<String>)
    ensures
        r.deep_view() == spec_extract_title(html@),
{
    proof {
        reveal_strlit("<title");
        reveal_strlit("</title>");
    }
    let v = chars_of(html);
    let open_tag = chars_of("<title");
    let close_tag = chars_of("</title>");
    let n = v.len();
    let mut i: usize = 0;
    while i < n
        invariant
            n == v.len(),
            v@ == html@,
            open_tag@ == "<title"@,
            close_tag@ == "</title>"@,
            "<title"@.len() == 6,
            "</title>"@.len() == 8,
            i <= n,
            first_title_match(html@, 0) == first_title_match(html@, i as int),
        decreases n - i,
    {
        if match_at(&v, &open_tag, i) {
            let j = find_char(&v, i + 6, '>');
            if j < n {
                let k = find_char(&v, j + 1, '<');
                if match_at(&v, &close_tag, k) {
                    assert(title_match_at(html@, i as int));
                    assert(first_title_match(html@, i as int) == i);
                    let cap = html.substring_char(j + 1, k);
                    assert(cap@ == title_capture_at(html@, i as int));
                    let t = trim_text(cap);
                    if t.as_str().unicode_len() == 0 {
                        assert(trimmed(title_capture_at(html@, i as int)).len() == 0);
                        return None;
                    } else {
                        let d = decode_entities(t.as_str());
                        return Some(d);
                    }
                } else {
                    assert(!title_match_at(html@, i as int));
                }
            } else {
                assert(!title_match_at(html@, i as int));
            }
        } else {
            assert(!title_match_at(html@, i as int));
        }
        i = i + 1;
    }
    assert(first_title_match(html@, 0) == html@.len());
    None
}

/// What scraper's DOM walk returns for a given document: the text nodes
/// under the document's `body` element, in document order, or those of the
/// whole document when it has no `body`. A function of the text alone.
pub uninterp spec fn body_text_nodes_of(html: Seq<char>) -> Seq<Seq<char>>;

/// Relies on scraper's `Html::parse_document`, `select` and
/// `ElementRef::text`: collects the text nodes under the body element, in
/// document order, falling back to the whole document when no body exists.
#[verifier::external_body]
fn body_text_nodes(html: &str) -> (r: Vec<String>)
    ensures
        r.deep_view() == body_text_nodes_of(html@),
{
    let document = scraper::Html::parse_document(html);
    let selector = scraper::Selector::parse("body").unwrap();
    match document.select(&selector).next() {
        Some(body) => body.text().map(|t| t.to_string()).collect(),
        None => document.root_element().text().map(|t| t.to_string()).collect(),
    }
}

/// The visible text of a document, as the fetchers report it: the body's
/// text nodes joined by single spaces, with all whitespace runs collapsed.
pub open spec fn spec_extract_text(html: Seq<char>) -> Seq<char> {
    collapse_ws(join_space(body_text_nodes_of(html)))
}

/// Extracts the visible text of a document: the body's text nodes joined by
/// single spaces, consecutive whitespace collapsed.
pub fn extract_text_content(html: &str) -> (r: String)
    ensures
        r@ == spec_extract_text(html@),
{
    let nodes = body_text_nodes(html);
    let joined = join_with_space(&nodes);
    collapse_whitespace(joined.as_str())
}

/// The visible text of a document, as the parser adapter reports it: the
/// body's text nodes joined by single spaces, then split into lines, each
/// line trimmed, empty lines dropped, and the rest joined by newlines.
pub open spec fn spec_adapter_text(html: Seq<char>) -> Seq<char> {
    cleaned_text(join_space(body_text_nodes_of(html)))
}

/// Extracts the visible text of a document line by line: text nodes joined
/// by spaces, lines trimmed, empty lines dropped.
pub fn extract_text_lines(html: &str) -> (r: String)
    ensures
        r@ == spec_adapter_text(html@),
{
    let nodes = body_text_nodes(html);
    let joined = join_with_space(&nodes);
    clean_lines(joined.as_str())
}

/// What scraper returns for the document's first `title` element: its
/// concatenated text, or nothing when the document has none. A function of
/// the text alone.
pub uninterp spec fn title_node_text_of(html: Seq<char>) -> Option<Seq<char>>;

/// Relies on scraper's `Html::parse_document` and `select`: the
/// concatenated text of the first `title` element, if any.
#[verifier::external_body]
fn title_node_text(html: &str) -> (r: Option<String>)
    ensures
        r.deep_view() == title_node_text_of(html@),
{
    let document = scraper::Html::parse_document(html);
    let selector = scraper::Selector::parse("title").unwrap();
    document.select(&selector).next().map(|e| e.text().collect::<String>())
}

/// The title as the parser adapter reports it: the first title element's
/// text, trimmed, with an empty result counting as absent.
pub open spec fn spec_adapter_title(html: Seq<char>) -> Option<Seq<char>> {
    match title_node_text_of(html) {
        Option::None => None,
        Option::Some(t) => {
            let tr = trimmed(t);
            if tr.len() == 0 {
                None
            } else {
                Some(tr)
            }
        },
    }
}

/// Extracts the title through the DOM: the first `title` element's text,
/// trimmed; empty or whitespace-only titles count as absent.
pub fn extract_title_node(html: &str) -> (r: Option<String>)
    ensures
        r.deep_view() == spec_adapter_title(html@),
{
    match title_node_text(html) {
        Option::None => None,
        Option::Some(t) => {
            let tr = trim_text(t.as_str());
            if tr.as_str().unicode_len() == 0 {
                None
            } else {
                Some(tr)
            }
        },
    }
}

} // verus!
