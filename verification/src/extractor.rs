//! The title and the description of an HTML document.
//!
//! Parsing and selector matching are `scraper`'s. The rules on what it finds
//! are stated and proved here: the first match wins, a title is the text of its
//! element with the markup left out, a description is the `content` attribute,
//! and whatever is missing is the empty string.

use vstd::prelude::*;
use vstd::string::*;
use vstd::utf8::*;

verus! {

/// The selector of the title rule.
pub const TITLE_SELECTOR: &'static str = "title";

/// The selector of the description rule.
pub const DESCRIPTION_SELECTOR: &'static str = "meta[name=\"description\"]";

/// The attribute that holds a description.
pub const CONTENT_ATTRIBUTE: &'static str = "content";

/// The longest document, in bytes, that is handed to the parser. The parser
/// may write three bytes for one byte that it reads, and it joins text in
/// buffers that grow to the next power of two: past 2^31 bytes that step
/// overflows, and where `usize` has 32 bits a buffer of 2^31 bytes cannot be
/// had either. Three times the limit stays within 2^30.
pub const PARSE_LIMIT: usize = 357_913_941;

/// The metadata of one page. A field is empty where the page has no such
/// metadata.
#[derive(Debug, PartialEq, Eq)]
pub struct ExtractionResult {
    pub title: String,
    pub description: String,
}

/// An `ExtractionResult` as two character sequences.
pub struct ExtractionView {
    pub title: Seq<char>,
    pub description: Seq<char>,
}

impl View for ExtractionResult {
    type V = ExtractionView;

    open spec fn view(&self) -> ExtractionView {
        ExtractionView { title: self.title@, description: self.description@ }
    }
}

/// The metadata of a page that has none.
pub open spec fn no_metadata() -> ExtractionView {
    ExtractionView { title: Seq::empty(), description: Seq::empty() }
}

impl ExtractionResult {
    /// The result with both fields empty.
    pub fn empty() -> (result: ExtractionResult)
        ensures
            result@ == no_metadata(),
    {
        ExtractionResult { title: String::new(), description: String::new() }
    }
}

/// Whether the document `html` is short enough to be parsed: its UTF-8
/// encoding has at most `PARSE_LIMIT` bytes.
pub open spec fn parsable(html: Seq<char>) -> bool {
    encode_utf8(html).len() <= PARSE_LIMIT
}

/// What `scraper` finds for `selector` in the document parsed from `html`: for
/// each matching element, in the order in which `Html::select` yields them, the
/// descendant text nodes of the element in the order of `ElementRef::text`.
/// `None` where `Selector::parse` refuses `selector`.
pub uninterp spec fn selected_text(html: Seq<char>, selector: Seq<char>) -> Option<
    Seq<Seq<Seq<char>>>,
>;

/// What `scraper` finds for `selector` in the document parsed from `html`: for
/// each matching element, in the order in which `Html::select` yields them, the
/// value that `ElementRef::attr` gives for the attribute `name`. `None` where
/// `Selector::parse` refuses `selector`.
pub uninterp spec fn selected_attr(html: Seq<char>, selector: Seq<char>, name: Seq<char>) -> Option<
    Seq<Option<Seq<char>>>,
>;

/// Parses `html` once with `scraper::Html::parse_document` and each of the two
/// selectors with `scraper::Selector::parse`, runs `Html::select` for each, and
/// hands out the text nodes that `ElementRef::text` yields for the matches of
/// the first and what `ElementRef::attr` gives for `name` on the matches of the
/// second. Trusted: that each half of the outcome depends on its strings alone.
/// A document beyond `PARSE_LIMIT` is left out: the parser panics where text
/// outgrows its buffers. Selectors other than the two of the rules are left
/// out: matching recurses once for each combinator, and these two have none.
#[verifier::external_body]
fn select(html: &str, text_selector: &str, attr_selector: &str, name: &str) -> (found: (
    Option<Vec<Vec<String>>>,
    Option<Vec<Option<String>>>,
))
    requires
        html.spec_bytes().len() <= PARSE_LIMIT,
        text_selector@ == TITLE_SELECTOR@,
        attr_selector@ == DESCRIPTION_SELECTOR@,
    ensures
        found.0.deep_view() == selected_text(html@, text_selector@),
        found.1.deep_view() == selected_attr(html@, attr_selector@, name@),
{
    let document = scraper::Html::parse_document(html);
    let texts = scraper::Selector::parse(text_selector).ok().map(
        |selector| document.select(&selector).map(
            |element| element.text().map(|piece| piece.to_string()).collect(),
        ).collect(),
    );
    let values = scraper::Selector::parse(attr_selector).ok().map(
        |selector| document.select(&selector).map(
            |element| element.attr(name).map(|value| value.to_string()),
        ).collect(),
    );
    (texts, values)
}

/// The title that the matches of the title selector give: the text of the
/// first, its text nodes joined; empty where there is none.
pub open spec fn title_of(found: Option<Seq<Seq<Seq<char>>>>) -> Seq<char> {
    match found {
        Some(elements) => if elements.len() > 0 {
            elements[0].flatten()
        } else {
            Seq::empty()
        },
        None => Seq::empty(),
    }
}

/// The description that the matches of the description selector give: the
/// `content` of the first; empty where there is no match or the first has no
/// such attribute.
pub open spec fn description_of(found: Option<Seq<Option<Seq<char>>>>) -> Seq<char> {
    match found {
        Some(values) => if values.len() > 0 {
            match values[0] {
                Some(content) => content,
                None => Seq::empty(),
            }
        } else {
            Seq::empty()
        },
        None => Seq::empty(),
    }
}

/// The metadata of the document `html`: what the two rules give, and none
/// where the document is too long to be parsed.
pub open spec fn extraction(html: Seq<char>) -> ExtractionView {
    if parsable(html) {
        ExtractionView {
            title: title_of(selected_text(html, TITLE_SELECTOR@)),
            description: description_of(
                selected_attr(html, DESCRIPTION_SELECTOR@, CONTENT_ATTRIBUTE@),
            ),
        }
    } else {
        no_metadata()
    }
}

/// Joins the text nodes of one element into its text.
pub fn join_text(pieces: &Vec<String>) -> (text: String)
    ensures
        text@ == pieces.deep_view().flatten(),
{
    let ghost all = pieces.deep_view();
    let mut text = String::new();
    let mut i: usize = 0;
    proof {
        assert(all.take(0) =~= Seq::<Seq<char>>::empty());
    }
    while i < pieces.len()
        invariant
            i <= pieces.len(),
            all == pieces.deep_view(),
            text@ == all.take(i as int).flatten(),
        decreases pieces.len() - i,
    {
        text.append(pieces[i].as_str());
        proof {
            assert(all.take(i + 1) =~= all.take(i as int).push(all[i as int]));
            all.take(i as int).lemma_flatten_push(all[i as int]);
        }
        i = i + 1;
    }
    proof {
        assert(all.take(i as int) =~= all);
    }
    text
}

/// The title among the matches of the title selector.
pub fn title_from(found: &Option<Vec<Vec<String>>>) -> (title: String)
    ensures
        title@ == title_of(found.deep_view()),
{
    match found {
        Some(elements) => {
            if elements.len() > 0 {
                join_text(&elements[0])
            } else {
                String::new()
            }
        },
        None => String::new(),
    }
}

/// The description among the matches of the description selector.
pub fn description_from(found: &Option<Vec<Option<String>>>) -> (description: String)
    ensures
        description@ == description_of(found.deep_view()),
{
    match found {
        Some(values) => {
            if values.len() > 0 {
                match &values[0] {
                    Some(content) => content.clone(),
                    None => String::new(),
                }
            } else {
                String::new()
            }
        },
        None => String::new(),
    }
}

/// Extracts the title and the description of the document `text`. Any text is
/// a document: markup that cannot be made sense of yields empty fields, and so
/// does a document of more than `PARSE_LIMIT` bytes, which is not parsed.
pub fn extract(text: &str) -> (result: ExtractionResult)
    ensures
        result@ == extraction(text@),
{
    if text.as_bytes().len() <= PARSE_LIMIT {
        let (titles, contents) = select(
            text,
            TITLE_SELECTOR,
            DESCRIPTION_SELECTOR,
            CONTENT_ATTRIBUTE,
        );
        ExtractionResult { title: title_from(&titles), description: description_from(&contents) }
    } else {
        ExtractionResult::empty()
    }
}

/// A document that can be parsed and in which exactly one element matches the
/// title selector has that element's text as its title.
pub proof fn law_single_title(html: Seq<char>)
    requires
        parsable(html),
        selected_text(html, TITLE_SELECTOR@) matches Some(elements) && elements.len() == 1,
    ensures
        extraction(html).title == selected_text(html, TITLE_SELECTOR@)->0[0].flatten(),
{
}

/// A document in which no element matches the title selector has the empty
/// title.
pub proof fn law_no_title(html: Seq<char>)
    requires
        selected_text(html, TITLE_SELECTOR@) matches Some(elements) && elements.len() == 0,
    ensures
        extraction(html).title == Seq::<char>::empty(),
{
}

/// Where a document can be parsed and several elements match the title
/// selector, the title is the text of the first.
pub proof fn law_first_title_wins(html: Seq<char>)
    requires
        parsable(html),
        selected_text(html, TITLE_SELECTOR@) matches Some(elements) && elements.len() > 1,
    ensures
        extraction(html).title == selected_text(html, TITLE_SELECTOR@)->0[0].flatten(),
{
}

/// Title elements after the first have no influence: a document `trimmed` in
/// which only the first of them is left, and which is the same otherwise, has
/// the same metadata.
pub proof fn law_later_titles_do_not_count(html: Seq<char>, trimmed: Seq<char>)
    requires
        parsable(html),
        parsable(trimmed),
        selected_text(html, TITLE_SELECTOR@) matches Some(elements) && elements.len() > 1,
        selected_text(trimmed, TITLE_SELECTOR@) == Some(
            seq![selected_text(html, TITLE_SELECTOR@)->0[0]],
        ),
        selected_attr(trimmed, DESCRIPTION_SELECTOR@, CONTENT_ATTRIBUTE@) == selected_attr(
            html,
            DESCRIPTION_SELECTOR@,
            CONTENT_ATTRIBUTE@,
        ),
    ensures
        extraction(html) == extraction(trimmed),
{
}

/// A document that can be parsed and has a match of the description selector
/// has as its description the `content` of the first match, unchanged, and the
/// empty description where that element has no `content`.
pub proof fn law_description(html: Seq<char>)
    requires
        parsable(html),
        selected_attr(html, DESCRIPTION_SELECTOR@, CONTENT_ATTRIBUTE@) matches Some(values)
            && values.len() > 0,
    ensures
        ({
            let first = selected_attr(html, DESCRIPTION_SELECTOR@, CONTENT_ATTRIBUTE@)->0[0];
            &&& first matches Some(content) ==> extraction(html).description == content
            &&& first is None ==> extraction(html).description == Seq::<char>::empty()
        }),
{
}

/// Matches of the description selector after the first have no influence: a
/// document `trimmed` in which only the first of them is left has the same
/// description.
pub proof fn law_later_descriptions_do_not_count(html: Seq<char>, trimmed: Seq<char>)
    requires
        parsable(html),
        parsable(trimmed),
        selected_attr(html, DESCRIPTION_SELECTOR@, CONTENT_ATTRIBUTE@) matches Some(values)
            && values.len() > 0,
        selected_attr(trimmed, DESCRIPTION_SELECTOR@, CONTENT_ATTRIBUTE@) == Some(
            seq![selected_attr(html, DESCRIPTION_SELECTOR@, CONTENT_ATTRIBUTE@)->0[0]],
        ),
    ensures
        extraction(html).description == extraction(trimmed).description,
{
}

/// A document in which no element matches the description selector has the
/// empty description.
pub proof fn law_no_description(html: Seq<char>)
    requires
        selected_attr(html, DESCRIPTION_SELECTOR@, CONTENT_ATTRIBUTE@) matches Some(values)
            && values.len() == 0,
    ensures
        extraction(html).description == Seq::<char>::empty(),
{
}

/// A document that is too long to be parsed has no metadata.
pub proof fn law_too_long_is_empty(html: Seq<char>)
    requires
        !parsable(html),
    ensures
        extraction(html) == no_metadata(),
{
}

} // verus!
