//! The markup extractor: structural queries over a parsed page, through the
//! `scraper` crate, handed back as plain values.
use vstd::prelude::*;

use crate::text::same_text;

verus! {

/// What the crawler reads of one element: its markup, including its own tag,
/// the markup of its children, and its attributes as (name, value) pairs.
#[derive(Clone, Debug)]
pub struct Element {
    pub html: String,
    pub inner_html: String,
    pub attrs: Vec<(String, String)>,
}

/// The model of an element: (markup, inner markup, attributes).
pub type ElementView = (Seq<char>, Seq<char>, Seq<(Seq<char>, Seq<char>)>);

pub open spec fn attrs_view(a: Seq<(String, String)>) -> Seq<(Seq<char>, Seq<char>)> {
    a.map_values(|p: (String, String)| (p.0@, p.1@))
}

impl View for Element {
    type V = ElementView;

    open spec fn view(&self) -> ElementView {
        (self.html@, self.inner_html@, attrs_view(self.attrs@))
    }
}

pub open spec fn elements_view(v: Seq<Element>) -> Seq<ElementView> {
    v.map_values(|e: Element| e@)
}

/// The elements of the page `document` that the CSS selector `query`
/// matches, in document order (none if `query` is not a valid selector).
pub uninterp spec fn query_matches(document: Seq<char>, query: Seq<char>) -> Seq<ElementView>;

/// The value of the first attribute named `name`, if any.
pub open spec fn attr_value(attrs: Seq<(Seq<char>, Seq<char>)>, name: Seq<char>) -> Option<Seq<char>>
    decreases attrs.len(),
{
    if attrs.len() == 0 {
        None
    } else if attrs[0].0 == name {
        Some(attrs[0].1)
    } else {
        attr_value(attrs.drop_first(), name)
    }
}

/// Relies on `scraper`: `Html::parse_document` parses the page,
/// `Selector::parse` compiles the query (an invalid query matches nothing
/// here), `Html::select` walks the matches in document order, and
/// `ElementRef::html`, `ElementRef::inner_html` and `Element::attrs` give
/// each match's markup and attributes. Parsing, matching and serialising
/// depend on the two strings alone; attributes come sorted by name.
#[verifier::external_body]
pub(crate) fn select(document: &str, query: &str) -> (r: Vec<Element>)
    ensures
        elements_view(r@) == query_matches(document@, query@),
{
    let doc = scraper::Html::parse_document(document);
    let mut r = Vec::new();
    if let Ok(sel) = scraper::Selector::parse(query) {
        for e in doc.select(&sel) {
            let attrs = e.value().attrs().map(|(k, v)| (k.to_string(), v.to_string())).collect();
            r.push(Element { html: e.html(), inner_html: e.inner_html(), attrs });
        }
    }
    r
}

impl Element {
    /// The value of the attribute `name` of this element, if it has one.
    pub fn attr(&self, name: &str) -> (r: Option<String>)
        ensures
            r matches Some(v) ==> attr_value(self@.2, name@) == Some(v@),
            r is None ==> attr_value(self@.2, name@) is None,
    {
        let mut i: usize = 0;
        assert(self@.2.subrange(0, self@.2.len() as int) =~= self@.2);
        while i < self.attrs.len()
            invariant
                i <= self.attrs@.len(),
                attr_value(self@.2, name@) == attr_value(self@.2.subrange(i as int, self@.2.len() as int), name@),
            decreases self.attrs@.len() - i,
        {
            let ghost rest = self@.2.subrange(i as int, self@.2.len() as int);
            assert(rest.drop_first() =~= self@.2.subrange(i + 1, self@.2.len() as int));
            assert(rest[0] == (self.attrs@[i as int].0@, self.attrs@[i as int].1@));
            if same_text(self.attrs[i].0.as_str(), name) {
                return Some(self.attrs[i].1.clone());
            }
            i = i + 1;
        }
        None
    }
}

} // verus!
