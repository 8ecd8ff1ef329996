//! Listing pages: the letter pages of a console, and the game links on each.
use vstd::prelude::*;

use crate::hierarchy::{targets_view, CrawlTarget, HierarchyPath, PathView, TargetView, BASE_URL};
use crate::markup::{attr_value, elements_view, query_matches, select, Element, ElementView};
use crate::text::{last_segment, last_segment_of, strip_slashes, without_slashes};

verus! {

/// The first characters of the listing pages of a console, in crawl order.
pub const PAGE_LETTERS: &'static str = "0ABCDEFGHIJKLMNOPQRSTUVWXYZ";

/// The game links of a listing page.
pub const GAME_LINK_QUERY: &'static str = "#content > div:nth-child(4) a";

/// The display name inside a game link.
pub const GAME_NAME_QUERY: &'static str = "span.gameiconheadertext";

/// `{base}/{console}/{letter}.html` for the `i`-th letter.
pub open spec fn listing_url(console: Seq<char>, i: int) -> Seq<char> {
    BASE_URL@ + "/"@ + console + "/"@ + seq![PAGE_LETTERS@[i]] + ".html"@
}

/// The name of the game that link `a` (with link target `href`) leads to:
/// its display name without slashes, or else the last segment of `href`.
pub open spec fn game_name_of(a: ElementView, href: Seq<char>) -> Seq<char> {
    let names = query_matches(a.0, GAME_NAME_QUERY@);
    if names.len() > 0 {
        without_slashes(names[0].1)
    } else {
        last_segment(href)
    }
}

/// The game page that link `a` of a listing of `console` leads to; none if
/// the link has no target.
pub open spec fn game_link_of(console: Seq<char>, a: ElementView) -> Option<TargetView> {
    match attr_value(a.2, "href"@) {
        Some(href) => Some(
            (BASE_URL@ + href, (console, game_name_of(a, href), Seq::<char>::empty(), Seq::<char>::empty())),
        ),
        None => None,
    }
}

/// The game pages that the links `anchors` lead to, in order.
pub open spec fn game_links_of(console: Seq<char>, anchors: Seq<ElementView>) -> Seq<TargetView>
    decreases anchors.len(),
{
    if anchors.len() == 0 {
        Seq::empty()
    } else {
        let prev = game_links_of(console, anchors.drop_last());
        match game_link_of(console, anchors.last()) {
            Some(t) => prev.push(t),
            None => prev,
        }
    }
}

/// The URLs of the listing pages of `console`, one per letter, in order.
pub fn console_page_urls(console: &str) -> (r: Vec<String>)
    ensures
        r@.len() == 27,
        forall|i: int| 0 <= i < 27 ==> #[trigger] r@[i]@ == listing_url(console@, i),
{
    proof {
        reveal_strlit("0ABCDEFGHIJKLMNOPQRSTUVWXYZ");
    }
    let n = PAGE_LETTERS.unicode_len();
    let mut r: Vec<String> = Vec::new();
    let mut i: usize = 0;
    while i < n
        invariant
            i <= n == PAGE_LETTERS@.len() == 27,
            r@.len() == i,
            forall|j: int| 0 <= j < i ==> #[trigger] r@[j]@ == listing_url(console@, j),
        decreases n - i,
    {
        let mut url = BASE_URL.to_string();
        url.append("/");
        url.append(console);
        url.append("/");
        url.append(PAGE_LETTERS.substring_char(i, i + 1));
        url.append(".html");
        assert(PAGE_LETTERS@.subrange(i as int, i + 1) =~= seq![PAGE_LETTERS@[i as int]]);
        assert(url@ =~= listing_url(console@, i as int));
        r.push(url);
        i = i + 1;
    }
    r
}

/// The game page that a link of a listing of `console` leads to, named by
/// the link's display name or, lacking one, by its target.
pub fn game_link(console: &str, anchor: &Element) -> (r: Option<CrawlTarget>)
    ensures
        r matches Some(t) ==> game_link_of(console@, anchor@) == Some(t@),
        r is None ==> game_link_of(console@, anchor@) is None,
{
    match anchor.attr("href") {
        None => None,
        Some(href) => {
            let names = select(anchor.html.as_str(), GAME_NAME_QUERY);
            let game = if names.len() > 0 {
                assert(names@[0]@ == elements_view(names@)[0]);
                strip_slashes(names[0].inner_html.as_str())
            } else {
                last_segment_of(href.as_str()).to_string()
            };
            let mut url = BASE_URL.to_string();
            url.append(href.as_str());
            proof {
                reveal_strlit("");
            }
            Some(CrawlTarget { url, context: HierarchyPath::new(console, game.as_str(), "", "") })
        },
    }
}

/// The game pages that a listing page of `console` links to, in document
/// order; links without a target are skipped.
pub fn index_targets(console: &str, page: &str) -> (r: Vec<CrawlTarget>)
    ensures
        targets_view(r@) == game_links_of(console@, query_matches(page@, GAME_LINK_QUERY@)),
{
    let anchors = select(page, GAME_LINK_QUERY);
    let ghost av = elements_view(anchors@);
    let mut r: Vec<CrawlTarget> = Vec::new();
    let mut i: usize = 0;
    while i < anchors.len()
        invariant
            i <= anchors@.len() == av.len(),
            av == elements_view(anchors@),
            targets_view(r@) == game_links_of(console@, av.subrange(0, i as int)),
        decreases anchors@.len() - i,
    {
        assert(av.subrange(0, i + 1).drop_last() =~= av.subrange(0, i as int));
        assert(av.subrange(0, i + 1).last() == anchors@[i as int]@);
        match game_link(console, &anchors[i]) {
            Some(t) => {
                r.push(t);
                assert(targets_view(r@) =~= game_links_of(console@, av.subrange(0, i + 1)));
            },
            None => {},
        }
        i = i + 1;
    }
    assert(av.subrange(0, av.len() as int) =~= av);
    r
}

} // verus!
