//! Game pages: category titles, sheet groups, and the positional pairing of
//! the two.
use vstd::prelude::*;

use crate::hierarchy::{CrawlTarget, HierarchyPath, TargetView, BASE_URL};
use crate::markup::{attr_value, elements_view, query_matches, select, Element, ElementView};

verus! {

/// The category title elements of a game page; the title is an attribute.
pub const CATEGORY_QUERY: &'static str = "div.sect-name";

/// The sheet-group blocks of a game page.
pub const SHEET_GROUP_QUERY: &'static str = "div.updatesheeticons";

/// The sheet links inside a sheet-group block.
pub const SHEET_LINK_QUERY: &'static str = "a";

/// The name inside a sheet link.
pub const SHEET_NAME_QUERY: &'static str = "span.iconheadertext";

/// A link of a sheet group: a sheet page to crawl, or a link that lacks the
/// name element that every sheet link must hold (its target is kept).
#[derive(Debug)]
pub enum SheetLink {
    Found(CrawlTarget),
    Unnamed(String),
}

impl View for SheetLink {
    type V = Result<TargetView, Seq<char>>;

    open spec fn view(&self) -> Result<TargetView, Seq<char>> {
        match self {
            SheetLink::Found(t) => Ok(t@),
            SheetLink::Unnamed(href) => Err(href@),
        }
    }
}

pub open spec fn links_view(v: Seq<SheetLink>) -> Seq<Result<TargetView, Seq<char>>> {
    v.map_values(|l: SheetLink| l@)
}

/// The title of a category element; empty if it has none.
pub open spec fn title_of(e: ElementView) -> Seq<char> {
    match attr_value(e.2, "title"@) {
        Some(t) => t,
        None => Seq::empty(),
    }
}

pub open spec fn titles_of(cats: Seq<ElementView>) -> Seq<Seq<char>> {
    cats.map_values(|e: ElementView| title_of(e))
}

/// The category that the `i`-th sheet group receives: the `i`-th title, or
/// the empty name once the titles run out.
pub open spec fn paired_category(titles: Seq<Seq<char>>, i: int) -> Seq<char> {
    if i < titles.len() {
        titles[i]
    } else {
        Seq::empty()
    }
}

/// What link `a` of a group of category `category` in game `game` of
/// `console` yields; nothing if it has no target.
pub open spec fn sheet_link_of(
    console: Seq<char>,
    game: Seq<char>,
    category: Seq<char>,
    a: ElementView,
) -> Option<Result<TargetView, Seq<char>>> {
    match attr_value(a.2, "href"@) {
        None => None,
        Some(href) => {
            let names = query_matches(a.0, SHEET_NAME_QUERY@);
            if names.len() > 0 {
                Some(Ok((BASE_URL@ + href, (console, game, category, names[0].1))))
            } else {
                Some(Err(href))
            }
        },
    }
}

/// What the links `anchors` of one group yield, in order.
pub open spec fn group_links_of(
    console: Seq<char>,
    game: Seq<char>,
    category: Seq<char>,
    anchors: Seq<ElementView>,
) -> Seq<Result<TargetView, Seq<char>>>
    decreases anchors.len(),
{
    if anchors.len() == 0 {
        Seq::empty()
    } else {
        let prev = group_links_of(console, game, category, anchors.drop_last());
        match sheet_link_of(console, game, category, anchors.last()) {
            Some(l) => prev.push(l),
            None => prev,
        }
    }
}

/// What the sheet groups `groups` yield, group after group, each with the
/// category that pairing gives it.
pub open spec fn game_links_of(
    console: Seq<char>,
    game: Seq<char>,
    titles: Seq<Seq<char>>,
    groups: Seq<ElementView>,
) -> Seq<Result<TargetView, Seq<char>>>
    decreases groups.len(),
{
    if groups.len() == 0 {
        Seq::empty()
    } else {
        game_links_of(console, game, titles, groups.drop_last()) + group_links_of(
            console,
            game,
            paired_category(titles, groups.len() - 1),
            query_matches(groups.last().0, SHEET_LINK_QUERY@),
        )
    }
}

/// The category name of each of `groups` sheet groups: titles are handed
/// out front to back, one per group, and groups past the last title get the
/// empty name; titles past the last group go unused.
pub fn pair_categories(titles: &Vec<String>, groups: usize) -> (r: Vec<String>)
    ensures
        r@.len() == groups,
        forall|i: int| 0 <= i < groups && i < titles@.len() ==> #[trigger] r@[i]@ == titles@[i]@,
        forall|i: int| titles@.len() <= i < groups ==> #[trigger] r@[i]@ == Seq::<char>::empty(),
{
    let mut r: Vec<String> = Vec::new();
    let mut i: usize = 0;
    while i < groups
        invariant
            i <= groups,
            r@.len() == i,
            forall|j: int| 0 <= j < i && j < titles@.len() ==> #[trigger] r@[j]@ == titles@[j]@,
            forall|j: int| titles@.len() <= j < i ==> #[trigger] r@[j]@ == Seq::<char>::empty(),
        decreases groups - i,
    {
        if i < titles.len() {
            r.push(titles[i].clone());
        } else {
            r.push(String::new());
        }
        i = i + 1;
    }
    r
}

/// The title of a category element; empty if it has none.
pub fn category_title(e: &Element) -> (r: String)
    ensures
        r@ == title_of(e@),
{
    match e.attr("title") {
        Some(t) => t,
        None => String::new(),
    }
}

/// What one link of a sheet group yields; nothing if it has no target.
pub fn sheet_link(console: &str, game: &str, category: &str, anchor: &Element) -> (r: Option<SheetLink>)
    ensures
        r matches Some(l) ==> sheet_link_of(console@, game@, category@, anchor@) == Some(l@),
        r is None ==> sheet_link_of(console@, game@, category@, anchor@) is None,
{
    match anchor.attr("href") {
        None => None,
        Some(href) => {
            let names = select(anchor.html.as_str(), SHEET_NAME_QUERY);
            if names.len() > 0 {
                assert(names@[0]@ == elements_view(names@)[0]);
                let mut url = BASE_URL.to_string();
                url.append(href.as_str());
                let context = HierarchyPath::new(console, game, category, names[0].inner_html.as_str());
                Some(SheetLink::Found(CrawlTarget { url, context }))
            } else {
                Some(SheetLink::Unnamed(href))
            }
        },
    }
}

/// The sheet pages that a game page of `game` of `console` links to, in
/// document order, each under the category paired with its group.
pub fn game_sheets(console: &str, game: &str, page: &str) -> (r: Vec<SheetLink>)
    ensures
        links_view(r@) == game_links_of(
            console@,
            game@,
            titles_of(query_matches(page@, CATEGORY_QUERY@)),
            query_matches(page@, SHEET_GROUP_QUERY@),
        ),
{
    let cats = select(page, CATEGORY_QUERY);
    let ghost cv = elements_view(cats@);
    let mut titles: Vec<String> = Vec::new();
    let mut i: usize = 0;
    while i < cats.len()
        invariant
            i <= cats@.len() == cv.len(),
            cv == elements_view(cats@),
            titles@.len() == i,
            forall|j: int| 0 <= j < i ==> #[trigger] titles@[j]@ == title_of(cv[j]),
        decreases cats@.len() - i,
    {
        titles.push(category_title(&cats[i]));
        i = i + 1;
    }
    let ghost tv = titles_of(cv);
    assert(titles@.map_values(|t: String| t@) =~= tv);
    let groups = select(page, SHEET_GROUP_QUERY);
    let ghost gv = elements_view(groups@);
    let categories = pair_categories(&titles, groups.len());
    let mut r: Vec<SheetLink> = Vec::new();
    let mut g: usize = 0;
    while g < groups.len()
        invariant
            g <= groups@.len() == gv.len() == categories@.len(),
            gv == elements_view(groups@),
            tv.len() == titles@.len(),
            forall|j: int| 0 <= j < gv.len() ==> #[trigger] categories@[j]@ == paired_category(tv, j),
            links_view(r@) == game_links_of(console@, game@, tv, gv.subrange(0, g as int)),
        decreases groups@.len() - g,
    {
        assert(gv.subrange(0, g + 1).drop_last() =~= gv.subrange(0, g as int));
        assert(gv.subrange(0, g + 1).last() == groups@[g as int]@);
        let anchors = select(groups[g].html.as_str(), SHEET_LINK_QUERY);
        let ghost av = elements_view(anchors@);
        let category = categories[g].as_str();
        let ghost before = links_view(r@);
        let mut k: usize = 0;
        while k < anchors.len()
            invariant
                k <= anchors@.len() == av.len(),
                av == elements_view(anchors@),
                links_view(r@) == before + group_links_of(console@, game@, category@, av.subrange(0, k as int)),
            decreases anchors@.len() - k,
        {
            assert(av.subrange(0, k + 1).drop_last() =~= av.subrange(0, k as int));
            assert(av.subrange(0, k + 1).last() == anchors@[k as int]@);
            let ghost prev = r@;
            match sheet_link(console, game, category, &anchors[k]) {
                Some(l) => {
                    r.push(l);
                    assert(links_view(r@) =~= links_view(prev).push(r@.last()@));
                    assert(links_view(r@) =~= before + group_links_of(
                        console@,
                        game@,
                        category@,
                        av.subrange(0, k + 1),
                    ));
                },
                None => {},
            }
            k = k + 1;
        }
        assert(av.subrange(0, av.len() as int) =~= av);
        g = g + 1;
    }
    assert(gv.subrange(0, gv.len() as int) =~= gv);
    r
}

} // verus!
