//! The decisions of the traversal: what to do with the page fetched for one
//! target, at each level of the catalog. Fetching, spawning and joining are
//! left to the caller, which hands each page (or the failure to get it) here.
use vstd::prelude::*;

use crate::game_page::{
    game_links_of, game_sheets, group_links_of, links_view, paired_category, titles_of, SheetLink, CATEGORY_QUERY,
    SHEET_GROUP_QUERY, SHEET_LINK_QUERY,
};
use crate::hierarchy::{targets_view, CrawlTarget, TargetView};
use crate::index_page::{game_links_of as listing_links_of, index_targets, GAME_LINK_QUERY};
use crate::markup::{query_matches, ElementView};
use crate::sheet_page::{asset_target, asset_target_of, SheetError};

verus! {

/// The kind of page a target leads to.
#[derive(Clone, Copy, Debug, PartialEq, Eq, Structural)]
pub enum Level {
    Listing,
    Game,
    Sheet,
}

/// What follows from one fetched page.
#[derive(Debug)]
pub enum CrawlStep {
    /// A listing page: the game pages to crawl next.
    Games(Vec<CrawlTarget>),
    /// A game page: the sheet pages to crawl next, and the links that lack
    /// a sheet name.
    Sheets(Vec<SheetLink>),
    /// A sheet page: the asset to download.
    Download(CrawlTarget),
    /// A sheet page that offers no asset; this branch ends.
    NoAsset(SheetError),
    /// The page could not be fetched; this branch ends.
    FetchFailed,
}

/// The model of a step.
pub enum StepView {
    Games(Seq<TargetView>),
    Sheets(Seq<Result<TargetView, Seq<char>>>),
    Download(TargetView),
    NoAsset(SheetError),
    FetchFailed,
}

impl View for CrawlStep {
    type V = StepView;

    open spec fn view(&self) -> StepView {
        match self {
            CrawlStep::Games(v) => StepView::Games(targets_view(v@)),
            CrawlStep::Sheets(v) => StepView::Sheets(links_view(v@)),
            CrawlStep::Download(t) => StepView::Download(t@),
            CrawlStep::NoAsset(e) => StepView::NoAsset(*e),
            CrawlStep::FetchFailed => StepView::FetchFailed,
        }
    }
}

/// The step that follows from page `page`, fetched for `target` of `level`.
pub open spec fn step_of(level: Level, target: TargetView, page: Seq<char>) -> StepView {
    match level {
        Level::Listing => StepView::Games(listing_links_of(target.1.0, query_matches(page, GAME_LINK_QUERY@))),
        Level::Game => StepView::Sheets(
            game_links_of(
                target.1.0,
                target.1.1,
                titles_of(query_matches(page, CATEGORY_QUERY@)),
                query_matches(page, SHEET_GROUP_QUERY@),
            ),
        ),
        Level::Sheet => match asset_target_of(target, page) {
            Ok(t) => StepView::Download(t),
            Err(e) => StepView::NoAsset(e),
        },
    }
}

/// The step that follows from a fetch of `target`: `None` if it failed.
pub open spec fn fetch_step_of(level: Level, target: TargetView, page: Option<Seq<char>>) -> StepView {
    match page {
        Some(p) => step_of(level, target, p),
        None => StepView::FetchFailed,
    }
}

/// The steps of sibling targets, each from its own fetch.
pub open spec fn sibling_steps_of(
    level: Level,
    targets: Seq<TargetView>,
    pages: Seq<Option<Seq<char>>>,
) -> Seq<StepView> {
    Seq::new(targets.len(), |i: int| fetch_step_of(level, targets[i], pages[i]))
}

/// What follows from fetching `target` of `level`: `page` is the page's
/// text, or `None` if the fetch failed.
pub fn crawl_step(level: Level, target: &CrawlTarget, page: Option<&str>) -> (r: CrawlStep)
    ensures
        page matches Some(p) ==> r@ == step_of(level, target@, p@),
        page is None ==> r@ == StepView::FetchFailed,
{
    match page {
        None => CrawlStep::FetchFailed,
        Some(p) => match level {
            Level::Listing => CrawlStep::Games(index_targets(target.context.console.as_str(), p)),
            Level::Game => CrawlStep::Sheets(
                game_sheets(target.context.console.as_str(), target.context.game.as_str(), p),
            ),
            Level::Sheet => match asset_target(target, p) {
                Ok(t) => CrawlStep::Download(t),
                Err(e) => CrawlStep::NoAsset(e),
            },
        },
    }
}

/// A failed fetch ends only its own branch: among sibling targets, the
/// failure of the `k`-th leaves the step of every other sibling as it was.
pub proof fn lemma_failure_stays_local(
    level: Level,
    targets: Seq<TargetView>,
    pages: Seq<Option<Seq<char>>>,
    k: int,
)
    requires
        targets.len() == pages.len(),
        0 <= k < targets.len(),
    ensures
        sibling_steps_of(level, targets, pages.update(k, None))[k] == StepView::FetchFailed,
        forall|i: int|
            0 <= i < targets.len() && i != k ==> #[trigger] sibling_steps_of(level, targets, pages.update(k, None))[i]
                == sibling_steps_of(level, targets, pages)[i],
{
}

proof fn lemma_listing_keeps_console(console: Seq<char>, anchors: Seq<ElementView>)
    ensures
        forall|i: int|
            0 <= i < listing_links_of(console, anchors).len() ==> (#[trigger] listing_links_of(console, anchors)[i]).1.0
                == console,
    decreases anchors.len(),
{
    if anchors.len() > 0 {
        let prev = listing_links_of(console, anchors.drop_last());
        lemma_listing_keeps_console(console, anchors.drop_last());
        assert forall|i: int| 0 <= i < listing_links_of(console, anchors).len() implies (#[trigger] listing_links_of(
            console,
            anchors,
        )[i]).1.0 == console by {
            if i < prev.len() {
                assert(prev[i].1.0 == console);
            }
        }
    }
}

proof fn lemma_group_keeps_names(
    console: Seq<char>,
    game: Seq<char>,
    category: Seq<char>,
    anchors: Seq<ElementView>,
)
    ensures
        forall|i: int|
            0 <= i < group_links_of(console, game, category, anchors).len() && (#[trigger] group_links_of(
                console,
                game,
                category,
                anchors,
            )[i]) is Ok ==> group_links_of(console, game, category, anchors)[i]->Ok_0.1.0 == console
                && group_links_of(console, game, category, anchors)[i]->Ok_0.1.1 == game
                && group_links_of(console, game, category, anchors)[i]->Ok_0.1.2 == category,
    decreases anchors.len(),
{
    if anchors.len() > 0 {
        lemma_group_keeps_names(console, game, category, anchors.drop_last());
    }
}

proof fn lemma_game_keeps_names(
    console: Seq<char>,
    game: Seq<char>,
    titles: Seq<Seq<char>>,
    groups: Seq<ElementView>,
)
    ensures
        forall|i: int|
            0 <= i < game_links_of(console, game, titles, groups).len() && (#[trigger] game_links_of(
                console,
                game,
                titles,
                groups,
            )[i]) is Ok ==> game_links_of(console, game, titles, groups)[i]->Ok_0.1.0 == console
                && game_links_of(console, game, titles, groups)[i]->Ok_0.1.1 == game,
    decreases groups.len(),
{
    if groups.len() > 0 {
        lemma_game_keeps_names(console, game, titles, groups.drop_last());
        lemma_group_keeps_names(
            console,
            game,
            paired_category(titles, groups.len() - 1),
            query_matches(groups.last().0, SHEET_LINK_QUERY@),
        );
    }
}

/// Descending a level only fills in the new level's name: every game found
/// on a listing keeps the listing's console, every sheet found on a game page
/// keeps its console and game, and an asset keeps all four names of its sheet.
pub proof fn lemma_descent_keeps_ancestors(target: TargetView, page: Seq<char>)
    ensures
        step_of(Level::Listing, target, page) matches StepView::Games(games) ==> forall|i: int|
            0 <= i < games.len() ==> (#[trigger] games[i]).1.0 == target.1.0,
        step_of(Level::Game, target, page) matches StepView::Sheets(links) ==> forall|i: int|
            0 <= i < links.len() && (#[trigger] links[i]) is Ok ==> links[i]->Ok_0.1.0 == target.1.0
                && links[i]->Ok_0.1.1 == target.1.1,
        step_of(Level::Sheet, target, page) matches StepView::Download(asset) ==> asset.1 == target.1,
{
    lemma_listing_keeps_console(target.1.0, query_matches(page, GAME_LINK_QUERY@));
    lemma_game_keeps_names(
        target.1.0,
        target.1.1,
        titles_of(query_matches(page, CATEGORY_QUERY@)),
        query_matches(page, SHEET_GROUP_QUERY@),
    );
}

} // verus!
