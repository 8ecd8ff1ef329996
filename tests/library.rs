use sprite_archiver::crawl::{crawl_step, CrawlStep, Level};
use sprite_archiver::game_page::{game_sheets, pair_categories, SheetLink};
use sprite_archiver::hierarchy::{CrawlTarget, HierarchyPath};
use sprite_archiver::index_page::{console_page_urls, index_targets};
use sprite_archiver::markup::Element;
use sprite_archiver::pacing::Pacer;
use sprite_archiver::probe::{probe_grid, probe_outcome, probe_url, ProbeJob, ProbeQueue};
use sprite_archiver::sheet_page::{asset_target, choose_asset_source, SheetError};
use sprite_archiver::text::{after_last_slash_of, last_segment_of, push_decimal, same_text, strip_slashes};

const LISTING: &str = "<html><body><div id=\"content\"><div>one</div><div>two</div><div>three</div>\
<div><a href=\"/nes/smb/\"><span class=\"gameiconheadertext\">Super/Mario</span></a>\
<a href=\"/nes/zelda/\">Zelda</a><a>no target</a></div></div></body></html>";

const GAME: &str = "<html><body>\
<div class=\"sect-name\" title=\"Characters\"></div>\
<div class=\"updatesheeticons\"><a href=\"/nes/smb/sheet/1/\"><span class=\"iconheadertext\">Mario</span></a></div>\
<div class=\"sect-name\" title=\"Backgrounds\"></div>\
<div class=\"updatesheeticons\"><a href=\"/nes/smb/sheet/2/\"><span class=\"iconheadertext\">World 1/1</span></a>\
<a href=\"/nes/smb/sheet/3/\">unnamed</a><a>no target</a></div>\
</body></html>";

const IMAGE_AND_LINK: &str = "<html><body><div id=\"content\">\
<div id=\"sheet-container\"><a href=\"/big/\"><img src=\"/media/sheets/1.png\"></a></div>\
<a href=\"/download/1/\">Download</a></div></body></html>";

const ZIP_ONLY: &str = "<html><body><div id=\"content\"><a href=\"/download/7/\">Download</a></div></body></html>";

fn sheet_target(name: &str) -> CrawlTarget {
    CrawlTarget {
        url: "https://www.spriters-resource.com/nes/smb/sheet/1/".to_string(),
        context: HierarchyPath::new("nes", "smb", "Characters", name),
    }
}

fn found(link: &SheetLink) -> &CrawlTarget {
    match link {
        SheetLink::Found(t) => t,
        SheetLink::Unnamed(h) => panic!("unnamed link {}", h),
    }
}

#[test]
fn strip_slashes_removes_every_slash() {
    assert_eq!(strip_slashes("a/b//c/"), "abc");
    assert_eq!(strip_slashes(""), "");
    assert_eq!(strip_slashes("plain"), "plain");
}

#[test]
fn last_segment_trims_trailing_slashes() {
    assert_eq!(last_segment_of("/nes/smb/"), "smb");
    assert_eq!(last_segment_of("/nes/smb//"), "smb");
    assert_eq!(last_segment_of("smb"), "smb");
    assert_eq!(last_segment_of("///"), "");
}

#[test]
fn extension_is_the_content_subtype() {
    assert_eq!(after_last_slash_of("image/png"), "png");
    assert_eq!(after_last_slash_of("application/zip"), "zip");
    assert_eq!(after_last_slash_of("text"), "text");
}

#[test]
fn decimal_notation() {
    let mut s = String::from("n=");
    push_decimal(&mut s, 0);
    push_decimal(&mut s, 99900);
    assert_eq!(s, "n=099900");
    assert!(same_text("abc", "abc"));
    assert!(!same_text("abc", "abd"));
    assert!(!same_text("abc", "ab"));
}

#[test]
fn destination_path_from_names_and_content_type() {
    let p = HierarchyPath::new("nes", "smb", "Characters", "Mario/Luigi");
    assert_eq!(p.asset_directory(), "assets/nes/smb/Characters");
    assert_eq!(p.destination_path("image/png"), "assets/nes/smb/Characters/MarioLuigi.png");
}

#[test]
fn destination_path_is_deterministic() {
    let a = HierarchyPath::new("snes", "smw", "", "Yoshi");
    let b = HierarchyPath::new("snes", "smw", "", "Yoshi");
    assert_eq!(a.destination_path("image/gif"), b.destination_path("image/gif"));
    assert_eq!(a.destination_path("image/gif"), "assets/snes/smw//Yoshi.gif");
}

#[test]
fn listing_urls_cover_every_letter() {
    let urls = console_page_urls("nes");
    assert_eq!(urls.len(), 27);
    assert_eq!(urls[0], "https://www.spriters-resource.com/nes/0.html");
    assert_eq!(urls[1], "https://www.spriters-resource.com/nes/A.html");
    assert_eq!(urls[26], "https://www.spriters-resource.com/nes/Z.html");
}

#[test]
fn attribute_lookup_takes_the_named_attribute() {
    let e = Element {
        html: "<a class=\"x\" href=\"/y/\"></a>".to_string(),
        inner_html: String::new(),
        attrs: vec![("class".to_string(), "x".to_string()), ("href".to_string(), "/y/".to_string())],
    };
    assert_eq!(e.attr("href"), Some("/y/".to_string()));
    assert_eq!(e.attr("class"), Some("x".to_string()));
    assert_eq!(e.attr("src"), None);
}

#[test]
fn listing_yields_games_with_names_or_fallbacks() {
    let games = index_targets("nes", LISTING);
    assert_eq!(games.len(), 2);
    assert_eq!(games[0].url, "https://www.spriters-resource.com/nes/smb/");
    assert_eq!(games[0].context.console, "nes");
    assert_eq!(games[0].context.game, "SuperMario");
    assert_eq!(games[1].url, "https://www.spriters-resource.com/nes/zelda/");
    assert_eq!(games[1].context.game, "zelda");
    assert_eq!(games[1].context.category, "");
}

#[test]
fn listing_without_the_expected_structure_yields_nothing() {
    assert!(index_targets("nes", "<html><body><a href=\"/x/\">x</a></body></html>").is_empty());
}

#[test]
fn pairing_with_fewer_titles_than_groups() {
    let titles = vec!["A".to_string(), "B".to_string()];
    assert_eq!(pair_categories(&titles, 4), vec!["A", "B", "", ""]);
}

#[test]
fn pairing_with_more_titles_than_groups() {
    let titles = vec!["A".to_string(), "B".to_string(), "C".to_string()];
    assert_eq!(pair_categories(&titles, 2), vec!["A", "B"]);
    assert_eq!(pair_categories(&titles, 0), Vec::<String>::new());
}

#[test]
fn game_page_pairs_groups_with_categories_in_order() {
    let links = game_sheets("nes", "smb", GAME);
    assert_eq!(links.len(), 3);
    let first = found(&links[0]);
    assert_eq!(first.url, "https://www.spriters-resource.com/nes/smb/sheet/1/");
    assert_eq!(first.context.category, "Characters");
    assert_eq!(first.context.sheet, "Mario");
    let second = found(&links[1]);
    assert_eq!(second.context.category, "Backgrounds");
    assert_eq!(second.context.sheet, "World 1/1");
    assert_eq!(second.context.game, "smb");
    match &links[2] {
        SheetLink::Unnamed(h) => assert_eq!(h, "/nes/smb/sheet/3/"),
        SheetLink::Found(_) => panic!("a link without a name was accepted"),
    }
}

#[test]
fn game_page_groups_beyond_titles_get_empty_category() {
    let page = "<div class=\"sect-name\" title=\"Only\"></div>\
<div class=\"updatesheeticons\"><a href=\"/a/\"><span class=\"iconheadertext\">A</span></a></div>\
<div class=\"updatesheeticons\"><a href=\"/b/\"><span class=\"iconheadertext\">B</span></a></div>";
    let links = game_sheets("gb", "g", page);
    assert_eq!(links.len(), 2);
    assert_eq!(found(&links[0]).context.category, "Only");
    assert_eq!(found(&links[1]).context.category, "");
}

#[test]
fn image_is_preferred_over_link() {
    let t = asset_target(&sheet_target("Mario"), IMAGE_AND_LINK).unwrap();
    assert_eq!(t.url, "https://www.spriters-resource.com/media/sheets/1.png");
    assert_eq!(t.context.sheet, "Mario");
    assert_eq!(t.context.category, "Characters");
}

#[test]
fn zip_link_named_by_content_type() {
    let t = asset_target(&sheet_target("Tiles"), ZIP_ONLY).unwrap();
    assert_eq!(t.url, "https://www.spriters-resource.com/download/7/");
    assert_eq!(t.context.destination_path("application/zip"), "assets/nes/smb/Characters/Tiles.zip");
}

#[test]
fn sheet_page_errors() {
    let none = "<html><body><div id=\"content\"><p>nothing</p></div></body></html>";
    assert_eq!(asset_target(&sheet_target("x"), none).unwrap_err(), SheetError::NoSource);
    let img = "<div id=\"sheet-container\"><a><img alt=\"x\"></a></div>";
    assert_eq!(asset_target(&sheet_target("x"), img).unwrap_err(), SheetError::ImageWithoutSrc);
    let link = "<div id=\"content\"><a>Download</a></div>";
    assert_eq!(asset_target(&sheet_target("x"), link).unwrap_err(), SheetError::LinkWithoutHref);
}

#[test]
fn crawl_steps_per_level() {
    let root = CrawlTarget {
        url: "https://www.spriters-resource.com/nes/A.html".to_string(),
        context: HierarchyPath::new("nes", "", "", ""),
    };
    match crawl_step(Level::Listing, &root, Some(LISTING)) {
        CrawlStep::Games(g) => assert_eq!(g.len(), 2),
        other => panic!("unexpected {:?}", other),
    }
    let game = CrawlTarget { url: String::new(), context: HierarchyPath::new("nes", "smb", "", "") };
    match crawl_step(Level::Game, &game, Some(GAME)) {
        CrawlStep::Sheets(s) => assert_eq!(s.len(), 3),
        other => panic!("unexpected {:?}", other),
    }
    assert!(matches!(crawl_step(Level::Sheet, &sheet_target("x"), None), CrawlStep::FetchFailed));
    assert!(matches!(
        crawl_step(Level::Sheet, &sheet_target("x"), Some("<p></p>")),
        CrawlStep::NoAsset(SheetError::NoSource)
    ));
}

#[test]
fn failed_sheet_leaves_siblings_intact() {
    let pages = [Some(IMAGE_AND_LINK), None, Some(ZIP_ONLY)];
    let steps: Vec<CrawlStep> = pages
        .iter()
        .map(|p| crawl_step(Level::Sheet, &sheet_target("s"), *p))
        .collect();
    assert!(matches!(steps[0], CrawlStep::Download(_)));
    assert!(matches!(steps[1], CrawlStep::FetchFailed));
    assert!(matches!(steps[2], CrawlStep::Download(_)));
}

#[test]
fn probe_grid_is_dense_and_distinct() {
    let grid = probe_grid();
    assert_eq!(grid.len(), 100_000);
    assert_eq!(grid[0], ProbeJob { sheet_index: 0, page_index: 0 });
    assert_eq!(grid[1], ProbeJob { sheet_index: 0, page_index: 100 });
    assert_eq!(grid[99_999], ProbeJob { sheet_index: 99, page_index: 99_900 });
    let set: std::collections::HashSet<(u64, u64)> = grid.iter().map(|j| (j.sheet_index, j.page_index)).collect();
    assert_eq!(set.len(), 100_000);
}

#[test]
fn probe_queue_hands_out_each_job_once() {
    let mut q = ProbeQueue::grid();
    let mut seen = std::collections::HashSet::new();
    let mut taken: usize = 0;
    while let Some(job) = q.take() {
        assert!(seen.insert((job.sheet_index, job.page_index)));
        taken += 1;
    }
    assert_eq!(taken, 100_000);
    assert_eq!(q.len(), 0);
    assert!(q.take().is_none());
}

#[test]
fn probe_queue_is_last_in_first_out() {
    let a = ProbeJob { sheet_index: 1, page_index: 0 };
    let b = ProbeJob { sheet_index: 2, page_index: 100 };
    let mut q = ProbeQueue::new(vec![a, b]);
    assert_eq!(q.drain(), vec![b, a]);
    assert_eq!(q.len(), 0);
}

#[test]
fn probe_names_and_outcomes() {
    let job = ProbeJob { sheet_index: 7, page_index: 1200 };
    assert_eq!(probe_url(job), "https://www.spriters-resource.com/resources/sheets/7/1200.png");
    assert_eq!(probe_outcome(job, 200), Some("valid-paths/7-1200".to_string()));
    assert_eq!(probe_outcome(job, 404), None);
    assert_eq!(probe_outcome(job, 500), None);
}

#[test]
fn pacer_spaces_starts() {
    let mut p = Pacer::new(50);
    assert_eq!(p.book(0), 0);
    assert_eq!(p.book(10), 40);
    assert_eq!(p.book(10), 90);
    assert_eq!(p.book(500), 0);
    assert_eq!(p.next_free_ms, 550);
}

#[test]
fn pacer_saturates_at_clock_end() {
    let mut p = Pacer::new(50);
    assert_eq!(p.book(u64::MAX - 10), 0);
    assert_eq!(p.next_free_ms, u64::MAX);
}

fn element_with(name: &str, value: &str) -> Element {
    Element { html: String::new(), inner_html: String::new(), attrs: vec![(name.to_string(), value.to_string())] }
}

#[test]
fn source_priority_from_elements() {
    let images = vec![element_with("src", "/i.png")];
    let links = vec![element_with("href", "/d.zip")];
    assert_eq!(choose_asset_source(&images, &links), Ok("/i.png".to_string()));
    assert_eq!(choose_asset_source(&Vec::new(), &links), Ok("/d.zip".to_string()));
    assert_eq!(choose_asset_source(&Vec::new(), &Vec::new()), Err(SheetError::NoSource));
    let bare = vec![element_with("alt", "x")];
    assert_eq!(choose_asset_source(&bare, &links), Err(SheetError::ImageWithoutSrc));
    assert_eq!(choose_asset_source(&Vec::new(), &bare), Err(SheetError::LinkWithoutHref));
}
