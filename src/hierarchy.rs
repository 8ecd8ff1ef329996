//! Hierarchy context carried down the crawl, and the names of the files that
//! the crawl writes.
use vstd::prelude::*;

use crate::text::{after_last_slash, after_last_slash_of, strip_slashes, without_slashes};

verus! {

/// The site that the crawl mirrors; page and asset links are relative to it.
pub const BASE_URL: &'static str = "https://www.spriters-resource.com";

/// The directory under which every asset of the crawl is written.
pub const ASSETS_DIR: &'static str = "assets";

/// The (console, game, category, sheet) names of a place in the catalog.
/// Each level of the crawl fills in its own name and copies its ancestors'.
#[derive(Clone, Debug)]
pub struct HierarchyPath {
    pub console: String,
    pub game: String,
    pub category: String,
    pub sheet: String,
}

pub type PathView = (Seq<char>, Seq<char>, Seq<char>, Seq<char>);

impl View for HierarchyPath {
    type V = PathView;

    open spec fn view(&self) -> PathView {
        (self.console@, self.game@, self.category@, self.sheet@)
    }
}

/// A page or file still to be fetched, and where it sits in the catalog.
#[derive(Clone, Debug)]
pub struct CrawlTarget {
    pub url: String,
    pub context: HierarchyPath,
}

pub type TargetView = (Seq<char>, PathView);

impl View for CrawlTarget {
    type V = TargetView;

    open spec fn view(&self) -> TargetView {
        (self.url@, self.context@)
    }
}

pub open spec fn targets_view(v: Seq<CrawlTarget>) -> Seq<TargetView> {
    v.map_values(|t: CrawlTarget| t@)
}

/// One asset that was written: where it came from, where it went, its size.
#[derive(Clone, Debug)]
pub struct AssetRecord {
    pub source_url: String,
    pub destination_path: String,
    pub bytes_written: u64,
}

/// `assets/{console}/{game}/{category}`.
pub open spec fn asset_directory_of(p: PathView) -> Seq<char> {
    ASSETS_DIR@ + "/"@ + p.0 + "/"@ + p.1 + "/"@ + p.2
}

/// `assets/{console}/{game}/{category}/{sheet}.{ext}`, where the sheet name
/// loses its slashes and the extension is the subtype of the content type.
pub open spec fn destination_of(p: PathView, content_type: Seq<char>) -> Seq<char> {
    asset_directory_of(p) + "/"@ + without_slashes(p.3) + "."@ + after_last_slash(content_type)
}

impl HierarchyPath {
    pub fn new(console: &str, game: &str, category: &str, sheet: &str) -> (r: HierarchyPath)
        ensures
            r@ == (console@, game@, category@, sheet@),
    {
        HierarchyPath {
            console: console.to_string(),
            game: game.to_string(),
            category: category.to_string(),
            sheet: sheet.to_string(),
        }
    }

    /// The directory that receives the assets of this path's category.
    pub fn asset_directory(&self) -> (r: String)
        ensures
            r@ == asset_directory_of(self@),
    {
        let mut r = String::new();
        r.append(ASSETS_DIR);
        r.append("/");
        r.append(self.console.as_str());
        r.append("/");
        r.append(self.game.as_str());
        r.append("/");
        r.append(self.category.as_str());
        r
    }

    /// The file that receives this sheet's asset, served with `content_type`.
    pub fn destination_path(&self, content_type: &str) -> (r: String)
        ensures
            r@ == destination_of(self@, content_type@),
    {
        let mut r = self.asset_directory();
        r.append("/");
        let name = strip_slashes(self.sheet.as_str());
        r.append(name.as_str());
        r.append(".");
        r.append(after_last_slash_of(content_type));
        r
    }
}

/// A file's name is fixed by the four names of its place and the content
/// type it is served with: two sheets that agree on these are written to
/// the same file, whatever order or run they were fetched in.
pub proof fn lemma_destination_is_function_of_names(
    a: PathView,
    b: PathView,
    type_a: Seq<char>,
    type_b: Seq<char>,
)
    requires
        a == b,
        type_a == type_b,
    ensures
        destination_of(a, type_a) == destination_of(b, type_b),
        asset_directory_of(a) == asset_directory_of(b),
{
}

} // verus!
