//! Sheet pages: which one resource a sheet page offers for download.
use vstd::prelude::*;

use crate::hierarchy::{CrawlTarget, HierarchyPath, TargetView, BASE_URL};
use crate::markup::{attr_value, elements_view, query_matches, select, Element, ElementView};

verus! {

/// The inline image of a sheet page.
pub const SHEET_IMAGE_QUERY: &'static str = "#sheet-container > a > img";

/// The links of the main content of a sheet page; the first is the download.
pub const CONTENT_LINK_QUERY: &'static str = "#content > a";

/// Why a sheet page yields no asset.
#[derive(Clone, Copy, Debug, PartialEq, Eq, Structural)]
pub enum SheetError {
    /// Neither an inline image nor a content link.
    NoSource,
    /// The inline image has no `src`.
    ImageWithoutSrc,
    /// There is no inline image, and the first content link has no `href`.
    LinkWithoutHref,
}

/// The source of a sheet's asset, given the page's inline images and content
/// links: the first image's `src` if there is an image, else the first
/// link's `href`.
pub open spec fn asset_source_of(images: Seq<ElementView>, links: Seq<ElementView>) -> Result<Seq<char>, SheetError> {
    if images.len() > 0 {
        match attr_value(images[0].2, "src"@) {
            Some(src) => Ok(src),
            None => Err(SheetError::ImageWithoutSrc),
        }
    } else if links.len() > 0 {
        match attr_value(links[0].2, "href"@) {
            Some(href) => Ok(href),
            None => Err(SheetError::LinkWithoutHref),
        }
    } else {
        Err(SheetError::NoSource)
    }
}

/// The asset that a sheet page offers, as a target under the sheet's own
/// place in the catalog.
pub open spec fn asset_target_of(sheet: TargetView, page: Seq<char>) -> Result<TargetView, SheetError> {
    match asset_source_of(query_matches(page, SHEET_IMAGE_QUERY@), query_matches(page, CONTENT_LINK_QUERY@)) {
        Ok(src) => Ok((BASE_URL@ + src, sheet.1)),
        Err(e) => Err(e),
    }
}

/// The source of a sheet's asset, from the page's inline images and its
/// content links, in that order of preference.
pub fn choose_asset_source(images: &Vec<Element>, links: &Vec<Element>) -> (r: Result<String, SheetError>)
    ensures
        r matches Ok(s) ==> asset_source_of(elements_view(images@), elements_view(links@)) == Ok::<Seq<char>, SheetError>(s@),
        r matches Err(e) ==> asset_source_of(elements_view(images@), elements_view(links@)) == Err::<Seq<char>, SheetError>(e),
{
    if images.len() > 0 {
        assert(images@[0]@ == elements_view(images@)[0]);
        match images[0].attr("src") {
            Some(src) => Ok(src),
            None => Err(SheetError::ImageWithoutSrc),
        }
    } else if links.len() > 0 {
        assert(links@[0]@ == elements_view(links@)[0]);
        match links[0].attr("href") {
            Some(href) => Ok(href),
            None => Err(SheetError::LinkWithoutHref),
        }
    } else {
        Err(SheetError::NoSource)
    }
}

/// The asset that the sheet page `page` of `sheet` offers, to be saved
/// under the sheet's names.
pub fn asset_target(sheet: &CrawlTarget, page: &str) -> (r: Result<CrawlTarget, SheetError>)
    ensures
        r matches Ok(t) ==> asset_target_of(sheet@, page@) == Ok::<TargetView, SheetError>(t@),
        r matches Err(e) ==> asset_target_of(sheet@, page@) == Err::<TargetView, SheetError>(e),
{
    let images = select(page, SHEET_IMAGE_QUERY);
    let links = select(page, CONTENT_LINK_QUERY);
    match choose_asset_source(&images, &links) {
        Ok(src) => {
            let mut url = BASE_URL.to_string();
            url.append(src.as_str());
            let c = &sheet.context;
            let context = HierarchyPath::new(
                c.console.as_str(),
                c.game.as_str(),
                c.category.as_str(),
                c.sheet.as_str(),
            );
            Ok(CrawlTarget { url, context })
        },
        Err(e) => Err(e),
    }
}

/// Where a sheet page offers both an inline image and a content link, the
/// image's `src` is the asset's source, never the link's `href`.
pub proof fn lemma_image_before_link(images: Seq<ElementView>, links: Seq<ElementView>)
    requires
        images.len() > 0,
        attr_value(images[0].2, "src"@) is Some,
    ensures
        asset_source_of(images, links) == Ok::<Seq<char>, SheetError>(attr_value(images[0].2, "src"@).unwrap()),
{
}

} // verus!
