//! Mirrors a catalog of sprite sheets: the link and metadata parsing of its
//! pages, the pairing of categories with sheet groups, the naming of the files
//! it writes, the decisions of the traversal, the pacing of downloads, and
//! the job queue of the probe mode.
pub mod crawl;
pub mod game_page;
pub mod hierarchy;
pub mod index_page;
pub mod markup;
pub mod pacing;
pub mod probe;
pub mod sheet_page;
pub mod text;
