//! Builds a photo album page from an ordered list of photos: photos are
//! grouped into layout blocks, chapter markers are recognised and parsed,
//! and every block renders to Markdown/HTML.

pub mod album;
pub mod block;
pub mod container;
pub mod input;
pub mod marker;
pub mod markup;
pub mod normalize;
pub mod photo;
pub mod text;
