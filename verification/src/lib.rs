//! Verified core of an image-slideshow metadata tool: a directory walker,
//! a multi-source creation-date resolver, a content-addressed disk cache
//! for resolved metadata, and a bounded-concurrency execution model.
//!
//! All filesystem, EXIF and decoding work happens outside this crate; the
//! library holds the decisions: which files count as images, which
//! timestamp candidate wins, how cache entries are named, framed and read
//! back, and how many resolutions may be in flight at once.

pub mod cachekey;
pub mod codec;
pub mod errors;
pub mod exif;
pub mod meta;
pub mod pipeline;
pub mod playlist;
pub mod resolve;
pub mod time;
pub mod walk;
