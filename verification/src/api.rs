//! Plain data describing one post of an upstream search response.
//!
//! These records carry exactly what the rest of the library reads: numeric
//! dimensions and scores, the rating and file extension that go into the
//! search-map blob, and the image URLs that the unverified fetch layer
//! resolves. Decoding the upstream JSON into these records happens outside
//! the library.

use vstd::prelude::*;

verus! {

/// Vote totals of a post.
pub struct Score {
    pub up: i64,
    pub down: i64,
}

/// The original file of a post.
pub struct File {
    pub width: i64,
    pub height: i64,
    pub ext: String,
    pub size: i64,
    pub md5: String,
    pub url: String,
}

/// The small preview rendition of a post.
pub struct Preview {
    pub width: i64,
    pub height: i64,
    pub url: String,
}

/// The sample rendition of a post, the one served to clients.
pub struct Sample {
    pub has: bool,
    pub height: i64,
    pub width: i64,
    pub url: String,
}

/// One post of an upstream search response.
pub struct Post {
    pub id: u64,
    pub file: File,
    pub preview: Preview,
    pub sample: Sample,
    pub score: Score,
    pub rating: String,
}

} // verus!
