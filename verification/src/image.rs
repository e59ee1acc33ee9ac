//! An image as the library stores it: raw bytes plus a mime type.

use vstd::prelude::*;

verus! {

/// Image bytes together with the mime type they should be served under.
#[derive(Clone)]
pub struct Image {
    pub data: Vec<u8>,
    pub mime_type: String,
}

impl Image {
    /// Wrap raw image bytes and their mime type.
    pub fn new(data: Vec<u8>, mime_type: String) -> (r: Self)
        ensures
            r.data == data,
            r.mime_type == mime_type,
    {
        Self { data, mime_type }
    }
}

} // verus!
