//! The documents that are served as they are.
//!
//! The store is filled once, before the first request, from bytes that live
//! as long as the process. After that it can only be read.

use vstd::prelude::*;

use crate::response::ContentType;

verus! {

/// One document: its bytes and the media type it is declared as.
#[derive(Clone, Copy, Debug)]
pub struct StaticAsset {
    pub bytes: &'static [u8],
    pub content_type: ContentType,
}

/// The two documents of the site.
#[derive(Clone, Copy, Debug)]
pub struct AssetStore {
    index: &'static [u8],
    about: &'static [u8],
}

/// The contents of an asset store as plain values.
pub struct AssetsView {
    pub index: Seq<u8>,
    pub about: Seq<u8>,
}

impl View for AssetStore {
    type V = AssetsView;

    closed spec fn view(&self) -> AssetsView {
        AssetsView { index: self.index@, about: self.about@ }
    }
}

impl AssetStore {
    /// A store that holds the given front page and about page.
    pub fn new(index: &'static [u8], about: &'static [u8]) -> (store: AssetStore)
        ensures
            store@ == (AssetsView { index: index@, about: about@ }),
    {
        AssetStore { index, about }
    }

    /// The front page, declared as HTML.
    pub fn index(&self) -> (asset: StaticAsset)
        ensures
            asset.bytes@ == self@.index,
            asset.content_type == ContentType::Html,
    {
        StaticAsset { bytes: self.index, content_type: ContentType::Html }
    }

    /// The about page, declared as HTML.
    pub fn about(&self) -> (asset: StaticAsset)
        ensures
            asset.bytes@ == self@.about,
            asset.content_type == ContentType::Html,
    {
        StaticAsset { bytes: self.about, content_type: ContentType::Html }
    }
}

} // verus!
