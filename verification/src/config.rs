//! The layout of the engine's state below one base directory.

use vstd::prelude::*;
use vstd::string::*;
use crate::container::ContainerStore;
use crate::image::{ExtractedImageStore, ImageStore};
use crate::text::{joined, join_path};

verus! {

/// Where the three stores live.
#[derive(Debug, Clone, PartialEq, Eq)]
pub struct Config {
    container_store_path: String,
    extracted_image_store_path: String,
    image_store_path: String,
}

impl Config {
    /// The root of the container store.
    pub closed spec fn spec_containers(&self) -> Seq<char> {
        self.container_store_path@
    }

    /// The root of the store of extracted images.
    pub closed spec fn spec_extracted_images(&self) -> Seq<char> {
        self.extracted_image_store_path@
    }

    /// The root of the image store.
    pub closed spec fn spec_images(&self) -> Seq<char> {
        self.image_store_path@
    }

    /// The layout below `base_dir`: `containers`, `extracted_images` and
    /// `images`, each directly under it.
    pub fn new(base_dir: &str) -> (r: Self)
        ensures
            r.spec_containers() == joined(base_dir@, "containers"@),
            r.spec_extracted_images() == joined(base_dir@, "extracted_images"@),
            r.spec_images() == joined(base_dir@, "images"@),
    {
        let container_store_path = join_path(base_dir, "containers");
        let extracted_image_store_path = join_path(base_dir, "extracted_images");
        let image_store_path = join_path(base_dir, "images");
        Config { container_store_path, extracted_image_store_path, image_store_path }
    }

    /// A handle on the image store.
    pub fn image_store(&self) -> (r: ImageStore)
        ensures
            r.spec_path() == self.spec_images(),
    {
        ImageStore::from_directory(self.image_store_path.as_str())
    }

    /// A handle on the store of extracted images.
    pub fn extracted_image_store(&self) -> (r: ExtractedImageStore)
        ensures
            r.spec_path() == self.spec_extracted_images(),
    {
        ExtractedImageStore::from_directory(self.extracted_image_store_path.as_str())
    }

    /// A handle on the container store.
    pub fn container_store(&self) -> (r: ContainerStore)
        ensures
            r.spec_path() == self.spec_containers(),
    {
        ContainerStore::from_directory(self.container_store_path.as_str())
    }
}

} // verus!
