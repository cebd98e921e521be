//! Images, extracted images and the two stores that hold them.
//!
//! An image is a directory named after it that holds one compressed
//! archive; an extracted image is a directory that holds the unpacked tree.
//! The stores compose paths and decide results; whoever calls them looks at
//! the disk and reports what was found.

use vstd::prelude::*;
use vstd::string::*;
use crate::text::{joined, join_path, stem, path_stem, is_named, is_plain_name, stem_of_joined};

verus! {

/// What can go wrong with an image. Each cause is the text of the
/// underlying failure.
#[derive(Debug, Clone, PartialEq, Eq)]
pub enum ImageError {
    /// The image holds no archive that can be opened.
    InvalidImage,
    /// The archive could not be unpacked.
    UnpackError(String),
    /// The image's directory could not be created.
    CannotCreateDirectory(String),
    /// The archive could not be copied into the store.
    CannotImportTarball(String),
    /// The image's directory could not be removed.
    CannotRemoveImage(String),
}

/// The text that an image error is reported with.
pub open spec fn image_error_text(e: ImageError) -> Seq<char> {
    match e {
        ImageError::InvalidImage => "invalid image"@,
        ImageError::UnpackError(cause) => "unable to unpack image: "@ + cause@,
        ImageError::CannotCreateDirectory(cause) => "unable to create directory: "@ + cause@,
        ImageError::CannotImportTarball(cause) => "unable to import tarball: "@ + cause@,
        ImageError::CannotRemoveImage(cause) => "unable to remove image: "@ + cause@,
    }
}

impl ImageError {
    /// A copy of this error.
    pub fn duplicate(&self) -> (r: Self)
        ensures
            r == *self,
    {
        match self {
            ImageError::InvalidImage => ImageError::InvalidImage,
            ImageError::UnpackError(cause) => ImageError::UnpackError(cause.clone()),
            ImageError::CannotCreateDirectory(cause) => ImageError::CannotCreateDirectory(
                cause.clone(),
            ),
            ImageError::CannotImportTarball(cause) => ImageError::CannotImportTarball(
                cause.clone(),
            ),
            ImageError::CannotRemoveImage(cause) => ImageError::CannotRemoveImage(cause.clone()),
        }
    }

    /// The report of this error: its context, then its cause.
    pub fn message(&self) -> (r: String)
        ensures
            r@ == image_error_text(*self),
    {
        match self {
            ImageError::InvalidImage => String::from_str("invalid image"),
            ImageError::UnpackError(cause) => String::from_str("unable to unpack image: ").concat(
                cause.as_str(),
            ),
            ImageError::CannotCreateDirectory(cause) => String::from_str(
                "unable to create directory: ",
            ).concat(cause.as_str()),
            ImageError::CannotImportTarball(cause) => String::from_str(
                "unable to import tarball: ",
            ).concat(cause.as_str()),
            ImageError::CannotRemoveImage(cause) => String::from_str(
                "unable to remove image: ",
            ).concat(cause.as_str()),
        }
    }
}

/// The file that holds an image's archive, inside the image's directory.
pub open spec fn archive_file() -> Seq<char> {
    "image.tar.gz"@
}

/// What was observed when an archive was unpacked.
#[derive(Debug, Clone, PartialEq, Eq)]
pub enum Extraction {
    /// The archive is absent or could not be opened.
    Unopenable,
    /// The archive was opened and could not be unpacked.
    Corrupt(String),
    /// The archive was unpacked to the destination.
    Unpacked,
}

/// What was observed when an archive was brought into the store.
#[derive(Debug, Clone, PartialEq, Eq)]
pub enum Import {
    /// The image's directory could not be created.
    DirectoryFailed(String),
    /// The directory exists and the archive could not be copied into it.
    CopyFailed(String),
    /// The archive stands in the image's directory.
    Imported,
}

/// A handle on an image stored in a directory.
#[derive(Debug, Clone, PartialEq, Eq)]
pub struct Image {
    path: String,
}

impl Image {
    /// The directory of the image.
    pub closed spec fn spec_path(&self) -> Seq<char> {
        self.path@
    }

    /// A handle on the image stored at `path`.
    pub fn new(path: String) -> (r: Self)
        ensures
            r.spec_path() == path@,
    {
        Image { path }
    }

    /// The image's name: the stem of its directory.
    pub fn name(&self) -> (r: String)
        requires
            is_named(self.spec_path()),
        ensures
            r@ == stem(self.spec_path()),
    {
        path_stem(self.path.as_str())
    }

    /// The image's directory.
    pub fn path(&self) -> (r: &str)
        ensures
            r@ == self.spec_path(),
    {
        self.path.as_str()
    }

    /// The path of the image's archive.
    pub fn archive_path(&self) -> (r: String)
        ensures
            r@ == joined(self.spec_path(), archive_file()),
    {
        join_path(self.path.as_str(), "image.tar.gz")
    }

    /// The result of unpacking this image to `dest_path`: the extracted
    /// image there when the archive was unpacked, `InvalidImage` when it
    /// could not be opened, `UnpackError` with the cause when it is corrupt.
    pub fn extract_to(&self, dest_path: &str, outcome: Extraction) -> (r: Result<
        ExtractedImage,
        ImageError,
    >)
        ensures
            match outcome {
                Extraction::Unopenable => r == Err::<ExtractedImage, ImageError>(
                    ImageError::InvalidImage,
                ),
                Extraction::Corrupt(cause) => r == Err::<ExtractedImage, ImageError>(
                    ImageError::UnpackError(cause),
                ),
                Extraction::Unpacked => r matches Ok(extracted) && extracted.spec_path()
                    == dest_path@,
            },
    {
        match outcome {
            Extraction::Unopenable => Err(ImageError::InvalidImage),
            Extraction::Corrupt(cause) => Err(ImageError::UnpackError(cause)),
            Extraction::Unpacked => Ok(ExtractedImage::new(String::from_str(dest_path))),
        }
    }
}

/// What an import under `name` into the store at `root` comes to: the
/// directory of the new image, or the error that the observation calls for.
pub open spec fn import_result(root: Seq<char>, name: Seq<char>, outcome: Import) -> Result<
    Seq<char>,
    ImageError,
> {
    match outcome {
        Import::DirectoryFailed(cause) => Err(ImageError::CannotCreateDirectory(cause)),
        Import::CopyFailed(cause) => Err(ImageError::CannotImportTarball(cause)),
        Import::Imported => Ok(joined(root, name)),
    }
}

/// Whether `r` is the image or the error that `expected` describes.
pub open spec fn image_result_is(r: Result<Image, ImageError>, expected: Result<
    Seq<char>,
    ImageError,
>) -> bool {
    match expected {
        Ok(path) => r matches Ok(image) && image.spec_path() == path,
        Err(e) => r == Err::<Image, ImageError>(e),
    }
}

/// A handle on a directory that stores images.
#[derive(Debug, Clone, PartialEq, Eq)]
pub struct ImageStore {
    images_dir: String,
}

impl ImageStore {
    /// The root directory of the store.
    pub closed spec fn spec_path(&self) -> Seq<char> {
        self.images_dir@
    }

    /// A store rooted at `images_dir`.
    pub fn from_directory(images_dir: &str) -> (r: Self)
        ensures
            r.spec_path() == images_dir@,
    {
        ImageStore { images_dir: String::from_str(images_dir) }
    }

    /// The root directory of the store.
    pub fn path(&self) -> (r: &str)
        ensures
            r@ == self.spec_path(),
    {
        self.images_dir.as_str()
    }

    /// The directory that an image of this name has in the store.
    pub fn image_path(&self, image_name: &str) -> (r: String)
        ensures
            r@ == joined(self.spec_path(), image_name@),
    {
        join_path(self.images_dir.as_str(), image_name)
    }

    /// The images behind the entries of the store's directory, in the
    /// order given. An entry is the path found, or the failure to read it,
    /// which is handed on.
    pub fn images(&self, entries: Vec<Result<String, String>>) -> (r: Vec<Result<Image, String>>)
        ensures
            r@.len() == entries@.len(),
            forall|i: int|
                0 <= i < entries@.len() ==> match #[trigger] entries@[i] {
                    Ok(path) => r@[i] matches Ok(image) && image.spec_path() == path@,
                    Err(cause) => r@[i] == Err::<Image, String>(cause),
                },
    {
        let mut out: Vec<Result<Image, String>> = Vec::new();
        let mut i: usize = 0;
        while i < entries.len()
            invariant
                i <= entries@.len(),
                out@.len() == i,
                forall|j: int|
                    0 <= j < i ==> match #[trigger] entries@[j] {
                        Ok(path) => out@[j] matches Ok(image) && image.spec_path() == path@,
                        Err(cause) => out@[j] == Err::<Image, String>(cause),
                    },
            decreases entries@.len() - i,
        {
            match &entries[i] {
                Ok(path) => out.push(Ok(Image::new(path.clone()))),
                Err(cause) => out.push(Err(cause.clone())),
            }
            i += 1;
        }
        out
    }

    /// A handle on the image of this name: one exactly when its directory
    /// was found to exist. The archive inside is not looked at.
    pub fn get_image(&self, image_name: &str, exists: bool) -> (r: Option<Image>)
        ensures
            r is Some <==> exists,
            r matches Some(image) ==> image.spec_path() == joined(self.spec_path(), image_name@),
    {
        if exists {
            Some(Image::new(self.image_path(image_name)))
        } else {
            None
        }
    }

    /// The result of importing an archive under `name`: the new image, or
    /// `CannotCreateDirectory` or `CannotImportTarball` with the cause.
    pub fn import_image(&self, name: String, outcome: Import) -> (r: Result<Image, ImageError>)
        ensures
            image_result_is(r, import_result(self.spec_path(), name@, outcome)),
    {
        match outcome {
            Import::DirectoryFailed(cause) => Err(ImageError::CannotCreateDirectory(cause)),
            Import::CopyFailed(cause) => Err(ImageError::CannotImportTarball(cause)),
            Import::Imported => Ok(Image::new(self.image_path(name.as_str()))),
        }
    }

    /// The result of duplicating `image` under `name`: that of importing
    /// the archive of `image` under that name.
    pub fn copy_image(&self, name: String, image: &Image, outcome: Import) -> (r: Result<
        Image,
        ImageError,
    >)
        ensures
            image_result_is(r, import_result(self.spec_path(), name@, outcome)),
    {
        self.import_image(name, outcome)
    }

    /// The result of removing an image: success, or `CannotRemoveImage`
    /// with the cause.
    pub fn remove_image(&self, image: Image, removal: Result<(), String>) -> (r: Result<
        (),
        ImageError,
    >)
        ensures
            match removal {
                Ok(_) => r is Ok,
                Err(cause) => r == Err::<(), ImageError>(ImageError::CannotRemoveImage(cause)),
            },
    {
        match removal {
            Ok(_) => Ok(()),
            Err(cause) => Err(ImageError::CannotRemoveImage(cause)),
        }
    }
}

/// An image imported under a plain name is listed under that name: the
/// stem of its directory is the name it was given.
pub proof fn imported_image_keeps_name(root: Seq<char>, name: Seq<char>)
    requires
        is_plain_name(name),
    ensures
        import_result(root, name, Import::Imported) == Ok::<Seq<char>, ImageError>(
            joined(root, name),
        ),
        is_named(joined(root, name)),
        stem(joined(root, name)) == name,
{
    stem_of_joined(root, name);
}

/// A handle on an image unpacked to a directory.
#[derive(Debug, Clone, PartialEq, Eq)]
pub struct ExtractedImage {
    path: String,
}

impl ExtractedImage {
    /// The directory that holds the unpacked tree.
    pub closed spec fn spec_path(&self) -> Seq<char> {
        self.path@
    }

    /// A handle on the tree unpacked at `path`.
    pub fn new(path: String) -> (r: Self)
        ensures
            r.spec_path() == path@,
    {
        ExtractedImage { path }
    }

    /// The name of the image: the stem of its directory.
    pub fn name(&self) -> (r: String)
        requires
            is_named(self.spec_path()),
        ensures
            r@ == stem(self.spec_path()),
    {
        path_stem(self.path.as_str())
    }

    /// The directory that holds the unpacked tree.
    pub fn path(&self) -> (r: &str)
        ensures
            r@ == self.spec_path(),
    {
        self.path.as_str()
    }
}

/// A handle on a directory that stores extracted images. It only looks
/// images up: unpacking an image creates them.
#[derive(Debug, Clone, PartialEq, Eq)]
pub struct ExtractedImageStore {
    images_dir: String,
}

impl ExtractedImageStore {
    /// The root directory of the store.
    pub closed spec fn spec_path(&self) -> Seq<char> {
        self.images_dir@
    }

    /// A store rooted at `images_dir`.
    pub fn from_directory(images_dir: &str) -> (r: Self)
        ensures
            r.spec_path() == images_dir@,
    {
        ExtractedImageStore { images_dir: String::from_str(images_dir) }
    }

    /// The root directory of the store.
    pub fn path(&self) -> (r: &str)
        ensures
            r@ == self.spec_path(),
    {
        self.images_dir.as_str()
    }

    /// The directory that the extracted image of this name has in the store.
    pub fn image_path(&self, image_name: &str) -> (r: String)
        ensures
            r@ == joined(self.spec_path(), image_name@),
    {
        join_path(self.images_dir.as_str(), image_name)
    }

    /// A handle on the extracted image of this name: one exactly when its
    /// directory was found to exist.
    pub fn get_extracted_image(&self, image_name: &str, exists: bool) -> (r: Option<
        ExtractedImage,
    >)
        ensures
            r is Some <==> exists,
            r matches Some(image) ==> image.spec_path() == joined(self.spec_path(), image_name@),
    {
        if exists {
            Some(ExtractedImage::new(self.image_path(image_name)))
        } else {
            None
        }
    }
}

} // verus!
