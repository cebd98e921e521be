use jocker::config::Config;
use jocker::image::{ExtractedImage, ExtractedImageStore, Extraction, Image, ImageError, ImageStore, Import};

#[test]
fn config_lays_out_the_three_stores() {
    let config = Config::new("/home/user/.jocker");
    assert_eq!(config.image_store().path(), "/home/user/.jocker/images");
    assert_eq!(
        config.extracted_image_store().path(),
        "/home/user/.jocker/extracted_images"
    );
    assert_eq!(config.container_store().path(), "/home/user/.jocker/containers");
}

#[test]
fn image_is_found_when_its_directory_exists() {
    let store = ImageStore::from_directory("/s/images");
    assert_eq!(store.path(), "/s/images");
    assert_eq!(store.image_path("alpine"), "/s/images/alpine");
    let image = store.get_image("alpine", true).unwrap();
    assert_eq!(image.path(), "/s/images/alpine");
    assert_eq!(image.name(), "alpine");
    assert_eq!(image.archive_path(), "/s/images/alpine/image.tar.gz");
    assert_eq!(store.get_image("alpine", false), None);
}

#[test]
fn import_then_list_shows_the_name() {
    let store = ImageStore::from_directory("/s/images");
    let image = store.import_image("base".to_string(), Import::Imported).unwrap();
    assert_eq!(image.path(), "/s/images/base");
    let listed = store.images(vec![Ok(image.path().to_string())]);
    assert_eq!(listed.len(), 1);
    assert_eq!(listed[0].as_ref().unwrap().name(), "base");
}

#[test]
fn import_name_with_extension_is_listed_by_its_stem() {
    let store = ImageStore::from_directory("/s/images");
    let image = store.import_image("base.v2".to_string(), Import::Imported).unwrap();
    assert_eq!(image.path(), "/s/images/base.v2");
    assert_eq!(image.name(), "base");
}

#[test]
fn import_name_with_only_a_leading_dot_keeps_its_name() {
    let store = ImageStore::from_directory("/s/images");
    let image = store.import_image(".hidden".to_string(), Import::Imported).unwrap();
    assert_eq!(image.path(), "/s/images/.hidden");
    assert_eq!(image.name(), ".hidden");
}

#[test]
fn import_failures_keep_their_cause() {
    let store = ImageStore::from_directory("/s/images");
    assert_eq!(
        store.import_image("a".to_string(), Import::DirectoryFailed("denied".to_string())),
        Err(ImageError::CannotCreateDirectory("denied".to_string()))
    );
    assert_eq!(
        store.import_image("a".to_string(), Import::CopyFailed("no such file".to_string())),
        Err(ImageError::CannotImportTarball("no such file".to_string()))
    );
}

#[test]
fn copy_is_an_import_under_the_new_name() {
    let store = ImageStore::from_directory("/s/images");
    let source = Image::new("/s/images/tmp".to_string());
    let copy = store.copy_image("final".to_string(), &source, Import::Imported).unwrap();
    assert_eq!(copy.path(), "/s/images/final");
    assert_eq!(
        store.copy_image("final".to_string(), &source, Import::CopyFailed("x".to_string())),
        store.import_image("final".to_string(), Import::CopyFailed("x".to_string()))
    );
}

#[test]
fn listing_hands_entry_errors_on() {
    let store = ImageStore::from_directory("/s/images");
    let listed = store.images(vec![
        Ok("/s/images/b".to_string()),
        Err("io".to_string()),
        Ok("/s/images/a".to_string()),
    ]);
    assert_eq!(
        listed,
        vec![
            Ok(Image::new("/s/images/b".to_string())),
            Err("io".to_string()),
            Ok(Image::new("/s/images/a".to_string())),
        ]
    );
    assert!(store.images(vec![]).is_empty());
}

#[test]
fn removal_failure_is_reported() {
    let store = ImageStore::from_directory("/s/images");
    let image = Image::new("/s/images/a".to_string());
    assert_eq!(store.remove_image(image.clone(), Ok(())), Ok(()));
    assert_eq!(
        store.remove_image(image, Err("busy".to_string())),
        Err(ImageError::CannotRemoveImage("busy".to_string()))
    );
}

#[test]
fn extraction_maps_its_outcome() {
    let image = Image::new("/s/images/a".to_string());
    let extracted = image.extract_to("/s/extracted_images/a", Extraction::Unpacked).unwrap();
    assert_eq!(extracted.path(), "/s/extracted_images/a");
    assert_eq!(extracted.name(), "a");
    assert_eq!(
        image.extract_to("/x", Extraction::Unopenable),
        Err(ImageError::InvalidImage)
    );
    assert_eq!(
        image.extract_to("/x", Extraction::Corrupt("bad header".to_string())),
        Err(ImageError::UnpackError("bad header".to_string()))
    );
}

#[test]
fn extracted_image_is_found_when_its_directory_exists() {
    let store = ExtractedImageStore::from_directory("/s/extracted_images");
    assert_eq!(store.path(), "/s/extracted_images");
    assert_eq!(
        store.get_extracted_image("a", true),
        Some(ExtractedImage::new("/s/extracted_images/a".to_string()))
    );
    assert_eq!(store.get_extracted_image("a", false), None);
}

#[test]
fn image_errors_are_worded() {
    assert_eq!(ImageError::InvalidImage.message(), "invalid image");
    assert_eq!(
        ImageError::UnpackError("x".to_string()).message(),
        "unable to unpack image: x"
    );
    assert_eq!(
        ImageError::CannotCreateDirectory("x".to_string()).message(),
        "unable to create directory: x"
    );
    assert_eq!(
        ImageError::CannotImportTarball("x".to_string()).message(),
        "unable to import tarball: x"
    );
    assert_eq!(
        ImageError::CannotRemoveImage("x".to_string()).message(),
        "unable to remove image: x"
    );
}
