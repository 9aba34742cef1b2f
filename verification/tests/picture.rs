use image::{DynamicImage, Rgb, RgbImage};
use minimg::picture::{decoded_pair, describe_outcome, resolve_decoded, ImagePair};
use minimg::store::CacheStore;
use minimg::status::FileStatus;

fn picture(shade: u8) -> DynamicImage {
    DynamicImage::ImageRgb8(RgbImage::from_pixel(2, 3, Rgb([shade, 2, 3])))
}

fn undecodable() -> image::ImageError {
    match image::load_from_memory(&[0u8, 1, 2, 3]) {
        Ok(_) => panic!("four bytes made a picture"),
        Err(e) => e,
    }
}

#[test]
fn path_str_is_the_path() {
    let pair = ImagePair("dir/a picture.png".to_string(), None);
    assert_eq!(pair.path_str(), "dir/a picture.png");
}

#[test]
fn image_clone_copies_the_picture_and_keeps_the_pair() {
    let pair = ImagePair("a.png".to_string(), Some(picture(9)));
    let copy = pair.image_clone();
    assert_eq!(copy, Some(picture(9)));
    assert_ne!(copy, Some(picture(8)));
    assert_eq!(pair.1, Some(picture(9)));
    assert_eq!(pair.path_str(), "a.png");
}

#[test]
fn image_clone_of_an_undecoded_pair_is_nothing() {
    let pair = ImagePair("a.png".to_string(), None);
    assert_eq!(pair.image_clone(), None);
}

#[test]
fn image_gives_the_picture_up() {
    let pair = ImagePair("a.png".to_string(), Some(picture(4)));
    assert_eq!(pair.image(), Some(picture(4)));
    let empty = ImagePair("b.png".to_string(), None);
    assert_eq!(empty.image(), None);
}

#[test]
fn a_decoded_picture_becomes_a_pair_with_its_path() {
    match decoded_pair("a.png".to_string(), Ok(picture(1))) {
        Ok(pair) => {
            assert_eq!(pair.path_str(), "a.png");
            assert_eq!(pair.image(), Some(picture(1)));
        }
        Err(words) => panic!("{}", words),
    }
}

#[test]
fn a_failed_decode_becomes_its_reason() {
    let words = undecodable().to_string();
    match decoded_pair("a.png".to_string(), Err(undecodable())) {
        Ok(_) => panic!("a pair out of an error"),
        Err(reason) => assert_eq!(reason, words),
    }
}

#[test]
fn a_decoded_pair_settles_a_slot_as_read() {
    let status: FileStatus<ImagePair> =
        FileStatus::from(decoded_pair("a.png".to_string(), Ok(picture(1))));
    match status {
        FileStatus::Read(pair) => {
            assert_eq!(pair.path_str(), "a.png");
            assert_eq!(pair.image_clone(), Some(picture(1)));
        }
        _ => panic!("not read"),
    }
}

#[test]
fn describe_outcome_keeps_a_picture() {
    assert_eq!(describe_outcome(Ok(picture(5))), Ok(picture(5)));
}

#[test]
fn describe_outcome_puts_the_error_in_words() {
    let words = undecodable().to_string();
    assert!(!words.is_empty());
    assert_eq!(describe_outcome(Err(undecodable())), Err(words));
}

#[test]
fn a_decode_error_ends_up_in_the_slot() {
    let words = undecodable().to_string();
    let outcome = decoded_pair("a.png".to_string(), Err(undecodable()));
    let status: FileStatus<ImagePair> = FileStatus::from(outcome);
    match status {
        FileStatus::Failed(reason) => assert_eq!(reason, words),
        _ => panic!("not failed"),
    }
}

#[test]
fn copied_is_the_same_pair_and_leaves_the_first_in_place() {
    let pair = ImagePair("dir/a.png".to_string(), Some(picture(7)));
    let copy = pair.copied();
    assert_eq!(copy.path_str(), "dir/a.png");
    assert_eq!(copy.1, Some(picture(7)));
    assert!(copy == pair);
    assert_eq!(pair.path_str(), "dir/a.png");
    assert_eq!(pair.image(), Some(picture(7)));
}

#[test]
fn copied_of_an_undecoded_pair_has_no_picture() {
    let pair = ImagePair("b.png".to_string(), None);
    let copy = pair.copied();
    assert_eq!(copy.path_str(), "b.png");
    assert_eq!(copy.image(), None);
}

fn claimed_store(len: usize, idx: usize) -> CacheStore<ImagePair> {
    let mut store = match CacheStore::new(len) {
        Ok(store) => store,
        Err(e) => panic!("{}", e.message()),
    };
    assert!(store.try_claim(idx));
    store
}

#[test]
fn a_decoded_file_is_stored_under_the_path_of_its_index() {
    let paths = vec!["a.png".to_string(), "b.png".to_string(), "c.png".to_string()];
    let mut store = claimed_store(3, 1);
    resolve_decoded(&mut store, &paths, 1, Ok(picture(3)));
    match store.loaded(1) {
        Some(pair) => {
            assert_eq!(pair.path_str(), "b.png");
            assert_eq!(pair.image_clone(), Some(picture(3)));
        }
        None => panic!("not read"),
    }
    assert!(store.peek(0).is_unread());
    assert!(store.peek(2).is_unread());
}

#[test]
fn a_file_that_does_not_decode_is_stored_with_the_words_of_its_error() {
    let paths = vec!["a.png".to_string(), "b.png".to_string()];
    let words = undecodable().to_string();
    let mut store = claimed_store(2, 0);
    resolve_decoded(&mut store, &paths, 0, Err(undecodable()));
    match store.peek(0) {
        FileStatus::Failed(reason) => assert_eq!(*reason, words),
        _ => panic!("not failed"),
    }
    assert!(store.loaded(0).is_none());
    assert!(store.peek(1).is_unread());
}
