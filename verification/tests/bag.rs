use image::{DynamicImage, Rgb, RgbImage};
use minimg::bag::{ImagesBag, PreloadFailure};
use minimg::store::ConstructionError;

fn picture(shade: u8) -> DynamicImage {
    DynamicImage::ImageRgb8(RgbImage::from_pixel(1, 1, Rgb([shade, 0, 0])))
}

fn bag_of(names: &[&str]) -> ImagesBag {
    match ImagesBag::new(names.iter().map(|n| n.to_string()).collect()) {
        Ok(bag) => bag,
        Err(e) => panic!("{}", e.message()),
    }
}

#[test]
fn a_bag_without_paths_is_refused() {
    assert!(matches!(ImagesBag::new(Vec::new()), Err(ConstructionError::EmptyPathList)));
}

#[test]
fn a_new_bag_holds_its_paths_undecoded() {
    let mut bag = bag_of(&["a", "b", "c"]);
    assert_eq!(bag.len(), 3);
    for (idx, name) in ["a", "b", "c"].iter().enumerate() {
        match bag.get(idx) {
            Some(pair) => {
                assert_eq!(pair.path_str(), *name);
                assert_eq!(pair.image_clone(), None);
            }
            None => panic!("no pair at {}", idx),
        }
    }
}

#[test]
fn get_outside_the_bag_is_nothing_and_moves_nothing() {
    let mut bag = bag_of(&["a", "b", "c"]);
    assert!(bag.get(1).is_some());
    assert!(bag.get(3).is_none());
    match bag.next() {
        Some(pair) => assert_eq!(pair.path_str(), "c"),
        None => panic!("no next"),
    }
}

#[test]
fn next_walks_to_the_end_and_stops() {
    let mut bag = bag_of(&["a", "b", "c"]);
    assert_eq!(bag.next().map(|p| p.path_str().to_string()), Some("b".to_string()));
    assert_eq!(bag.next().map(|p| p.path_str().to_string()), Some("c".to_string()));
    assert!(bag.next().is_none());
    assert!(bag.next().is_none());
    assert_eq!(bag.prev().map(|p| p.path_str().to_string()), Some("b".to_string()));
}

#[test]
fn prev_walks_to_the_start_and_stops() {
    let mut bag = bag_of(&["a", "b", "c"]);
    assert!(bag.prev().is_none());
    assert!(bag.get(2).is_some());
    assert_eq!(bag.prev().map(|p| p.path_str().to_string()), Some("b".to_string()));
    assert_eq!(bag.prev().map(|p| p.path_str().to_string()), Some("a".to_string()));
    assert!(bag.prev().is_none());
    assert_eq!(bag.next().map(|p| p.path_str().to_string()), Some("b".to_string()));
}

#[test]
fn preload_count_is_capped_by_the_bag() {
    let bag = bag_of(&["a", "b", "c"]);
    assert_eq!(bag.preload_count(0), 0);
    assert_eq!(bag.preload_count(2), 2);
    assert_eq!(bag.preload_count(3), 3);
    assert_eq!(bag.preload_count(10), 3);
}

#[test]
fn preload_puts_each_picture_with_its_path() {
    let mut bag = bag_of(&["a", "b", "c"]);
    assert_eq!(bag.preload(vec![Ok(picture(1)), Ok(picture(2))]), Ok(()));
    assert_eq!(bag.get(0).and_then(|p| p.image_clone()), Some(picture(1)));
    assert_eq!(bag.get(1).and_then(|p| p.image_clone()), Some(picture(2)));
    assert_eq!(bag.get(2).and_then(|p| p.image_clone()), None);
    assert_eq!(bag.get(1).map(|p| p.path_str().to_string()), Some("b".to_string()));
}

#[test]
fn preload_stops_at_the_first_failure() {
    let mut bag = bag_of(&["a", "b", "c", "d"]);
    let done = bag.preload(vec![
        Ok(picture(1)),
        Err("b is broken".to_string()),
        Ok(picture(3)),
        Err("d is broken".to_string()),
    ]);
    assert_eq!(
        done,
        Err(PreloadFailure {
            index: 1,
            reason: "b is broken".to_string()
        })
    );
    assert_eq!(bag.get(0).and_then(|p| p.image_clone()), Some(picture(1)));
    assert_eq!(bag.get(1).and_then(|p| p.image_clone()), None);
    assert_eq!(bag.get(2).and_then(|p| p.image_clone()), None);
    assert_eq!(bag.get(3).and_then(|p| p.image_clone()), None);
}

#[test]
fn preload_names_a_failure_of_the_first_file() {
    let mut bag = bag_of(&["a", "b"]);
    let done = bag.preload(vec![Err("a is broken".to_string()), Ok(picture(2))]);
    assert_eq!(
        done,
        Err(PreloadFailure {
            index: 0,
            reason: "a is broken".to_string()
        })
    );
    assert_eq!(bag.get(0).and_then(|p| p.image_clone()), None);
    assert_eq!(bag.get(1).and_then(|p| p.image_clone()), None);
}

#[test]
fn preload_of_nothing_changes_nothing() {
    let mut bag = bag_of(&["a"]);
    assert_eq!(bag.preload(Vec::new()), Ok(()));
    assert_eq!(bag.get(0).and_then(|p| p.image_clone()), None);
}

#[test]
fn preload_keeps_the_cursor() {
    let mut bag = bag_of(&["a", "b", "c"]);
    assert!(bag.get(1).is_some());
    assert_eq!(bag.preload(vec![Ok(picture(1))]), Ok(()));
    assert_eq!(bag.next().map(|p| p.path_str().to_string()), Some("c".to_string()));
}
