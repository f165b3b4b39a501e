use cook_screen::render::image_data_set::ImageDataSet;
use cook_screen::render::qrcode::QR_SIZE;
use std::cell::Cell;
use std::rc::Rc;

fn keep(pixels: &Vec<u8>) -> Vec<u8> {
    pixels.clone()
}

#[test]
fn qrcode_is_a_square_bitmap() {
    let mut set: ImageDataSet<Vec<u8>> = ImageDataSet::new();
    let image = set.get_qrcode("hello", keep).unwrap();
    assert_eq!(QR_SIZE, 128);
    assert_eq!(image.len(), 128 * 128);
    assert!(image.iter().all(|p| *p == 0 || *p == 255));
    assert_eq!(image[0], 255);
    assert!(image.iter().any(|p| *p == 0));
    assert_ne!(&image[..5], &b"hello"[..]);
}

#[test]
fn qrcode_differs_by_payload() {
    let mut set: ImageDataSet<Vec<u8>> = ImageDataSet::new();
    let a = set.get_qrcode("hello", keep).unwrap();
    let b = set.get_qrcode("world", keep).unwrap();
    assert_ne!(*a, *b);
    assert_eq!(set.qrcode_count(), 2);
    assert_eq!(set.usage_count(), 2);
}

#[test]
fn qrcode_lookups_count_and_share_one_image() {
    let calls = Cell::new(0u32);
    let load = |pixels: &Vec<u8>| {
        calls.set(calls.get() + 1);
        pixels.len()
    };
    let mut set: ImageDataSet<usize> = ImageDataSet::new();
    let first = set.get_qrcode("hello", &load).unwrap();
    assert_eq!(set.usage_count(), 1);
    for n in 2..=5u16 {
        let again = set.get_qrcode("hello", &load).unwrap();
        assert!(Rc::ptr_eq(&first, &again));
        assert_eq!(set.usage_count(), n);
    }
    assert_eq!(calls.get(), 1);
    assert_eq!(set.qrcode_count(), 1);
}

#[test]
fn qrcode_kept_after_a_frame_of_use_and_dropped_after_one_without() {
    let mut set: ImageDataSet<Vec<u8>> = ImageDataSet::new();
    assert!(set.get_qrcode("hello", keep).is_some());
    assert!(set.get_qrcode("hello", keep).is_some());
    assert_eq!(set.usage_count(), 2);
    set.release_qrcode();
    assert_eq!(set.usage_count(), 0);
    assert_eq!(set.qrcode_count(), 1);
    set.release_qrcode();
    assert_eq!(set.usage_count(), 0);
    assert_eq!(set.qrcode_count(), 0);
}

#[test]
fn release_of_an_empty_cache_only_resets_the_count() {
    let mut set: ImageDataSet<Vec<u8>> = ImageDataSet::new();
    set.release_qrcode();
    assert_eq!(set.qrcode_count(), 0);
    assert_eq!(set.usage_count(), 0);
}

#[test]
fn payload_too_long_is_not_cached() {
    let long = "x".repeat(5000);
    let mut set: ImageDataSet<Vec<u8>> = ImageDataSet::new();
    assert!(set.get_qrcode(&long, keep).is_none());
    assert_eq!(set.qrcode_count(), 0);
    assert_eq!(set.usage_count(), 1);
    assert!(set.get_qrcode(&long, keep).is_none());
    assert_eq!(set.usage_count(), 2);
}

#[test]
fn payload_too_dense_for_the_bitmap_is_not_cached() {
    let dense = "x".repeat(2000);
    let mut set: ImageDataSet<Vec<u8>> = ImageDataSet::new();
    assert!(set.get_qrcode(&dense, keep).is_none());
    assert_eq!(set.qrcode_count(), 0);
}

#[test]
fn add_qrcode_replaces_and_is_found() {
    let mut set: ImageDataSet<Vec<u8>> = ImageDataSet::new();
    set.add_qrcode("k".to_string(), Rc::new(vec![1]));
    let mine = Rc::new(vec![2, 3]);
    set.add_qrcode("k".to_string(), Rc::clone(&mine));
    assert_eq!(set.qrcode_count(), 1);
    assert_eq!(set.usage_count(), 0);
    let found = set.get_qrcode("k", keep).unwrap();
    assert!(Rc::ptr_eq(&mine, &found));
    assert_eq!(set.usage_count(), 1);
}

#[test]
fn store_qrcode_caches_what_was_encoded() {
    let mut set: ImageDataSet<Vec<u8>> = ImageDataSet::new();
    assert!(set.store_qrcode("none", None, keep).is_none());
    assert_eq!(set.qrcode_count(), 0);
    let stored = set.store_qrcode("some", Some(vec![0, 255]), keep).unwrap();
    assert_eq!(*stored, vec![0, 255]);
    assert_eq!(set.qrcode_count(), 1);
    assert_eq!(set.usage_count(), 0);
    let found = set.get_qrcode("some", keep).unwrap();
    assert!(Rc::ptr_eq(&stored, &found));
}
