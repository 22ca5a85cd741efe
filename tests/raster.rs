use smallvcm::{pixel_of, sample_index};

#[test]
fn samples_inside_image() {
    assert_eq!(sample_index(4, 3, 0, 0), Some(0));
    assert_eq!(sample_index(4, 3, 3, 0), Some(3));
    assert_eq!(sample_index(4, 3, 1, 2), Some(9));
    assert_eq!(sample_index(4, 3, 3, 2), Some(11));
}

#[test]
fn samples_outside_image_dropped() {
    assert_eq!(sample_index(4, 3, -1, 0), None);
    assert_eq!(sample_index(4, 3, 0, -1), None);
    assert_eq!(sample_index(4, 3, 4, 0), None);
    assert_eq!(sample_index(4, 3, 0, 3), None);
    assert_eq!(sample_index(4, 3, i64::MAX, 0), None);
    assert_eq!(sample_index(0, 0, 0, 0), None);
}

#[test]
fn pixel_numbering() {
    assert_eq!(pixel_of(0, 4), (0, 0));
    assert_eq!(pixel_of(5, 4), (1, 1));
    assert_eq!(pixel_of(11, 4), (3, 2));
}
