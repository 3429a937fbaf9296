use shape_viewer::aspect::{greatest_common_divisor, Aspect, SurfaceSize};

fn size(width: u32, height: u32) -> SurfaceSize {
    SurfaceSize { width, height }
}

#[test]
fn gcd_values() {
    assert_eq!(greatest_common_divisor(800, 600), 200);
    assert_eq!(greatest_common_divisor(600, 800), 200);
    assert_eq!(greatest_common_divisor(17, 5), 1);
    assert_eq!(greatest_common_divisor(0, 9), 9);
    assert_eq!(greatest_common_divisor(9, 0), 9);
    assert_eq!(greatest_common_divisor(0, 0), 0);
    assert_eq!(greatest_common_divisor(u32::MAX, u32::MAX), u32::MAX);
    assert_eq!(greatest_common_divisor(1 << 31, 1 << 20), 1 << 20);
}

#[test]
fn aspect_is_in_lowest_terms() {
    assert_eq!(Aspect::from_size(size(800, 600)), Aspect { width: 4, height: 3 });
    assert_eq!(Aspect::from_size(size(1920, 1080)), Aspect { width: 16, height: 9 });
    assert_eq!(Aspect::from_size(size(600, 800)), Aspect { width: 3, height: 4 });
    assert_eq!(Aspect::from_size(size(500, 500)), Aspect { width: 1, height: 1 });
    assert_eq!(Aspect::from_size(size(1, 1)), Aspect { width: 1, height: 1 });
    assert_eq!(Aspect::from_size(size(1366, 768)), Aspect { width: 683, height: 384 });
    assert_eq!(Aspect::from_size(size(u32::MAX, 1)), Aspect { width: u32::MAX, height: 1 });
}

#[test]
fn same_proportions_give_the_same_aspect() {
    assert_eq!(Aspect::from_size(size(800, 600)), Aspect::from_size(size(400, 300)));
    assert_eq!(Aspect::from_size(size(1024, 768)), Aspect::from_size(size(4, 3)));
    assert_ne!(Aspect::from_size(size(800, 600)), Aspect::from_size(size(801, 600)));
}

#[test]
fn deriving_again_changes_nothing() {
    for (w, h) in [(800u32, 600u32), (1366, 768), (1, 7), (4096, 4096), (7, 1)] {
        let once = Aspect::from_size(size(w, h));
        let twice = Aspect::from_size(once.as_size());
        assert_eq!(once, twice);
    }
}

#[test]
fn aspect_keeps_the_quotient() {
    for (w, h) in [(800u32, 600u32), (1366, 768), (1920, 1200), (333, 777)] {
        let a = Aspect::from_size(size(w, h));
        assert_eq!(a.width as u64 * h as u64, a.height as u64 * w as u64);
        assert_eq!(a.width as f32 / a.height as f32, w as f32 / h as f32);
    }
}

#[test]
fn empty_sizes() {
    assert!(size(0, 600).is_empty());
    assert!(size(800, 0).is_empty());
    assert!(size(0, 0).is_empty());
    assert!(!size(1, 1).is_empty());
    assert!(!size(800, 600).is_empty());
}

#[test]
fn aspect_as_size() {
    assert_eq!(Aspect { width: 4, height: 3 }.as_size(), size(4, 3));
}
