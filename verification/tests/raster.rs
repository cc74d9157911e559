use omnitrace_task::raster::{pixel_at, pixel_count};

#[test]
fn pixels_are_counted() {
    assert_eq!(pixel_count(256, 256), 65536);
    assert_eq!(pixel_count(0, 7), 0);
    assert_eq!(pixel_count(u32::MAX, u32::MAX), 18446744065119617025);
}

#[test]
fn pixels_are_visited_row_by_row() {
    assert_eq!(pixel_at(0, 4), (0, 0));
    assert_eq!(pixel_at(3, 4), (3, 0));
    assert_eq!(pixel_at(4, 4), (0, 1));
    assert_eq!(pixel_at(11, 4), (3, 2));
}

#[test]
fn every_pixel_is_visited_once() {
    let (width, height) = (7u32, 5u32);
    let mut seen = vec![false; (width * height) as usize];
    for index in 0..pixel_count(width, height) {
        let (x, y) = pixel_at(index, width);
        assert!(x < width && y < height);
        assert_eq!((y * width + x) as u64, index);
        assert!(!seen[index as usize]);
        seen[index as usize] = true;
    }
    assert!(seen.iter().all(|s| *s));
}
