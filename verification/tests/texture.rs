use mandelbrot_explorer::texture::update_texture;

#[test]
fn pixels_are_copied_row_by_row_and_padding_is_kept() {
    let image = vec![(1, 2, 3), (4, 5, 6), (7, 8, 9), (10, 11, 12)];
    let mut buf = vec![0xAAu8; 16];
    update_texture(&mut buf, 8, 2, 2, &image);
    assert_eq!(
        buf,
        vec![1, 2, 3, 4, 5, 6, 0xAA, 0xAA, 7, 8, 9, 10, 11, 12, 0xAA, 0xAA]
    );
}

#[test]
fn last_row_may_end_with_its_last_pixel() {
    let image = vec![(1, 2, 3), (4, 5, 6)];
    let mut buf = vec![0u8; 7];
    update_texture(&mut buf, 4, 1, 2, &image);
    assert_eq!(buf, vec![1, 2, 3, 0, 4, 5, 6]);
}

#[test]
fn tight_rows_fill_the_buffer() {
    let image = vec![(1, 1, 1), (2, 2, 2), (3, 3, 3), (4, 4, 4), (5, 5, 5), (6, 6, 6)];
    let mut buf = vec![0u8; 18];
    update_texture(&mut buf, 9, 3, 2, &image);
    assert_eq!(buf, vec![1, 1, 1, 2, 2, 2, 3, 3, 3, 4, 4, 4, 5, 5, 5, 6, 6, 6]);
}

#[test]
fn empty_image_changes_nothing() {
    let mut buf = vec![9u8; 5];
    update_texture(&mut buf, 0, 0, 3, &vec![]);
    assert_eq!(buf, vec![9u8; 5]);
    update_texture(&mut buf, 3, 1, 0, &vec![]);
    assert_eq!(buf, vec![9u8; 5]);
}

#[test]
fn bytes_after_the_image_are_kept() {
    let image = vec![(1, 2, 3), (9, 9, 9)];
    let mut buf = vec![7u8; 10];
    update_texture(&mut buf, 3, 1, 1, &image);
    assert_eq!(buf, vec![1, 2, 3, 7, 7, 7, 7, 7, 7, 7]);
}
