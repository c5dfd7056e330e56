use ray_tracer::camera::image_height;

#[test]
fn image_height_is_at_least_one() {
    assert_eq!(image_height(0), 1);
    assert_eq!(image_height(-7), 1);
    assert_eq!(image_height(1), 1);
}

#[test]
fn image_height_keeps_positive_values() {
    // 1200 / (16 / 9)
    assert_eq!(image_height((1200.0 / (16.0 / 9.0)) as i64), 675);
    assert_eq!(image_height(3), 3);
}
