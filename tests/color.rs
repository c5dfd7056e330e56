use ray_tracer::color::channel_byte;

fn display_byte(c: f64) -> u8 {
    channel_byte((256.0 * c.sqrt()).floor() as i64)
}

#[test]
fn channel_byte_clamps() {
    assert_eq!(channel_byte(-1), 0);
    assert_eq!(channel_byte(i64::MIN), 0);
    assert_eq!(channel_byte(0), 0);
    assert_eq!(channel_byte(128), 128);
    assert_eq!(channel_byte(255), 255);
    assert_eq!(channel_byte(256), 255);
    assert_eq!(channel_byte(i64::MAX), 255);
}

#[test]
fn gamma_of_black_and_white() {
    assert_eq!(display_byte(0.0), 0);
    assert_eq!(display_byte(1.0), 255);
}

#[test]
fn gamma_of_intermediate_values() {
    // sqrt(0.25) = 0.5, 256 * 0.5 = 128
    assert_eq!(display_byte(0.25), 128);
    // sqrt(0.999^2) lies above the 0.999 bound of the intensity range
    assert_eq!(display_byte(0.999 * 0.999), 255);
    // above one, the channel saturates
    assert_eq!(display_byte(4.0), 255);
    // sqrt(0.01) = 0.1, 25.6 floored
    assert_eq!(display_byte(0.01), 25);
}
