use pathtracer::pixel::Rgb;
use pathtracer::ppm::{decimal_bytes, ppm_encode};

#[test]
fn decimal_of_zero() {
    assert_eq!(decimal_bytes(0), b"0".to_vec());
}

#[test]
fn decimal_single_and_multi_digit() {
    assert_eq!(decimal_bytes(7), b"7".to_vec());
    assert_eq!(decimal_bytes(10), b"10".to_vec());
    assert_eq!(decimal_bytes(99), b"99".to_vec());
    assert_eq!(decimal_bytes(255), b"255".to_vec());
    assert_eq!(decimal_bytes(800), b"800".to_vec());
    assert_eq!(decimal_bytes(4294967295), b"4294967295".to_vec());
}

#[test]
fn ppm_exact_bytes_for_a_small_image() {
    let px = vec![Rgb::new(0, 0, 0), Rgb::new(12, 34, 56)];
    let out = ppm_encode(2, 1, &px);
    assert_eq!(out, b"P3\n2 1\n255\n0 0 0\n12 34 56\n".to_vec());
}

#[test]
fn ppm_two_by_two_image_has_header_and_four_lines() {
    let px = vec![Rgb::new(255, 255, 255); 4];
    let out = ppm_encode(2, 2, &px);
    let text = String::from_utf8(out).unwrap();
    assert!(text.starts_with("P3\n2 2\n255\n"));
    let body: Vec<&str> = text.lines().skip(3).collect();
    assert_eq!(body.len(), 4);
    for line in body {
        assert_eq!(line, "255 255 255");
    }
}

#[test]
fn ppm_empty_image_is_header_only() {
    let px: Vec<Rgb> = Vec::new();
    let out = ppm_encode(0, 0, &px);
    assert_eq!(out, b"P3\n0 0\n255\n".to_vec());
}
