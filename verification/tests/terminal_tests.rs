use mdvew::terminal::prepare_terminal_image;
use mdvew::MdvewError;

fn tiny_png() -> Vec<u8> {
    let img = image::DynamicImage::new_rgba8(2, 2);
    let mut buf: Vec<u8> = Vec::new();
    img.write_to(&mut std::io::Cursor::new(&mut buf), image::ImageFormat::Png)
        .unwrap();
    buf
}

#[test]
fn decodable_bytes_yield_capped_width() {
    let png = tiny_png();
    let (_, width) = prepare_terminal_image(&png, 200).unwrap();
    assert_eq!(width, 150);
    let (_, width) = prepare_terminal_image(&png, 80).unwrap();
    assert_eq!(width, 80);
}

#[test]
fn decoded_image_keeps_its_dimensions() {
    let png = tiny_png();
    let (img, _) = prepare_terminal_image(&png, 100).unwrap();
    assert_eq!(image::GenericImageView::dimensions(&img), (2, 2));
}

#[test]
fn undecodable_bytes_fail_with_image_decode_error() {
    let err = prepare_terminal_image(&[1u8, 2, 3], 100).unwrap_err();
    assert!(matches!(err, MdvewError::ImageDecode { .. }));
}
