use image::ImageEncoder;
use vinyl_viz::encoding::{form_urldecode, form_urlencode_str};
use vinyl_viz::media::{decode_album_art, first_usable_font};

fn png(width: u32, height: u32, rgba: &[u8]) -> Vec<u8> {
    let mut out = Vec::new();
    image::codecs::png::PngEncoder::new(&mut out)
        .write_image(rgba, width, height, image::ColorType::Rgba8)
        .unwrap();
    out
}

#[test]
fn album_art_decodes_to_rgba() {
    let px = [255, 0, 0, 255, 0, 255, 0, 128];
    let art = decode_album_art(&png(2, 1, &px)).unwrap();
    assert_eq!((art.width, art.height), (2, 1));
    assert_eq!(art.pixels, px.to_vec());
}

#[test]
fn album_art_rejects_garbage() {
    assert!(decode_album_art(b"not an image").is_none());
    assert!(decode_album_art(&[]).is_none());
}

#[test]
fn no_usable_font_among_unreadable_or_broken_files() {
    assert_eq!(first_usable_font(&vec![]), None);
    assert_eq!(first_usable_font(&vec![None, Some(b"garbage".to_vec()), None]), None);
}

#[test]
fn form_urldecode_decodes_escapes() {
    assert_eq!(form_urldecode("a+b%2Fc"), "a b/c");
    assert_eq!(form_urldecode("plain-Text_1.2*"), "plain-Text_1.2*");
    assert_eq!(form_urldecode(""), "");
    assert_eq!(form_urldecode("x=y"), "x=y");
}

#[test]
fn form_urldecode_inverts_form_urlencode() {
    for s in ["", "a b&c=d/\u{e9}~", "100% +sure", "\u{1f600} ok", "x=y&z"] {
        assert_eq!(form_urldecode(&form_urlencode_str(s)), s);
    }
}
