use linkly_tui::qr::{
    clamp_size, color_rgb, file_name, file_name_ext, normalize_color, output_dir, render_qr, workspace_output_dir,
    QrFormat, QrSettings,
};

#[test]
fn file_names_are_safe_and_prefixed() {
    assert_eq!(file_name(Some(30), Some("/promo"), None), "30-promo.png");
    assert_eq!(file_name(Some(7), Some("/sale?x=1"), None), "7-sale-x-1.png");
    assert_eq!(file_name(Some(9), None, Some("My Link")), "9-My-Link.png");
    assert_eq!(file_name(Some(5), Some("/"), None), "link-5.png");
    assert_eq!(file_name(None, None, None), "link.png");
}

#[test]
fn writes_a_png() {
    let bytes = render_qr("https://example.com/promo", &QrSettings::defaults()).unwrap();
    // PNG magic number.
    assert_eq!(&bytes[..8], &[0x89, b'P', b'N', b'G', 0x0d, 0x0a, 0x1a, 0x0a]);
}

#[test]
fn renders_svg_and_jpeg() {
    let mut s = QrSettings::defaults();
    s.format = QrFormat::Svg;
    let svg = String::from_utf8(render_qr("https://example.com", &s).unwrap()).unwrap();
    assert!(svg.contains("<svg"));
    assert!(svg.contains("#000000"));
    s.format = QrFormat::Jpeg;
    let jpg = render_qr("https://example.com", &s).unwrap();
    assert_eq!(&jpg[..2], &[0xff, 0xd8]);
}

#[test]
fn rejects_bad_colours() {
    let mut s = QrSettings::defaults();
    s.fg = "black".to_string();
    assert_eq!(render_qr("https://example.com", &s).unwrap_err(), "invalid colour");
}

#[test]
fn colours_normalise_and_parse() {
    assert_eq!(normalize_color("  #A0b1C2 "), Some("#a0b1c2".to_string()));
    assert_eq!(normalize_color("ffffff"), Some("#ffffff".to_string()));
    assert_eq!(normalize_color("#fff"), None);
    assert_eq!(normalize_color("#ggggg1"), None);
    assert_eq!(color_rgb("#ff8000"), Some((255, 128, 0)));
    assert_eq!(color_rgb("#FF8000"), Some((255, 128, 0)));
    assert_eq!(color_rgb("ff8000"), None);
}

#[test]
fn formats_cycle_and_name_their_files() {
    assert_eq!(QrFormat::Png.next(), QrFormat::Svg);
    assert_eq!(QrFormat::Png.prev(), QrFormat::Jpeg);
    for f in [QrFormat::Png, QrFormat::Svg, QrFormat::Jpeg] {
        assert_eq!(f.next().prev(), f);
        assert_eq!(f.next().next().next(), f);
    }
    assert_eq!(file_name_ext(Some(3), Some("a b"), None, QrFormat::Jpeg.extension()), "3-a-b.jpg");
    assert_eq!(QrFormat::Svg.label(), "SVG");
}

#[test]
fn sizes_are_kept_in_range() {
    assert_eq!(clamp_size(0), 64);
    assert_eq!(clamp_size(320), 320);
    assert_eq!(clamp_size(u32::MAX), 4096);
    let mut s = QrSettings::defaults();
    s.format = QrFormat::Svg;
    s.size = u32::MAX;
    assert!(render_qr("https://example.com", &s).is_ok());
}

#[test]
fn data_too_long_for_a_qr_code_fails() {
    let long = "x".repeat(8000);
    assert!(render_qr(&long, &QrSettings::defaults()).is_err());
}

#[test]
fn workspace_directories_sit_under_the_base_directory() {
    assert_eq!(output_dir(), "linkly-qr");
    assert_eq!(workspace_output_dir(42), "linkly-qr/42");
}
