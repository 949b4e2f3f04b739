use ciphercanvas::CcError;
use ciphercanvas::Diagnostic;
use ciphercanvas::ExportData;
use ciphercanvas::generate;
use ciphercanvas::load_svg;
use ciphercanvas::pixmap_height_of;
use ciphercanvas::pixmap_width_of;
use ciphercanvas::render_svg;
use ciphercanvas::save_image;
use ciphercanvas::with_extension;

fn sample_svg() -> String {
    let code = generate("WIFI:S:HomeNet;T:WPA;P:hunter2;;").unwrap();
    render_svg(&code, 512, "#ffffff", "#000000")
}

#[test]
fn test_with_extension_replaces() {
    assert_eq!(with_extension("output.png", "svg"), "output.svg");
    assert_eq!(with_extension("a.tar.gz", "png"), "a.tar.png");
}

#[test]
fn test_with_extension_appends() {
    assert_eq!(with_extension("output", "png"), "output.png");
    assert_eq!(with_extension("dir.d/name", "svg"), "dir.d/name.svg");
    assert_eq!(with_extension(".hidden", "svg"), ".hidden.svg");
}

#[test]
fn test_with_extension_drops_trailing_components() {
    assert_eq!(with_extension("dir/", "svg"), "dir.svg");
    assert_eq!(with_extension("a/b/.", "svg"), "a/b.svg");
    assert_eq!(with_extension("a//", "png"), "a.png");
}

#[test]
fn test_with_extension_no_name() {
    assert_eq!(with_extension("..", "svg"), "..");
    assert_eq!(with_extension("a/..", "svg"), "a/..");
    assert_eq!(with_extension("/", "svg"), "/");
    assert_eq!(with_extension("", "svg"), "");
    assert_eq!(with_extension(".", "svg"), ".");
}

#[test]
fn test_with_extension_matches_std_paths() {
    let cases = [
        "output.png",
        "output",
        "a.tar.gz",
        ".hidden",
        "dir.d/name",
        "dir/",
        "a/b/.",
        "a//",
        "..",
        "a/..",
        "",
        ".",
        "file.",
        "/abs/path.svg",
    ];
    for path in cases {
        let expected = std::path::Path::new(path).with_extension("svg");
        assert_eq!(
            with_extension(path, "svg"),
            expected.to_str().unwrap(),
            "path {:?}",
            path
        );
    }
}

#[test]
fn test_load_svg_round_trip_dimensions() {
    let document = sample_svg();
    let pixmap = load_svg(document.as_bytes(), 512).unwrap();
    assert_eq!(pixmap_width_of(&pixmap), 512);
    assert_eq!(pixmap_height_of(&pixmap), 512);
}

#[test]
fn test_load_svg_rejects_garbage() {
    let result = load_svg(b"this is no svg at all", 512);
    assert!(matches!(result, Err(CcError::Render)));
}

#[test]
fn test_load_svg_zero_size_fails() {
    let document = sample_svg();
    let result = load_svg(document.as_bytes(), 0);
    assert!(matches!(result, Err(CcError::Render)));
}

#[test]
fn test_save_image_svg_verbatim() {
    let document = sample_svg();
    let mut diags: Vec<Diagnostic> = Vec::new();
    let artifact = save_image("qr_out", "svg", &document, 512, &mut diags).unwrap();
    assert_eq!(artifact.path, "qr_out.svg");
    match artifact.data {
        ExportData::Svg(text) => assert_eq!(text, document),
        ExportData::Png(_) => panic!("expected an SVG artifact"),
    }
    assert_eq!(diags.len(), 0);
}

#[test]
fn test_save_image_unsupported_format() {
    let document = sample_svg();
    let mut diags: Vec<Diagnostic> = Vec::new();
    let result = save_image("qr_out", "jpg", &document, 512, &mut diags);
    assert!(matches!(result, Err(CcError::UnsupportedFormat)));
    assert_eq!(diags.len(), 0);
}

#[test]
fn test_save_image_png_decodes_at_size() {
    let document = sample_svg();
    let mut diags: Vec<Diagnostic> = Vec::new();
    let artifact = save_image("qr_out", "png", &document, 512, &mut diags).unwrap();
    assert_eq!(artifact.path, "qr_out.png");
    let bytes = match artifact.data {
        ExportData::Png(bytes) => bytes,
        ExportData::Svg(_) => panic!("expected a PNG artifact"),
    };
    let decoded = tiny_skia::Pixmap::decode_png(&bytes).unwrap();
    assert_eq!(decoded.width(), 512);
    assert_eq!(decoded.height(), 512);
    assert_eq!(diags.len(), 0);
}

#[test]
fn test_save_image_png_small_size_warns() {
    let document = sample_svg();
    let mut diags: Vec<Diagnostic> = Vec::new();
    let artifact = save_image("qr_out", "png", &document, 200, &mut diags).unwrap();
    assert_eq!(artifact.path, "qr_out.png");
    assert_eq!(diags.len(), 1);
    assert!(matches!(&diags[0], Diagnostic::SmallSize { size: 200 }));
}
