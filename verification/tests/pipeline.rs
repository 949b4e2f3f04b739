use ciphercanvas::CcError;
use ciphercanvas::Diagnostic;
use ciphercanvas::Encryption;
use ciphercanvas::ExportData;
use ciphercanvas::process;
use ciphercanvas::resolve_settings;

#[test]
fn test_resolve_settings_configured_values() {
    let config = toml::from_str(
        r##"
            [qrcode]
            export = "png"
            size = 640

            [colors]
            foreground = "#111111"
            background = "#eeeeee"
        "##,
    )
    .unwrap();
    let mut diags: Vec<Diagnostic> = Vec::new();
    let settings = resolve_settings(&config, &mut diags);
    assert_eq!(settings.format, "png");
    assert_eq!(settings.size, 640);
    assert_eq!(settings.foreground, "#111111");
    assert_eq!(settings.background, "#eeeeee");
    assert_eq!(diags.len(), 0);
}

#[test]
fn test_resolve_settings_defaults() {
    let config = toml::from_str(
        r##"
            [qrcode]
            password = "hunter2"
        "##,
    )
    .unwrap();
    let mut diags: Vec<Diagnostic> = Vec::new();
    let settings = resolve_settings(&config, &mut diags);
    assert_eq!(settings.format, "svg");
    assert_eq!(settings.size, 512);
    assert_eq!(settings.foreground, "#ffffff");
    assert_eq!(settings.background, "#000000");
    assert_eq!(diags.len(), 4);
    assert!(matches!(&diags[0], Diagnostic::MissingStr { .. }));
    assert!(matches!(&diags[1], Diagnostic::MissingInt { .. }));
    assert!(matches!(&diags[2], Diagnostic::MissingStr { .. }));
    assert!(matches!(&diags[3], Diagnostic::MissingStr { .. }));
}

#[test]
fn test_process_png_end_to_end() {
    let config = toml::from_str(
        r##"
            [qrcode]
            export = "png"
            size = 512
            password = "hunter2"

            [colors]
            foreground = "#000000"
            background = "#ffffff"
        "##,
    )
    .unwrap();
    let mut diags: Vec<Diagnostic> = Vec::new();
    let artifact =
        process(&config, "HomeNet", &Encryption::Wpa, "wifi", &mut diags).unwrap();
    assert_eq!(artifact.path, "wifi.png");
    let bytes = match artifact.data {
        ExportData::Png(bytes) => bytes,
        ExportData::Svg(_) => panic!("expected a PNG artifact"),
    };
    let decoded = tiny_skia::Pixmap::decode_png(&bytes).unwrap();
    assert_eq!(decoded.width(), 512);
    assert_eq!(decoded.height(), 512);
    assert_eq!(diags.len(), 0);
}

#[test]
fn test_process_unsupported_format() {
    let config = toml::from_str(
        r##"
            [qrcode]
            export = "jpg"
            size = 512
            password = "hunter2"
        "##,
    )
    .unwrap();
    let mut diags: Vec<Diagnostic> = Vec::new();
    let result = process(&config, "HomeNet", &Encryption::Wpa, "wifi", &mut diags);
    assert!(matches!(result, Err(CcError::UnsupportedFormat)));
}

#[test]
fn test_process_missing_password() {
    let config = toml::from_str(
        r##"
            [qrcode]
            export = "svg"
            size = 512
        "##,
    )
    .unwrap();
    let mut diags: Vec<Diagnostic> = Vec::new();
    let result = process(&config, "HomeNet", &Encryption::Wpa, "wifi", &mut diags);
    assert!(matches!(result, Err(CcError::MissingRequiredField)));
}

#[test]
fn test_process_svg_document_matches_renderer() {
    let config = toml::from_str(
        r##"
            [qrcode]
            export = "svg"
            size = 512
            password = "hunter2"

            [colors]
            foreground = "#ffffff"
            background = "#000000"
        "##,
    )
    .unwrap();
    let mut diags: Vec<Diagnostic> = Vec::new();
    let artifact =
        process(&config, "HomeNet", &Encryption::Wpa, "wifi", &mut diags).unwrap();
    assert_eq!(artifact.path, "wifi.svg");
    let document = match artifact.data {
        ExportData::Svg(document) => document,
        ExportData::Png(_) => panic!("expected an SVG artifact"),
    };

    let expected = qrcode::QrCode::with_error_correction_level(
        "WIFI:S:HomeNet;T:WPA;P:hunter2;;".as_bytes(),
        qrcode::EcLevel::H,
    )
    .unwrap()
    .render::<qrcode::render::svg::Color>()
    .min_dimensions(512, 512)
    .dark_color(qrcode::render::svg::Color("#ffffff"))
    .light_color(qrcode::render::svg::Color("#000000"))
    .build();
    assert_eq!(document, expected);
    assert_eq!(diags.len(), 0);
}

#[test]
fn test_process_small_size_warns_and_proceeds() {
    let config = toml::from_str(
        r##"
            [qrcode]
            export = "svg"
            size = 100
            password = "hunter2"
        "##,
    )
    .unwrap();
    let mut diags: Vec<Diagnostic> = Vec::new();
    let artifact =
        process(&config, "HomeNet", &Encryption::Wpa, "wifi", &mut diags).unwrap();
    assert_eq!(artifact.path, "wifi.svg");
    assert!(diags.iter().any(|d| matches!(d, Diagnostic::SmallSize { size: 100 })));
}
