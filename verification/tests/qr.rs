use ciphercanvas::CcError;
use ciphercanvas::generate;
use ciphercanvas::qr_modules_vec;
use ciphercanvas::render_svg;

#[test]
fn test_generate_deterministic_modules() {
    let payload = "WIFI:S:HomeNet;T:WPA;P:hunter2;;";
    let first = generate(payload).unwrap();
    let second = generate(payload).unwrap();
    assert_eq!(qr_modules_vec(&first), qr_modules_vec(&second));
}

#[test]
fn test_generate_matches_encoder() {
    let payload = "WIFI:S:HomeNet;T:WPA;P:hunter2;;";
    let code = generate(payload).unwrap();
    let rows = qr_modules_vec(&code);

    let direct =
        qrcode::QrCode::with_error_correction_level(payload.as_bytes(), qrcode::EcLevel::H)
            .unwrap();
    let width = direct.width();
    let colors = direct.to_colors();
    assert_eq!(rows.len(), width);
    for (y, row) in rows.iter().enumerate() {
        assert_eq!(row.len(), width);
        for (x, dark) in row.iter().enumerate() {
            assert_eq!(*dark, colors[y * width + x] == qrcode::Color::Dark);
        }
    }
}

#[test]
fn test_generate_level_h() {
    let payload = "WIFI:S:HomeNet;T:WPA;P:hunter2;;";
    let code = generate(payload).unwrap();
    let rows = qr_modules_vec(&code);

    let medium = qrcode::QrCode::new(payload.as_bytes()).unwrap();
    let level_h =
        qrcode::QrCode::with_error_correction_level(payload.as_bytes(), qrcode::EcLevel::H)
            .unwrap();
    // Level H needs a larger version than level M for this payload, so an
    // encoder that ignored the level would produce a smaller grid.
    assert!(level_h.width() > medium.width());
    assert_eq!(rows.len(), level_h.width());
}

#[test]
fn test_generate_too_long_fails() {
    let payload = "a".repeat(3000);
    let result = generate(&payload);
    assert!(matches!(result, Err(CcError::Encoding)));
}

#[test]
fn test_render_svg_matches_renderer() {
    let payload = "WIFI:S:HomeNet;T:WPA;P:hunter2;;";
    let code = generate(payload).unwrap();
    let document = render_svg(&code, 512, "#ffffff", "#000000");

    let direct =
        qrcode::QrCode::with_error_correction_level(payload.as_bytes(), qrcode::EcLevel::H)
            .unwrap();
    let expected = direct
        .render::<qrcode::render::svg::Color>()
        .min_dimensions(512, 512)
        .dark_color(qrcode::render::svg::Color("#ffffff"))
        .light_color(qrcode::render::svg::Color("#000000"))
        .build();
    assert_eq!(document, expected);
}

#[test]
fn test_render_svg_carries_colors() {
    let code = generate("WIFI:S:HomeNet;T:WPA;P:hunter2;;").unwrap();
    let document = render_svg(&code, 512, "#123456", "#abcdef");
    assert!(document.contains("#123456"));
    assert!(document.contains("#abcdef"));
}
