use ciphercanvas::CcError;

#[test]
fn test_error_messages() {
    assert_eq!(
        CcError::ConfigParse.describe(),
        "failed to parse the TOML configuration"
    );
    assert_eq!(
        CcError::MissingRequiredField.describe(),
        "missing or mistyped required configuration field"
    );
    assert_eq!(CcError::UnsupportedFormat.describe(), "unsupported image format");
    assert_eq!(CcError::Encoding.describe(), "failed to generate the QR code");
    assert_eq!(CcError::Render.describe(), "failed to render the QR code to a raster");
    assert_eq!(CcError::Io.describe(), "failed to write the output");
}
