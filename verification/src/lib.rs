pub mod get_config;
pub mod image_ops;
pub mod payload;
pub mod pipeline;
pub mod qr;
pub mod report;

pub use get_config::get_config_int;
pub use get_config::get_config_str;
pub use get_config::get_required_str;
pub use get_config::parse_config;
pub use image_ops::ExportArtifact;
pub use image_ops::ExportData;
pub use image_ops::load_svg;
pub use image_ops::pixmap_height_of;
pub use image_ops::pixmap_width_of;
pub use image_ops::save_image;
pub use image_ops::with_extension;
pub use payload::Encryption;
pub use payload::build_payload;
pub use pipeline::ResolvedSettings;
pub use pipeline::process;
pub use pipeline::resolve_settings;
pub use qr::generate;
pub use qr::qr_modules_vec;
pub use qr::render_svg;
pub use report::CcError;
pub use report::Diagnostic;
