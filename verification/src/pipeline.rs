use vstd::prelude::*;

use crate::get_config::entry_at;
use crate::get_config::get_config_int;
use crate::get_config::get_config_str;
use crate::get_config::get_required_str;
use crate::get_config::resolved_int;
use crate::get_config::resolved_str;
use crate::get_config::str_at;
use crate::get_config::toml_as_int;
use crate::get_config::toml_as_str;
use crate::image_ops::ExportArtifact;
use crate::image_ops::ExportData;
use crate::image_ops::MAX_RASTER_DIM;
use crate::image_ops::pixmap_height;
use crate::image_ops::pixmap_width;
use crate::image_ops::png_bytes;
use crate::image_ops::save_image;
use crate::image_ops::spec_format_ok;
use crate::image_ops::spec_with_ext;
use crate::image_ops::svg_parses;
use crate::image_ops::utf8_of;
use crate::payload::Encryption;
use crate::payload::build_payload;
use crate::payload::spec_payload;
use crate::qr::generate;
use crate::qr::qr_fits_h;
use crate::qr::qr_modules_h;
use crate::qr::qr_svg;
use crate::qr::render_svg;
use crate::qr::spec_render_dim;
use crate::report::CcError;
use crate::report::Diagnostic;
use crate::report::lemma_prefix_extend;
use crate::report::pushed_one;

verus! {

/// The visual and format settings of a run, resolved from the configuration
/// with their defaults: format `svg`, size 512, foreground `#ffffff`,
/// background `#000000`.
pub struct ResolvedSettings {
    pub format: String,
    pub size: u32,
    pub foreground: String,
    pub background: String,
}

/// The target size a document resolves to: the configured integer (or 512),
/// truncated to `u32` bits.
pub open spec fn spec_settings_size(doc: toml::Value) -> u32 {
    resolved_int(doc, "qrcode"@, "size"@, 512) as u32
}

/// `1` when resolving `section.key` as a string falls back to its default.
pub open spec fn str_fallback(doc: toml::Value, section: Seq<char>, key: Seq<char>) -> int {
    match entry_at(doc, section, key) {
        Some(v) => if toml_as_str(v) is Some {
            0
        } else {
            1
        },
        None => 1,
    }
}

/// `1` when resolving `section.key` as an integer falls back to its default.
pub open spec fn int_fallback(doc: toml::Value, section: Seq<char>, key: Seq<char>) -> int {
    match entry_at(doc, section, key) {
        Some(v) => if toml_as_int(v) is Some {
            0
        } else {
            1
        },
        None => 1,
    }
}

/// How many of the four optional settings of `doc` fall back to a default.
pub open spec fn settings_fallback_count(doc: toml::Value) -> int {
    str_fallback(doc, "qrcode"@, "export"@) + int_fallback(doc, "qrcode"@, "size"@)
        + str_fallback(doc, "colors"@, "foreground"@) + str_fallback(doc, "colors"@, "background"@)
}

/// Resolves the four optional settings, noting one diagnostic for each that
/// is absent or mistyped and so falls back to its default.
pub fn resolve_settings(config: &toml::Value, diags: &mut Vec<Diagnostic>) -> (r: ResolvedSettings)
    ensures
        r.format@ == resolved_str(*config, "qrcode"@, "export"@, "svg"@),
        r.size == spec_settings_size(*config),
        r.foreground@ == resolved_str(*config, "colors"@, "foreground"@, "#ffffff"@),
        r.background@ == resolved_str(*config, "colors"@, "background"@, "#000000"@),
        old(diags)@.is_prefix_of(final(diags)@),
        final(diags)@.len() == old(diags)@.len() + settings_fallback_count(*config),
{
    let ghost d0 = diags@;
    let format = get_config_str(config, "qrcode", "export", "svg", diags).to_owned();
    let ghost d1 = diags@;
    let size_i = get_config_int(config, "qrcode", "size", 512, diags);
    let ghost d2 = diags@;
    let foreground = get_config_str(config, "colors", "foreground", "#ffffff", diags).to_owned();
    let ghost d3 = diags@;
    let background = get_config_str(config, "colors", "background", "#000000", diags).to_owned();
    proof {
        assert(d0.is_prefix_of(d0)) by {
            assert(d0 =~= d0.subrange(0, d0.len() as int));
        }
        lemma_prefix_extend(d0, d0, d1);
        lemma_prefix_extend(d0, d1, d2);
        lemma_prefix_extend(d0, d2, d3);
        lemma_prefix_extend(d0, d3, diags@);
    }
    let size = #[verifier::truncate] (size_i as u32);
    ResolvedSettings { format, size, foreground, background }
}

/// Runs the whole pipeline on a parsed configuration: resolves the settings,
/// reads the required password, builds the WIFI-URI payload, generates the
/// QR code at level H, renders it as SVG in the resolved colors, and
/// prepares the export for the resolved format.
///
/// Diagnostics only accumulate. A target size below 256 is noted as a
/// quality warning and the run proceeds — the threshold is advisory, never
/// blocking. The errors are exactly those of the stages, in pipeline order:
/// a missing or mistyped password, a payload the encoder refuses, an
/// unsupported format, and a failed rasterization; a PNG export is owed
/// success whenever the rendered document parses back and the size is
/// positive and within `MAX_RASTER_DIM`.
pub fn process(
    config: &toml::Value,
    ssid: &str,
    encryption: &Encryption,
    output: &str,
    diags: &mut Vec<Diagnostic>,
) -> (r: Result<ExportArtifact, CcError>)
    ensures
        old(diags)@.is_prefix_of(final(diags)@),
        spec_settings_size(*config) < 256 ==> final(diags)@.contains(
            (Diagnostic::SmallSize { size: spec_settings_size(*config) }),
        ),
        ({
            let fmt = resolved_str(*config, "qrcode"@, "export"@, "svg"@);
            let size = spec_settings_size(*config);
            let fg = resolved_str(*config, "colors"@, "foreground"@, "#ffffff"@);
            let bg = resolved_str(*config, "colors"@, "background"@, "#000000"@);
            let pw = str_at(*config, "qrcode"@, "password"@);
            &&& pw is None ==> (r matches Err(e) && e == CcError::MissingRequiredField)
            &&& pw matches Some(p) ==> ({
                let payload = spec_payload(ssid@, *encryption, p);
                let doc = qr_svg(qr_modules_h(payload), spec_render_dim(size) as nat, fg, bg);
                &&& !qr_fits_h(payload) ==> (r matches Err(e) && e == CcError::Encoding)
                &&& qr_fits_h(payload) ==> ({
                    &&& !spec_format_ok(fmt) ==> (r matches Err(e) && e
                        == CcError::UnsupportedFormat)
                    &&& fmt == "svg"@ ==> (r matches Ok(a) && a.path@ == spec_with_ext(
                        output@,
                        fmt,
                    ) && (a.data matches ExportData::Svg(s) && s@ == doc))
                    &&& fmt == "png"@ ==> {
                        &&& r matches Ok(a) ==> a.path@ == spec_with_ext(output@, fmt) && (
                        a.data matches ExportData::Png(b) && (exists|px: tiny_skia::Pixmap|
                            pixmap_width(px) == size && pixmap_height(px) == size && b@
                                == png_bytes(px)))
                        &&& svg_parses(utf8_of(doc)) && 1 <= size <= MAX_RASTER_DIM ==> r is Ok
                        &&& !svg_parses(utf8_of(doc)) ==> (r matches Err(e) && e
                            == CcError::Render)
                        &&& r matches Err(e) ==> e == CcError::Render
                        &&& size == 0 ==> r is Err
                    }
                })
            })
        }),
{
    let ghost d0 = diags@;
    let settings = resolve_settings(config, diags);
    let ghost d1 = diags@;
    if settings.size < 256 {
        diags.push(Diagnostic::SmallSize { size: settings.size });
        proof {
            assert(diags@.drop_last() =~= d1);
            assert(diags@[d1.len() as int] == (Diagnostic::SmallSize { size: settings.size }));
        }
    }
    let ghost d2 = diags@;
    proof {
        lemma_prefix_extend(d0, d1, d2);
    }
    let password = match get_required_str(config, "qrcode", "password") {
        Ok(p) => p,
        Err(e) => {
            return Err(e);
        },
    };
    let payload = build_payload(ssid, encryption, password);
    let code = match generate(payload.as_str()) {
        Ok(c) => c,
        Err(e) => {
            return Err(e);
        },
    };
    let image = render_svg(
        &code,
        settings.size,
        settings.foreground.as_str(),
        settings.background.as_str(),
    );
    let r = save_image(
        output,
        settings.format.as_str(),
        image.as_str(),
        settings.size,
        diags,
    );
    proof {
        if diags@ != d2 {
            assert(pushed_one(d2, diags@));
        }
        lemma_prefix_extend(d0, d2, diags@);
        if spec_settings_size(*config) < 256 {
            let small = Diagnostic::SmallSize { size: spec_settings_size(*config) };
            assert(d2[d1.len() as int] == small);
            if diags@ != d2 {
                assert(diags@.drop_last() == d2);
                assert(diags@[d1.len() as int] == diags@.drop_last()[d1.len() as int]);
            }
            assert(diags@[d1.len() as int] == small);
            assert(diags@.contains(small));
        }
    }
    r
}

} // verus!
