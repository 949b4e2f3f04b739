use vstd::prelude::*;
use vstd::string::StringSliceAdditionalSpecFns;

use crate::report::CcError;
use crate::report::Diagnostic;
use crate::report::is_small_size;
use crate::report::pushed_one;

verus! {

/// The index right after the last `/` of `p`, or `0` when `p` holds none:
/// where the path's final component begins.
pub open spec fn spec_name_start(p: Seq<char>) -> int
    decreases p.len(),
{
    if p.len() == 0 {
        0
    } else if p.last() == '/' {
        p.len() as int
    } else {
        spec_name_start(p.drop_last())
    }
}

/// The index of the last `.` of `p` at a position strictly after `from`, or
/// `-1` when there is none.
pub open spec fn spec_last_dot_after(p: Seq<char>, from: int) -> int
    decreases p.len(),
{
    if p.len() == 0 || p.len() as int <= from + 1 {
        -1
    } else if p.last() == '.' {
        p.len() - 1
    } else {
        spec_last_dot_after(p.drop_last(), from)
    }
}

/// `p` with any trailing `/` separators and trailing bare `.` components
/// dropped: what remains ends in the path's effective file name, the way
/// the standard path type sees it (`a/b/.` and `a/b/` both name `a/b`).
pub open spec fn spec_strip_trailing(p: Seq<char>) -> Seq<char>
    decreases p.len(),
{
    if p.len() == 0 {
        p
    } else if p.last() == '/' {
        spec_strip_trailing(p.drop_last())
    } else if p.last() == '.' && (p.len() == 1 || p[p.len() - 2] == '/') {
        spec_strip_trailing(p.drop_last())
    } else {
        p
    }
}

/// The path with its extension replaced by `ext`.
///
/// Trailing separators and bare `.` components are dropped first, as the
/// standard path type drops them. The file name is then what follows the
/// last `/`. When that name has a `.` after its first character, everything
/// from the last such `.` on is replaced by `.ext`; otherwise `.ext` is
/// appended. A leading `.` alone marks a hidden name, not an extension. A
/// path with no file name left (empty, all separators, or ending in a `..`
/// component) is returned unchanged.
pub open spec fn spec_with_ext(p: Seq<char>, ext: Seq<char>) -> Seq<char> {
    let q = spec_strip_trailing(p);
    let ns = spec_name_start(q);
    let name = q.subrange(ns, q.len() as int);
    if q.len() == 0 || name == seq!['.', '.'] {
        p
    } else {
        let d = spec_last_dot_after(q, ns);
        if d >= 0 {
            q.subrange(0, d) + seq!['.'] + ext
        } else {
            q + seq!['.'] + ext
        }
    }
}

/// Where the final component of `p` begins.
fn find_name_start(p: &str) -> (r: usize)
    ensures
        r as int == spec_name_start(p@),
        r <= p@.len(),
{
    let n = p.unicode_len();
    proof {
        assert(p@.subrange(0, n as int) =~= p@);
    }
    let mut i: usize = n;
    while i > 0
        invariant
            i <= n,
            n == p@.len(),
            spec_name_start(p@) == spec_name_start(p@.subrange(0, i as int)),
        decreases i,
    {
        if p.get_char(i - 1) == '/' {
            proof {
                assert(p@.subrange(0, i as int).last() == '/');
            }
            return i;
        }
        proof {
            assert(p@.subrange(0, i as int).drop_last() =~= p@.subrange(0, i as int - 1));
        }
        i = i - 1;
    }
    proof {
        assert(p@.subrange(0, 0) =~= Seq::<char>::empty());
    }
    0
}

/// The index of the last `.` of `p` strictly after `from`, if any.
fn find_last_dot_after(p: &str, from: usize) -> (r: Option<usize>)
    ensures
        r matches Some(i) ==> spec_last_dot_after(p@, from as int) == i as int && i < p@.len(),
        r is None ==> spec_last_dot_after(p@, from as int) == -1,
{
    let n = p.unicode_len();
    proof {
        assert(p@.subrange(0, n as int) =~= p@);
    }
    let mut i: usize = n;
    while i > 0 && i - 1 > from
        invariant
            i <= n,
            n == p@.len(),
            spec_last_dot_after(p@, from as int) == spec_last_dot_after(
                p@.subrange(0, i as int),
                from as int,
            ),
        decreases i,
    {
        if p.get_char(i - 1) == '.' {
            proof {
                assert(p@.subrange(0, i as int).last() == '.');
            }
            return Some(i - 1);
        }
        proof {
            assert(p@.subrange(0, i as int).drop_last() =~= p@.subrange(0, i as int - 1));
        }
        i = i - 1;
    }
    None
}

/// How many leading characters of `p` survive the trailing strip.
fn strip_trailing_len(p: &str) -> (r: usize)
    ensures
        r <= p@.len(),
        spec_strip_trailing(p@) == p@.subrange(0, r as int),
{
    let n = p.unicode_len();
    proof {
        assert(p@.subrange(0, n as int) =~= p@);
    }
    let mut m: usize = n;
    while m > 0
        invariant
            m <= n,
            n == p@.len(),
            spec_strip_trailing(p@) == spec_strip_trailing(p@.subrange(0, m as int)),
        decreases m,
    {
        let c = p.get_char(m - 1);
        let strippable = c == '/' || (c == '.' && (m == 1 || p.get_char(m - 2) == '/'));
        if !strippable {
            proof {
                let q = p@.subrange(0, m as int);
                assert(q.last() == c);
                if m >= 2 {
                    assert(q[m as int - 2] == p@[m as int - 2]);
                }
                assert(spec_strip_trailing(q) == q);
            }
            return m;
        }
        proof {
            assert(p@.subrange(0, m as int).drop_last() =~= p@.subrange(0, m as int - 1));
        }
        m = m - 1;
    }
    proof {
        assert(p@.subrange(0, 0) =~= Seq::<char>::empty());
    }
    0
}

/// Derives the output path for a format tag: the path with its extension
/// replaced by (or, failing an existing one, extended with) `.ext`, exactly
/// as `spec_with_ext` lays it out.
pub fn with_extension(path: &str, ext: &str) -> (r: String)
    ensures
        r@ == spec_with_ext(path@, ext@),
{
    proof {
        reveal_strlit(".");
        assert("."@ =~= seq!['.']);
    }
    let m = strip_trailing_len(path);
    if m == 0 {
        return path.to_owned();
    }
    let stripped = path.substring_char(0, m);
    let ns = find_name_start(stripped);
    let name_len = m - ns;
    if name_len == 2 && stripped.get_char(ns) == '.' && stripped.get_char(ns + 1) == '.' {
        proof {
            assert(stripped@.subrange(ns as int, m as int) =~= seq!['.', '.']);
        }
        return path.to_owned();
    }
    proof {
        let name = stripped@.subrange(ns as int, m as int);
        assert(name != seq!['.', '.']) by {
            if name.len() == 2 {
                assert(name[0] == stripped@[ns as int]);
                assert(name[1] == stripped@[ns as int + 1]);
            }
        }
    }
    match find_last_dot_after(stripped, ns) {
        Some(d) => {
            let base = stripped.substring_char(0, d);
            let mut r = base.to_owned();
            r.append(".");
            r.append(ext);
            r
        },
        None => {
            let mut r = stripped.to_owned();
            r.append(".");
            r.append(ext);
            r
        },
    }
}

#[verifier::external_type_specification]
#[verifier::external_body]
pub struct ExUsvgTree(usvg::Tree);

#[verifier::external_type_specification]
#[verifier::external_body]
pub struct ExUsvgError(usvg::Error);

#[verifier::external_type_specification]
#[verifier::external_body]
pub struct ExPixmap(tiny_skia::Pixmap);

/// Whether the bytes parse as an SVG document under default options: whether
/// `usvg::Tree::from_data` succeeds. The parser is deterministic, so this
/// depends on the bytes alone.
pub uninterp spec fn svg_parses(data: Seq<u8>) -> bool;

/// The UTF-8 encoding of a character sequence: what `str::as_bytes` returns,
/// as a function of the characters alone.
pub uninterp spec fn utf8_of(s: Seq<char>) -> Seq<u8>;

/// The width of a pixel buffer: what `tiny_skia::Pixmap::width` returns.
pub uninterp spec fn pixmap_width(p: tiny_skia::Pixmap) -> u32;

/// The height of a pixel buffer: what `tiny_skia::Pixmap::height` returns.
pub uninterp spec fn pixmap_height(p: tiny_skia::Pixmap) -> u32;

/// The PNG encoding of a pixel buffer: what `tiny_skia::Pixmap::encode_png`
/// returns, a deterministic in-memory encoding of the buffer.
pub uninterp spec fn png_bytes(p: tiny_skia::Pixmap) -> Seq<u8>;

/// Dimensions at or below this bound are guaranteed a successful pixel
/// buffer allocation; the buffer then takes at most 2^30 bytes, within the
/// size arithmetic of any machine.
pub const MAX_RASTER_DIM: u32 = 16384;

/// Relies on `str::as_bytes`: the UTF-8 encoding of a string is determined
/// by its characters.
#[verifier::external_body]
fn str_bytes(s: &str) -> (r: &[u8])
    ensures
        r@ == utf8_of(s@),
{
    s.as_bytes()
}

/// Relies on `usvg::Tree::from_data` with default options: builds the scene
/// tree for an SVG document; success depends on the bytes alone.
#[verifier::external_body]
fn svg_tree_from_data(data: &[u8]) -> (r: Result<usvg::Tree, usvg::Error>)
    ensures
        r is Ok <==> svg_parses(data@),
{
    usvg::Tree::from_data(data, &usvg::Options::default())
}

/// Relies on `tiny_skia::Pixmap::new`: allocates a zeroed pixel buffer of
/// the given dimensions. It returns `None` exactly on a zero dimension or
/// on a size-computation overflow, which cannot occur at or below
/// `MAX_RASTER_DIM`.
#[verifier::external_body]
fn pixmap_new(w: u32, h: u32) -> (r: Option<tiny_skia::Pixmap>)
    ensures
        r matches Some(p) ==> pixmap_width(p) == w && pixmap_height(p) == h,
        w == 0 || h == 0 ==> r is None,
        1 <= w <= MAX_RASTER_DIM && 1 <= h <= MAX_RASTER_DIM ==> r is Some,
{
    tiny_skia::Pixmap::new(w, h)
}

/// Relies on `resvg::render` with the identity transform: rasterizes the
/// tree onto the pixel buffer. It writes pixels only; the buffer keeps its
/// dimensions.
#[verifier::external_body]
fn render_tree_onto(tree: &usvg::Tree, pixmap: &mut tiny_skia::Pixmap)
    ensures
        pixmap_width(*final(pixmap)) == pixmap_width(*old(pixmap)),
        pixmap_height(*final(pixmap)) == pixmap_height(*old(pixmap)),
{
    resvg::render(tree, tiny_skia::Transform::default(), &mut pixmap.as_mut());
}

/// Relies on `tiny_skia::Pixmap::encode_png`: encodes the buffer as PNG in
/// memory; the encoding is a deterministic function of the buffer. It
/// always succeeds: the PNG encoder writes into an in-memory vector, the
/// pixmap's dimensions are non-zero by construction, and the buffer it
/// hands over has exactly the size the encoder expects.
#[verifier::external_body]
fn encode_png_vec(p: &tiny_skia::Pixmap) -> (r: Option<Vec<u8>>)
    ensures
        r is Some,
        r matches Some(v) ==> v@ == png_bytes(*p),
{
    p.encode_png().ok()
}

/// Relies on `tiny_skia::Pixmap::width` for reading a buffer's width.
#[verifier::external_body]
pub fn pixmap_width_of(p: &tiny_skia::Pixmap) -> (r: u32)
    ensures
        r == pixmap_width(*p),
{
    p.width()
}

/// Relies on `tiny_skia::Pixmap::height` for reading a buffer's height.
#[verifier::external_body]
pub fn pixmap_height_of(p: &tiny_skia::Pixmap) -> (r: u32)
    ensures
        r == pixmap_height(*p),
{
    p.height()
}

/// Whether two strings hold the same characters.
fn str_eq(a: &str, b: &str) -> (r: bool)
    ensures
        r == (a@ == b@),
{
    let x: String = a.to_owned();
    let y: String = b.to_owned();
    x == y
}

/// Parses an SVG document and rasterizes it onto a freshly allocated square
/// pixel buffer of the given side length.
///
/// Succeeds whenever the document parses and the size is positive and at
/// most `MAX_RASTER_DIM`; a successful buffer always has exactly the
/// requested dimensions.
pub fn load_svg(contents: &[u8], size: u32) -> (r: Result<tiny_skia::Pixmap, CcError>)
    ensures
        r matches Ok(p) ==> pixmap_width(p) == size && pixmap_height(p) == size,
        r matches Err(e) ==> e == CcError::Render,
        r is Ok ==> svg_parses(contents@) && size >= 1,
        svg_parses(contents@) && 1 <= size <= MAX_RASTER_DIM ==> r is Ok,
{
    let tree = match svg_tree_from_data(contents) {
        Ok(t) => t,
        Err(_) => {
            return Err(CcError::Render);
        },
    };
    let mut pixmap = match pixmap_new(size, size) {
        Some(p) => p,
        None => {
            return Err(CcError::Render);
        },
    };
    render_tree_onto(&tree, &mut pixmap);
    Ok(pixmap)
}

/// The content of a finished export: either the SVG text itself or the PNG
/// encoding of its rasterization.
pub enum ExportData {
    Svg(String),
    Png(Vec<u8>),
}

/// A finished export: the derived output path and the bytes that belong
/// there. Writing the file is the caller's part; nothing here touches the
/// filesystem.
pub struct ExportArtifact {
    pub path: String,
    pub data: ExportData,
}

/// The supported export formats.
pub open spec fn spec_format_ok(format: Seq<char>) -> bool {
    format == "svg"@ || format == "png"@
}

/// Prepares an image for saving.
///
/// The format must be `svg` or `png`; any other tag fails with
/// `UnsupportedFormat` before anything else happens. The output path gets
/// its extension replaced by the format tag. An SVG export carries the
/// document verbatim and always succeeds. A PNG export rasterizes the
/// document at `size`×`size` via `load_svg` and encodes the buffer, noting
/// a diagnostic first when `size` is at or below the soft quality threshold
/// of 256 — the threshold is advisory, never blocking: the export succeeds
/// whenever the document parses and the size is positive and within
/// `MAX_RASTER_DIM`, and fails with `Render` otherwise.
pub fn save_image(
    output: &str,
    format: &str,
    image: &str,
    size: u32,
    diags: &mut Vec<Diagnostic>,
) -> (r: Result<ExportArtifact, CcError>)
    ensures
        !spec_format_ok(format@) ==> (r matches Err(e) && e == CcError::UnsupportedFormat
            && final(diags)@ == old(diags)@),
        format@ == "svg"@ ==> (r matches Ok(a) && a.path@ == spec_with_ext(output@, format@)
            && (a.data matches ExportData::Svg(s) && s@ == image@)
            && final(diags)@ == old(diags)@),
        format@ == "png"@ ==> {
            &&& size <= 256 ==> pushed_one(old(diags)@, final(diags)@)
                && is_small_size(final(diags)@.last(), size)
            &&& size > 256 ==> final(diags)@ == old(diags)@
            &&& r matches Ok(a) ==> a.path@ == spec_with_ext(output@, format@)
                && (a.data matches ExportData::Png(b)
                    && (exists|p: tiny_skia::Pixmap|
                        pixmap_width(p) == size && pixmap_height(p) == size && b@ == png_bytes(p)))
            &&& r is Ok ==> svg_parses(utf8_of(image@)) && size >= 1
            &&& svg_parses(utf8_of(image@)) && 1 <= size <= MAX_RASTER_DIM ==> r is Ok
            &&& !svg_parses(utf8_of(image@)) ==> (r matches Err(e) && e == CcError::Render)
            &&& size == 0 ==> r is Err
            &&& r matches Err(e) ==> e == CcError::Render
        },
{
    proof {
        reveal_strlit("svg");
        reveal_strlit("png");
        assert("svg"@[0] == 's' && "png"@[0] == 'p');
        assert("svg"@ != "png"@);
    }
    let is_svg = str_eq(format, "svg");
    let is_png = str_eq(format, "png");
    if !is_svg && !is_png {
        return Err(CcError::UnsupportedFormat);
    }
    let file_path = with_extension(output, format);
    if is_svg {
        Ok(ExportArtifact { path: file_path, data: ExportData::Svg(image.to_owned()) })
    } else {
        if size <= 256 {
            diags.push(Diagnostic::SmallSize { size });
            proof {
                assert(diags@.drop_last() =~= old(diags)@);
            }
        }
        let pixmap = match load_svg(str_bytes(image), size) {
            Ok(p) => p,
            Err(e) => {
                return Err(e);
            },
        };
        let bytes = encode_png_vec(&pixmap).unwrap();
        proof {
            assert(pixmap_width(pixmap) == size && pixmap_height(pixmap) == size
                && bytes@ == png_bytes(pixmap));
        }
        Ok(ExportArtifact { path: file_path, data: ExportData::Png(bytes) })
    }
}

} // verus!
