use vstd::prelude::*;

verus! {

/// The fatal errors of the pipeline, one variant per failure class.
///
/// `Io` is raised only by callers that perform the actual file writes; the
/// functions of this crate never touch the filesystem themselves.
#[derive(Clone, Copy, Debug, PartialEq, Eq, Structural)]
pub enum CcError {
    /// The configuration text is not valid TOML.
    ConfigParse,
    /// A required field (the password) is absent or has the wrong type.
    MissingRequiredField,
    /// The requested export format is outside the supported set.
    UnsupportedFormat,
    /// The payload exceeds the encoder's capacity at the fixed
    /// error-correction level.
    Encoding,
    /// The vector document could not be turned into a pixel buffer.
    Render,
    /// Writing or encoding the output failed.
    Io,
}

/// The message that `CcError::describe` returns for each variant.
pub open spec fn spec_error_message(e: CcError) -> Seq<char> {
    match e {
        CcError::ConfigParse => "failed to parse the TOML configuration"@,
        CcError::MissingRequiredField => "missing or mistyped required configuration field"@,
        CcError::UnsupportedFormat => "unsupported image format"@,
        CcError::Encoding => "failed to generate the QR code"@,
        CcError::Render => "failed to render the QR code to a raster"@,
        CcError::Io => "failed to write the output"@,
    }
}

impl CcError {
    /// A short human-readable description of the error.
    pub fn describe(&self) -> (r: String)
        ensures
            r@ == spec_error_message(*self),
    {
        let msg = match self {
            CcError::ConfigParse => "failed to parse the TOML configuration",
            CcError::MissingRequiredField => "missing or mistyped required configuration field",
            CcError::UnsupportedFormat => "unsupported image format",
            CcError::Encoding => "failed to generate the QR code",
            CcError::Render => "failed to render the QR code to a raster",
            CcError::Io => "failed to write the output",
        };
        msg.to_owned()
    }
}

/// A non-fatal finding made while resolving the configuration or exporting
/// the image. The pipeline collects these instead of logging directly, so
/// that callers decide how to report them.
#[derive(Debug)]
pub enum Diagnostic {
    /// A string-valued optional key was absent; `fallback` was used.
    MissingStr { section: String, key: String, fallback: String },
    /// A string-valued optional key was present with a non-string value;
    /// `fallback` was used.
    WrongTypeStr { section: String, key: String, fallback: String },
    /// An integer-valued optional key was absent; `fallback` was used.
    MissingInt { section: String, key: String, fallback: i64 },
    /// An integer-valued optional key was present with a non-integer value;
    /// `fallback` was used.
    WrongTypeInt { section: String, key: String, fallback: i64 },
    /// The target size is at or below the soft quality threshold; the export
    /// proceeds anyway.
    SmallSize { size: u32 },
}

/// Holds when `d` reports an absent string key at `section.key` with the
/// given fallback.
pub open spec fn is_missing_str(d: Diagnostic, section: Seq<char>, key: Seq<char>, fallback: Seq<char>) -> bool {
    &&& d matches Diagnostic::MissingStr { section: s, key: k, fallback: f }
    &&& s@ == section
    &&& k@ == key
    &&& f@ == fallback
}

/// Holds when `d` reports a mistyped string key at `section.key` with the
/// given fallback.
pub open spec fn is_wrong_type_str(d: Diagnostic, section: Seq<char>, key: Seq<char>, fallback: Seq<char>) -> bool {
    &&& d matches Diagnostic::WrongTypeStr { section: s, key: k, fallback: f }
    &&& s@ == section
    &&& k@ == key
    &&& f@ == fallback
}

/// Holds when `d` reports an absent integer key at `section.key` with the
/// given fallback.
pub open spec fn is_missing_int(d: Diagnostic, section: Seq<char>, key: Seq<char>, fallback: i64) -> bool {
    &&& d matches Diagnostic::MissingInt { section: s, key: k, fallback: f }
    &&& s@ == section
    &&& k@ == key
    &&& f == fallback
}

/// Holds when `d` reports a mistyped integer key at `section.key` with the
/// given fallback.
pub open spec fn is_wrong_type_int(d: Diagnostic, section: Seq<char>, key: Seq<char>, fallback: i64) -> bool {
    &&& d matches Diagnostic::WrongTypeInt { section: s, key: k, fallback: f }
    &&& s@ == section
    &&& k@ == key
    &&& f == fallback
}

/// Holds when `d` reports a target size at or below the soft threshold.
pub open spec fn is_small_size(d: Diagnostic, size: u32) -> bool {
    &&& d matches Diagnostic::SmallSize { size: s }
    &&& s == size
}

/// Holds when `new_s` is `old_s` with exactly one element appended.
pub open spec fn pushed_one(old_s: Seq<Diagnostic>, new_s: Seq<Diagnostic>) -> bool {
    &&& new_s.len() == old_s.len() + 1
    &&& new_s.drop_last() == old_s
}

/// A diagnostics log only ever grows: a step that leaves it alone or
/// appends one element keeps every earlier prefix a prefix.
pub proof fn lemma_prefix_extend(a: Seq<Diagnostic>, b: Seq<Diagnostic>, c: Seq<Diagnostic>)
    requires
        a.is_prefix_of(b),
        b == c || pushed_one(b, c),
    ensures
        a.is_prefix_of(c),
{
    if b != c {
        assert(c.drop_last() == b);
        assert(a =~= c.subrange(0, a.len() as int)) by {
            assert(forall|i: int|
                0 <= i < b.len() ==> c.subrange(0, b.len() as int)[i] == #[trigger] c[i]);
            assert(forall|i: int| 0 <= i < a.len() ==> a[i] == #[trigger] b[i]);
            assert(forall|i: int| 0 <= i < b.len() ==> #[trigger] b[i] == c.drop_last()[i]);
        }
    }
}

} // verus!
