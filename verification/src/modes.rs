//! The user-facing spellings of HDR modes and output types, and which
//! output types can hold pixel-exact output.

use vstd::prelude::*;
use crate::error::{ErrorView, MochifyError, result_view};
use crate::pdf::jpeg_alias;
use crate::text::{normalize_token, normalized, owned, str_eq};

verus! {

/// The spellings of "keep a gain map the source already has".
pub open spec fn hdr_preserve_word(m: Seq<char>) -> bool {
    m == "preserve"@ || m == "keep"@ || m == "1"@ || m == "true"@ || m == "on"@ || m == "yes"@
}

/// The spellings of "also synthesise a gain map for an SDR source".
pub open spec fn hdr_generate_word(m: Seq<char>) -> bool {
    m == "generate"@ || m == "gen"@ || m == "make"@ || m == "synthesize"@ || m == "synthesise"@
}

/// The wire value of an HDR mode already trimmed and lowercased: `1` for
/// preserve, `generate` for generate, and an error naming the mode otherwise.
pub open spec fn hdr_wire_value(m: Seq<char>) -> Result<Seq<char>, ErrorView> {
    if hdr_preserve_word(m) {
        Ok("1"@)
    } else if hdr_generate_word(m) {
        Ok("generate"@)
    } else {
        Err(ErrorView::UnknownHdrMode { mode: m })
    }
}

/// The wire value of an HDR mode as the user typed it (see [`hdr_wire_value`]).
pub open spec fn spec_hdr_mode(mode: Seq<char>) -> Result<Seq<char>, ErrorView> {
    hdr_wire_value(normalized(mode))
}

/// The wire value of an HDR mode already trimmed and lowercased (see
/// [`hdr_wire_value`]).
pub fn hdr_mode_from_token(m: String) -> (r: Result<String, MochifyError>)
    ensures
        result_view(r) == hdr_wire_value(m@),
        r is Ok ==> (r->Ok_0@ == "1"@ || r->Ok_0@ == "generate"@),
{
    let s = m.as_str();
    if str_eq(s, "preserve") || str_eq(s, "keep") || str_eq(s, "1") || str_eq(s, "true") || str_eq(
        s,
        "on",
    ) || str_eq(s, "yes") {
        Ok(owned("1"))
    } else if str_eq(s, "generate") || str_eq(s, "gen") || str_eq(s, "make") || str_eq(
        s,
        "synthesize",
    ) || str_eq(s, "synthesise") {
        Ok(owned("generate"))
    } else {
        Err(MochifyError::UnknownHdrMode { mode: m })
    }
}

/// Normalise a user-supplied HDR mode to the wire value (see [`spec_hdr_mode`]).
pub fn normalize_hdr_mode(mode: &str) -> (r: Result<String, MochifyError>)
    ensures
        result_view(r) == spec_hdr_mode(mode@),
        r is Ok ==> (r->Ok_0@ == "1"@ || r->Ok_0@ == "generate"@),
{
    hdr_mode_from_token(normalize_token(mode))
}

/// Formats that can hold pixel-exact output. The service answers a lossless
/// request for jpg or avif with a 400, so callers check before sending.
pub const LOSSLESS_FORMATS: [&'static str; 3] = ["jxl", "webp", "png"];

/// Whether output type `f` can hold pixel-exact output.
pub open spec fn lossless_capable(f: Seq<char>) -> bool {
    f == "jxl"@ || f == "webp"@ || f == "png"@
}

/// An output type as the user typed it, trimmed, lowercased and with `jpeg`
/// spelled `jpg`.
pub open spec fn spec_image_type(format: Seq<char>) -> Seq<char> {
    jpeg_alias(normalized(format))
}

/// An output type already trimmed and lowercased, with `jpeg` spelled `jpg`.
pub fn image_type_from_token(f: String) -> (r: String)
    ensures
        r@ == jpeg_alias(f@),
{
    if str_eq(f.as_str(), "jpeg") {
        owned("jpg")
    } else {
        f
    }
}

/// Normalise a user-supplied output type (see [`spec_image_type`]).
pub fn normalize_image_type(format: &str) -> (r: String)
    ensures
        r@ == spec_image_type(format@),
{
    image_type_from_token(normalize_token(format))
}

/// Whether output type `f` can hold pixel-exact output.
pub fn is_lossless_format(f: &str) -> (r: bool)
    ensures
        r == lossless_capable(f@),
{
    str_eq(f, "jxl") || str_eq(f, "webp") || str_eq(f, "png")
}

/// The refusal of a lossless request for normalised type `f`: `None` when it
/// can hold pixel-exact output, else the type itself.
pub open spec fn refusal_of_type(f: Seq<char>) -> Option<Seq<char>> {
    if lossless_capable(f) {
        None
    } else {
        Some(f)
    }
}

/// The type a lossless request may not go out with: `None` when `format`
/// (normalised) can hold pixel-exact output, else the normalised type.
pub open spec fn spec_lossless_refusal(format: Seq<char>) -> Option<Seq<char>> {
    refusal_of_type(spec_image_type(format))
}

/// The refusal of a lossless request for an already normalised type (see
/// [`refusal_of_type`]).
pub fn lossless_refusal_of_type(f: String) -> (r: Option<String>)
    ensures
        crate::error::opt_str(r) == refusal_of_type(f@),
{
    if is_lossless_format(f.as_str()) {
        None
    } else {
        Some(f)
    }
}

/// Check that a lossless request's type can hold pixel-exact output; on
/// refusal, hand back the normalised type to report.
pub fn lossless_refusal(format: &str) -> (r: Option<String>)
    ensures
        crate::error::opt_str(r) == spec_lossless_refusal(format@),
{
    lossless_refusal_of_type(normalize_image_type(format))
}

} // verus!
