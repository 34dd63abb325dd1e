//! The tool interface: the arguments each tool takes, how they become a
//! request, and the text each tool answers with.

use vstd::prelude::*;
use crate::error::{ErrorView, MochifyError, clone_opt_str, error_text, opt_str, result_view};
use crate::meta::UsageInfo;
use crate::modes::{lossless_refusal, normalize_hdr_mode, spec_hdr_mode, spec_lossless_refusal};
use crate::naming::{ascii_eq_ignore_case, eq_ignore_ascii_case};
use crate::params::{ProcessParams, ProcessParamsView};
use crate::pdf::{PdfOptions, PdfOptionsView, PdfParams, PdfParamsView, spec_for_op};
use crate::text::{decimal, normalized, owned, push_signed, signed_decimal, str_eq, str_trimmed, trim_str};

verus! {

/// Arguments of the image tool.
#[derive(Debug)]
pub struct SquishInput {
    /// Absolute path to the input image on the user's filesystem.
    pub file_path: String,
    /// Output format: jpg, png, webp, avif, or jxl.
    pub format: Option<String>,
    pub width: Option<u32>,
    pub height: Option<u32>,
    pub crop: Option<bool>,
    /// Rotation in degrees: 0, 90, 180, or 270.
    pub rotation: Option<u32>,
    /// Output directory; by default the input's own.
    pub output_dir: Option<String>,
    /// Base name for the output file (without extension).
    pub output_name: Option<String>,
    pub clarity: Option<bool>,
    pub remove_background: Option<bool>,
    pub background: Option<String>,
    /// Strip EXIF/metadata; metadata is removed unless this is false.
    pub strip_metadata: Option<bool>,
    pub quality: Option<u32>,
    pub smart_compress: Option<bool>,
    pub brightness: Option<i32>,
    pub optimize_for_web: Option<bool>,
    pub lossless: Option<bool>,
    /// Gain map mode: preserve or generate.
    pub hdr: Option<String>,
}

/// Arguments of the PDF tool.
#[derive(Debug)]
pub struct PdfInput {
    /// Absolute path to the input PDF.
    pub file_path: String,
    /// optimize, extract, rasterize or split; rasterize when absent.
    pub op: Option<String>,
    pub format: Option<String>,
    pub dpi: Option<u32>,
    pub quality: Option<u32>,
    pub max_width: Option<u32>,
    pub min_size: Option<u32>,
    pub output_dir: Option<String>,
}

/// Arguments of the build-a-PDF tool.
#[derive(Debug)]
pub struct PdfCreateInput {
    /// Absolute paths of the images, in page order.
    pub file_paths: Vec<String>,
    pub page: Option<String>,
    pub quality: Option<u32>,
    pub dpi: Option<u32>,
    pub max_width: Option<u32>,
    pub combine: Option<bool>,
    pub output_name: Option<String>,
    pub output_dir: Option<String>,
}

/// The image parameters the tool's arguments give, with the HDR mode
/// already normalised to `hdr`.
pub open spec fn squish_input_view(i: SquishInput, hdr: Option<Seq<char>>) -> ProcessParamsView {
    ProcessParamsView {
        format: opt_str(i.format),
        width: i.width,
        height: i.height,
        crop: i.crop,
        rotation: i.rotation,
        out_name_suffix: None,
        output_name: opt_str(i.output_name),
        clarity: i.clarity,
        remove_background: i.remove_background,
        background: opt_str(i.background),
        strip_exif: i.strip_metadata,
        hdr,
        quality: i.quality,
        smart_compress: i.smart_compress,
        brightness: i.brightness,
        optimize_for_web: i.optimize_for_web,
        lossless: i.lossless,
    }
}

/// The image tool's request: the HDR mode must be a known spelling, and a
/// lossless request must name a type that can hold pixel-exact output.
pub open spec fn spec_squish_tool_params(i: SquishInput) -> Result<ProcessParamsView, ErrorView> {
    let hdr: Result<Option<Seq<char>>, ErrorView> = match i.hdr {
        Some(m) => match spec_hdr_mode(m@) {
            Ok(h) => Ok(Some(h)),
            Err(e) => Err(e),
        },
        None => Ok(None),
    };
    match hdr {
        Err(e) => Err(e),
        Ok(h) => if i.lossless == Some(true) && i.format is Some && spec_lossless_refusal(
            i.format->0@,
        ) is Some {
            Err(ErrorView::ToolLosslessUnsupported { format: spec_lossless_refusal(i.format->0@)->0 })
        } else {
            Ok(squish_input_view(i, h))
        },
    }
}

/// Check the image tool's arguments and build its request parameters (see
/// [`spec_squish_tool_params`]).
pub fn squish_tool_params(input: &SquishInput) -> (r: Result<ProcessParams, MochifyError>)
    ensures
        result_view(r) == spec_squish_tool_params(*input),
{
    let hdr = match &input.hdr {
        Some(mode) => match normalize_hdr_mode(mode.as_str()) {
            Ok(v) => Some(v),
            Err(e) => {
                return Err(e);
            },
        },
        None => None,
    };
    if crate::params::is_some_true(input.lossless) {
        if let Some(fmt) = &input.format {
            if let Some(bad) = lossless_refusal(fmt.as_str()) {
                return Err(MochifyError::ToolLosslessUnsupported { format: bad });
            }
        }
    }
    Ok(
        ProcessParams {
            format: clone_opt_str(&input.format),
            width: input.width,
            height: input.height,
            crop: input.crop,
            rotation: input.rotation,
            out_name_suffix: None,
            output_name: clone_opt_str(&input.output_name),
            clarity: input.clarity,
            remove_background: input.remove_background,
            background: clone_opt_str(&input.background),
            strip_exif: input.strip_metadata,
            hdr,
            quality: input.quality,
            smart_compress: input.smart_compress,
            brightness: input.brightness,
            optimize_for_web: input.optimize_for_web,
            lossless: input.lossless,
        },
    )
}

/// What the image tool says about the gain map of its result, from the
/// service's report; nothing when HDR was not requested.
pub open spec fn spec_tool_hdr_note(requested: bool, header: Option<Seq<char>>) -> Seq<char> {
    if !requested {
        Seq::empty()
    } else if header == Some("true"@) {
        " (HDR gain map preserved from the source)"@
    } else if header == Some("generated"@) {
        " (HDR gain map generated)"@
    } else if header == Some("false"@) {
        " (no HDR gain map in the output — only jpg output can carry one)"@
    } else {
        Seq::empty()
    }
}

/// What the image tool says about the gain map of its result.
pub fn tool_hdr_note(params: &ProcessParams, header: &Option<String>) -> (r: &'static str)
    ensures
        r@ == spec_tool_hdr_note(params.hdr is Some, opt_str(*header)),
{
    proof {
        reveal_strlit("");
    }
    if params.hdr.is_none() {
        return "";
    }
    match header {
        Some(h) => {
            let h = h.as_str();
            if str_eq(h, "true") {
                " (HDR gain map preserved from the source)"
            } else if str_eq(h, "generated") {
                " (HDR gain map generated)"
            } else if str_eq(h, "false") {
                " (no HDR gain map in the output — only jpg output can carry one)"
            } else {
                ""
            }
        },
        None => "",
    }
}

/// What the image tool says about a lossless request's result; nothing
/// unless lossless was requested.
pub open spec fn spec_tool_lossless_note(lossless: Option<bool>, header: Option<Seq<char>>) -> Seq<char> {
    if lossless != Some(true) {
        Seq::empty()
    } else if header == Some("downgraded"@) {
        " (source was already lossy — encoded at the best lossy setting instead of pixel-exact)"@
    } else if header == Some("true"@) {
        " (pixel-exact)"@
    } else {
        Seq::empty()
    }
}

/// What the image tool says about a lossless request's result.
pub fn tool_lossless_note(params: &ProcessParams, header: &Option<String>) -> (r: &'static str)
    ensures
        r@ == spec_tool_lossless_note(params.lossless, opt_str(*header)),
{
    proof {
        reveal_strlit("");
    }
    if !crate::params::is_some_true(params.lossless) {
        return "";
    }
    match header {
        Some(h) => {
            let h = h.as_str();
            if str_eq(h, "downgraded") {
                " (source was already lossy — encoded at the best lossy setting instead of pixel-exact)"
            } else if str_eq(h, "true") {
                " (pixel-exact)"
            } else {
                ""
            }
        },
        None => "",
    }
}

/// The quota note a tool appends: the remaining count when usage could be
/// fetched, nothing otherwise.
pub open spec fn spec_usage_note(remaining: Option<i32>) -> Seq<char> {
    match remaining {
        Some(n) => " ("@ + signed_decimal(n as int) + " requests remaining today)"@,
        None => Seq::empty(),
    }
}

/// The quota note a tool appends.
pub fn usage_note(remaining: Option<i32>) -> (r: String)
    ensures
        r@ == spec_usage_note(remaining),
{
    match remaining {
        Some(n) => {
            let mut s = owned(" (");
            push_signed(&mut s, n);
            s.concat(" requests remaining today)")
        },
        None => String::new(),
    }
}

/// The PDF tool's request: the operation defaults to rasterize and may not
/// be create, which has a tool of its own.
pub open spec fn spec_pdf_tool_params(i: PdfInput) -> Result<PdfParamsView, ErrorView> {
    let op = match i.op {
        Some(o) => o@,
        None => "rasterize"@,
    };
    if eq_ignore_ascii_case(str_trimmed(op), "create"@) {
        Err(ErrorView::ToolCreateRefused)
    } else {
        spec_for_op(
            normalized(op),
            PdfOptionsView {
                format: opt_str(i.format),
                dpi: i.dpi,
                quality: i.quality,
                max_width: i.max_width,
                min_size: i.min_size,
                page: None,
                combine: None,
            },
        )
    }
}

/// Check the PDF tool's arguments and build its request (see [`spec_pdf_tool_params`]).
pub fn pdf_tool_params(input: &PdfInput) -> (r: Result<PdfParams, MochifyError>)
    ensures
        result_view(r) == spec_pdf_tool_params(*input),
{
    let op = match &input.op {
        Some(o) => o.clone(),
        None => owned("rasterize"),
    };
    if ascii_eq_ignore_case(trim_str(op.as_str()), "create") {
        return Err(MochifyError::ToolCreateRefused);
    }
    PdfParams::for_op(
        op.as_str(),
        PdfOptions {
            format: clone_opt_str(&input.format),
            dpi: input.dpi,
            quality: input.quality,
            max_width: input.max_width,
            min_size: input.min_size,
            page: None,
            combine: None,
        },
    )
}

/// What the PDF tool says about an `optimize` result: how much smaller it
/// got, or that the original came back unchanged.
pub open spec fn spec_saved_note(op: Seq<char>, pct: Option<Seq<char>>) -> Seq<char> {
    if op == "optimize"@ && pct is Some {
        if pct->0 == "0"@ {
            " (already well optimized — the original was returned unchanged)"@
        } else {
            " ("@ + pct->0 + "% smaller)"@
        }
    } else {
        Seq::empty()
    }
}

/// What the PDF tool says about an `optimize` result.
pub fn saved_note(params: &PdfParams, pct: &Option<String>) -> (r: String)
    ensures
        r@ == spec_saved_note(params.op@, opt_str(*pct)),
{
    if str_eq(params.op.as_str(), "optimize") {
        match pct {
            Some(p) => {
                if str_eq(p.as_str(), "0") {
                    return owned(" (already well optimized — the original was returned unchanged)");
                } else {
                    return owned(" (").concat(p.as_str()).concat("% smaller)");
                }
            },
            None => {},
        }
    }
    String::new()
}

/// The build-a-PDF tool's request: at least one image, then `create` with
/// the tool's options.
pub open spec fn spec_pdf_create_tool_params(i: PdfCreateInput) -> Result<PdfParamsView, ErrorView> {
    if i.file_paths@.len() == 0 {
        Err(ErrorView::ToolNoImages)
    } else {
        spec_for_op(
            normalized("create"@),
            PdfOptionsView {
                format: None,
                dpi: i.dpi,
                quality: i.quality,
                max_width: i.max_width,
                min_size: None,
                page: opt_str(i.page),
                combine: i.combine,
            },
        )
    }
}

/// Check the build-a-PDF tool's arguments and build its request (see
/// [`spec_pdf_create_tool_params`]).
pub fn pdf_create_tool_params(input: &PdfCreateInput) -> (r: Result<PdfParams, MochifyError>)
    ensures
        result_view(r) == spec_pdf_create_tool_params(*input),
{
    if input.file_paths.len() == 0 {
        return Err(MochifyError::ToolNoImages);
    }
    PdfParams::for_op(
        "create",
        PdfOptions {
            format: None,
            dpi: input.dpi,
            quality: input.quality,
            max_width: input.max_width,
            min_size: None,
            page: clone_opt_str(&input.page),
            combine: input.combine,
        },
    )
}

/// A tool's answer when it fails: `Error: ` and the error's text.
pub fn tool_error_text(e: &MochifyError) -> (r: String)
    ensures
        r@ == "Error: "@ + error_text(e@),
{
    owned("Error: ").concat(e.message().as_str())
}

/// The usage report: `R of Q operations` when there is a quota (else `R
/// operations`), the plan when known, and advice when nothing is available.
pub open spec fn spec_usage_report(u: UsageInfo) -> Seq<char> {
    let plan = if u.plan@.len() == 0 {
        Seq::empty()
    } else {
        " on the "@ + u.plan@ + " plan"@
    };
    let count = if u.quota > 0 {
        signed_decimal(u.remaining as int) + " of "@ + signed_decimal(u.quota as int)
            + " operations"@
    } else {
        signed_decimal(u.remaining as int) + " operations"@
    };
    if u.available {
        count + " remaining this billing period"@ + plan + "."@
    } else {
        count + " remaining this billing period"@ + plan
            + ". Nothing is available right now — upgrade the plan or wait for the next cycle."@
    }
}

/// The usage tool's report (see [`spec_usage_report`]).
pub fn check_usage_report(u: &UsageInfo) -> (r: String)
    ensures
        r@ == spec_usage_report(*u),
{
    let plan = if u.plan.unicode_len() == 0 {
        String::new()
    } else {
        owned(" on the ").concat(u.plan.as_str()).concat(" plan")
    };
    let mut count = String::new();
    push_signed(&mut count, u.remaining);
    if u.quota > 0 {
        count.append(" of ");
        push_signed(&mut count, u.quota);
    }
    count.append(" operations");
    count.append(" remaining this billing period");
    count.append(plan.as_str());
    if u.available {
        count.append(".");
    } else {
        count.append(
            ". Nothing is available right now — upgrade the plan or wait for the next cycle.",
        );
    }
    assert(count@ =~= spec_usage_report(*u));
    count
}

} // verus!
