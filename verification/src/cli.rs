//! The command line as plain data, and the decisions taken from it before
//! any request is made: which path the inputs take, the explicit image
//! parameters, and the PDF parameters.

use vstd::prelude::*;
use crate::error::{ErrorView, MochifyError, clone_opt_str, opt_str, result_view};
use crate::modes::{lossless_refusal, normalize_hdr_mode, spec_hdr_mode, spec_lossless_refusal};
use crate::naming::{ascii_eq_ignore_case, eq_ignore_ascii_case, is_pdf, spec_is_pdf};
use crate::params::{ProcessParams, ProcessParamsView, first_set, or_else};
use crate::pdf::{PdfOptions, PdfOptionsView, PdfParams, PdfParamsView, PdfPrompt, spec_for_op};
use crate::text::{normalized, str_trimmed, trim_str};

verus! {

/// A subcommand.
#[derive(Debug, Clone, Copy, PartialEq, Eq)]
pub enum Commands {
    /// Start the tool server on stdio.
    Serve,
    /// Show usage for the current key.
    Usage,
    /// Authenticate through the browser.
    Auth { action: AuthAction },
}

/// An authentication action.
#[derive(Debug, Clone, Copy, PartialEq, Eq)]
pub enum AuthAction {
    /// Sign in through the browser and save credentials locally.
    Login,
    /// Remove saved credentials.
    Logout,
    /// Show whether credentials are saved.
    Status,
}

/// Everything the command line can say.
#[derive(Debug)]
pub struct Args {
    pub command: Option<Commands>,
    /// Input files.
    pub files: Vec<String>,
    /// Output format: jpg | png | webp | avif | jxl.
    pub format: Option<String>,
    pub width: Option<u32>,
    pub height: Option<u32>,
    pub crop: bool,
    /// Rotation in degrees (0, 90, 180, 270).
    pub rotation: Option<u32>,
    /// Output directory; by default each input's own directory.
    pub output: Option<String>,
    /// Base name for the output file (without extension).
    pub name: Option<String>,
    pub clarity: bool,
    pub remove_bg: bool,
    pub background: Option<String>,
    pub keep_metadata: bool,
    pub smart_compress: bool,
    pub brightness: Option<i32>,
    pub optimize_for_web: bool,
    pub lossless: bool,
    /// Gain map mode as typed; a bare flag means `preserve`.
    pub hdr: Option<String>,
    pub prompt: Option<String>,
    /// PDF operation.
    pub op: Option<String>,
    pub dpi: Option<u32>,
    pub quality: Option<u32>,
    pub max_width: Option<u32>,
    pub min_size: Option<u32>,
    pub page: Option<String>,
    pub no_combine: bool,
    /// How many files to process at once.
    pub jobs: usize,
    pub api_key: Option<String>,
    pub verbose: bool,
}

impl Default for Args {
    /// No subcommand, no files, nothing set, four jobs at once.
    fn default() -> (r: Args)
        ensures
            r.command is None,
            r.files@.len() == 0,
            r.format is None,
            r.width is None,
            r.height is None,
            !r.crop,
            r.rotation is None,
            r.output is None,
            r.name is None,
            !r.clarity,
            !r.remove_bg,
            r.background is None,
            !r.keep_metadata,
            !r.smart_compress,
            r.brightness is None,
            !r.optimize_for_web,
            !r.lossless,
            r.hdr is None,
            r.prompt is None,
            r.op is None,
            r.dpi is None,
            r.quality is None,
            r.max_width is None,
            r.min_size is None,
            r.page is None,
            !r.no_combine,
            r.jobs == 4,
            r.api_key is None,
            !r.verbose,
    {
        Args {
            command: None,
            files: Vec::new(),
            format: None,
            width: None,
            height: None,
            crop: false,
            rotation: None,
            output: None,
            name: None,
            clarity: false,
            remove_bg: false,
            background: None,
            keep_metadata: false,
            smart_compress: false,
            brightness: None,
            optimize_for_web: false,
            lossless: false,
            hdr: None,
            prompt: None,
            op: None,
            dpi: None,
            quality: None,
            max_width: None,
            min_size: None,
            page: None,
            no_combine: false,
            jobs: 4,
            api_key: None,
            verbose: false,
        }
    }
}

/// The path a set of inputs takes.
#[derive(Debug, Clone, Copy, PartialEq, Eq)]
pub enum InputRoute {
    /// Images to be built into a PDF (`--op create`).
    CreatePdf,
    /// PDFs, through the PDF operations.
    Pdfs,
    /// Images, through image processing.
    Images,
}

/// Whether the operation flag asks to build a PDF (`create`, any ASCII case,
/// surrounding whitespace ignored).
pub open spec fn asks_create(op: Option<Seq<char>>) -> bool {
    match op {
        Some(o) => eq_ignore_ascii_case(str_trimmed(o), "create"@),
        None => false,
    }
}

/// The abstract value of a list of paths.
pub open spec fn paths_view(files: Seq<String>) -> Seq<Seq<char>> {
    files.map_values(|f: String| f@)
}

/// The route of `files` under operation flag `op`: `create` takes images
/// only; otherwise any PDF sends the whole batch down the PDF path, which
/// cannot mix in images.
pub open spec fn spec_route(files: Seq<Seq<char>>, op: Option<Seq<char>>) -> Result<
    InputRoute,
    ErrorView,
> {
    let has_pdf = exists|i: int| 0 <= i < files.len() && spec_is_pdf(#[trigger] files[i]);
    let all_pdf = forall|i: int| 0 <= i < files.len() ==> spec_is_pdf(#[trigger] files[i]);
    if asks_create(op) {
        if has_pdf {
            Err(ErrorView::CreateGivenPdfs)
        } else {
            Ok(InputRoute::CreatePdf)
        }
    } else if has_pdf {
        if all_pdf {
            Ok(InputRoute::Pdfs)
        } else {
            Err(ErrorView::MixedPdfsAndImages)
        }
    } else {
        Ok(InputRoute::Images)
    }
}

/// The abstract value of a routing decision.
pub open spec fn route_view(r: Result<InputRoute, MochifyError>) -> Result<InputRoute, ErrorView> {
    match r {
        Ok(x) => Ok(x),
        Err(e) => Err(e@),
    }
}

/// Decide the path the command line's inputs take (see [`spec_route`]).
pub fn route_inputs(args: &Args) -> (r: Result<InputRoute, MochifyError>)
    ensures
        route_view(r) == spec_route(paths_view(args.files@), opt_str(args.op)),
{
    let ghost files = paths_view(args.files@);
    let n = args.files.len();
    let mut has_pdf = false;
    let mut all_pdf = true;
    let mut i: usize = 0;
    while i < n
        invariant
            n == args.files@.len(),
            files == paths_view(args.files@),
            i <= n,
            has_pdf == exists|k: int| 0 <= k < i && spec_is_pdf(#[trigger] files[k]),
            all_pdf == forall|k: int| 0 <= k < i ==> spec_is_pdf(#[trigger] files[k]),
        decreases n - i,
    {
        let p = is_pdf(args.files[i].as_str());
        assert(files[i as int] == args.files@[i as int]@);
        if p {
            has_pdf = true;
        } else {
            all_pdf = false;
        }
        i = i + 1;
    }
    let create = match &args.op {
        Some(o) => ascii_eq_ignore_case(trim_str(o.as_str()), "create"),
        None => false,
    };
    if create {
        if has_pdf {
            Err(MochifyError::CreateGivenPdfs)
        } else {
            Ok(InputRoute::CreatePdf)
        }
    } else if has_pdf {
        if all_pdf {
            Ok(InputRoute::Pdfs)
        } else {
            Err(MochifyError::MixedPdfsAndImages)
        }
    } else {
        Ok(InputRoute::Images)
    }
}

/// `Some(true)` for a flag that is on, `None` for one that is off.
pub open spec fn on_flag(b: bool) -> Option<bool> {
    if b {
        Some(true)
    } else {
        None
    }
}

/// The explicit image parameters the flags set, with the HDR mode already
/// normalised to `hdr`.
pub open spec fn explicit_view(a: Args, hdr: Option<Seq<char>>) -> ProcessParamsView {
    ProcessParamsView {
        format: opt_str(a.format),
        width: a.width,
        height: a.height,
        crop: on_flag(a.crop),
        rotation: a.rotation,
        out_name_suffix: None,
        output_name: opt_str(a.name),
        clarity: on_flag(a.clarity),
        remove_background: on_flag(a.remove_bg),
        background: opt_str(a.background),
        strip_exif: if a.keep_metadata {
            Some(false)
        } else {
            None
        },
        hdr,
        quality: a.quality,
        smart_compress: on_flag(a.smart_compress),
        brightness: a.brightness,
        optimize_for_web: on_flag(a.optimize_for_web),
        lossless: on_flag(a.lossless),
    }
}

/// A rotation the service accepts.
pub open spec fn rotation_ok(r: u32) -> bool {
    r == 0 || r == 90 || r == 180 || r == 270
}

/// The checks after the HDR mode: quality within 1..=100, brightness within
/// -100..=100, and a lossless request only with a type that can hold it.
pub open spec fn spec_explicit_after_hdr(a: Args, hdr: Option<Seq<char>>) -> Result<
    ProcessParamsView,
    ErrorView,
> {
    if a.quality is Some && !(1 <= a.quality->0 && a.quality->0 <= 100) {
        Err(ErrorView::InvalidQuality { quality: a.quality->0 })
    } else if a.brightness is Some && !(-100 <= a.brightness->0 && a.brightness->0 <= 100) {
        Err(ErrorView::InvalidBrightness { brightness: a.brightness->0 })
    } else if a.lossless && a.format is Some && spec_lossless_refusal(a.format->0@) is Some {
        Err(ErrorView::LosslessUnsupported { format: spec_lossless_refusal(a.format->0@)->0 })
    } else {
        Ok(explicit_view(a, hdr))
    }
}

/// The explicit image parameters of a command line, checked in the order the
/// command line is refused: rotation, HDR mode, quality, brightness, lossless.
pub open spec fn spec_explicit_params(a: Args) -> Result<ProcessParamsView, ErrorView> {
    if a.rotation is Some && !rotation_ok(a.rotation->0) {
        Err(ErrorView::InvalidRotation { rotation: a.rotation->0 })
    } else {
        match a.hdr {
            Some(m) => match spec_hdr_mode(m@) {
                Err(e) => Err(e),
                Ok(h) => spec_explicit_after_hdr(a, Some(h)),
            },
            None => spec_explicit_after_hdr(a, None),
        }
    }
}

/// Check the image flags and build the explicit parameters that always win
/// over prompt-derived ones (see [`spec_explicit_params`]).
pub fn explicit_params(args: &Args) -> (r: Result<ProcessParams, MochifyError>)
    ensures
        result_view(r) == spec_explicit_params(*args),
{
    if let Some(rot) = args.rotation {
        if !(rot == 0 || rot == 90 || rot == 180 || rot == 270) {
            return Err(MochifyError::InvalidRotation { rotation: rot });
        }
    }
    let hdr = match &args.hdr {
        Some(mode) => match normalize_hdr_mode(mode.as_str()) {
            Ok(h) => Some(h),
            Err(e) => {
                return Err(e);
            },
        },
        None => None,
    };
    if let Some(q) = args.quality {
        if !(1 <= q && q <= 100) {
            return Err(MochifyError::InvalidQuality { quality: q });
        }
    }
    if let Some(b) = args.brightness {
        if !(-100 <= b && b <= 100) {
            return Err(MochifyError::InvalidBrightness { brightness: b });
        }
    }
    if args.lossless {
        if let Some(fmt) = &args.format {
            if let Some(bad) = lossless_refusal(fmt.as_str()) {
                return Err(MochifyError::LosslessUnsupported { format: bad });
            }
        }
    }
    Ok(
        ProcessParams {
            format: clone_opt_str(&args.format),
            width: args.width,
            height: args.height,
            crop: if args.crop {
                Some(true)
            } else {
                None
            },
            rotation: args.rotation,
            out_name_suffix: None,
            output_name: clone_opt_str(&args.name),
            clarity: if args.clarity {
                Some(true)
            } else {
                None
            },
            remove_background: if args.remove_bg {
                Some(true)
            } else {
                None
            },
            background: clone_opt_str(&args.background),
            strip_exif: if args.keep_metadata {
                Some(false)
            } else {
                None
            },
            hdr,
            quality: args.quality,
            smart_compress: if args.smart_compress {
                Some(true)
            } else {
                None
            },
            brightness: args.brightness,
            optimize_for_web: if args.optimize_for_web {
                Some(true)
            } else {
                None
            },
            lossless: if args.lossless {
                Some(true)
            } else {
                None
            },
        },
    )
}

/// Field `f` of the prompt's PDF answer, when there is one.
pub open spec fn prompt_field<T>(p: Option<PdfPrompt>, f: spec_fn(PdfPrompt) -> Option<T>) -> Option<T> {
    match p {
        Some(p) => f(p),
        None => None,
    }
}

/// The options a PDF request takes from the flags and the prompt's answer:
/// each flag that is set wins, otherwise the prompt's value stands. The
/// minimum size only ever comes from its flag; `--no-combine` can only mean
/// separate PDFs, so unset it leaves the prompt's answer in place.
pub open spec fn spec_pdf_options(prompt: Option<PdfPrompt>, a: Args) -> PdfOptionsView {
    PdfOptionsView {
        format: first_set(opt_str(a.format), prompt_field(prompt, |p: PdfPrompt| opt_str(p.format))),
        dpi: first_set(a.dpi, prompt_field(prompt, |p: PdfPrompt| p.dpi)),
        quality: first_set(a.quality, prompt_field(prompt, |p: PdfPrompt| p.quality)),
        max_width: first_set(a.max_width, prompt_field(prompt, |p: PdfPrompt| p.max_width)),
        min_size: a.min_size,
        page: first_set(opt_str(a.page), prompt_field(prompt, |p: PdfPrompt| opt_str(p.page))),
        combine: if a.no_combine {
            Some(false)
        } else {
            prompt_field(prompt, |p: PdfPrompt| p.combine)
        },
    }
}

/// The PDF parameters of a command line: the operation from the flag, else
/// from the prompt, else an error; then [`spec_for_op`] on the merged options.
pub open spec fn spec_resolve_pdf_params(prompt: Option<PdfPrompt>, a: Args) -> Result<
    PdfParamsView,
    ErrorView,
> {
    let op = first_set(opt_str(a.op), prompt_field(prompt, |p: PdfPrompt| Some(p.op@)));
    match op {
        None => Err(ErrorView::MissingPdfOp),
        Some(op) => spec_for_op(normalized(op), spec_pdf_options(prompt, a)),
    }
}

/// Combine prompt-derived and explicit PDF parameters, an explicit flag
/// always winning, and validate them for the operation (see
/// [`spec_resolve_pdf_params`]).
pub fn resolve_pdf_params(prompt: Option<PdfPrompt>, args: &Args) -> (r: Result<
    PdfParams,
    MochifyError,
>)
    ensures
        result_view(r) == spec_resolve_pdf_params(prompt, *args),
{
    let ghost prompt0 = prompt;
    let (p_op, p_format, p_dpi, p_quality, p_max_width, p_page, p_combine) = match prompt {
        Some(p) => (Some(p.op), p.format, p.dpi, p.quality, p.max_width, p.page, p.combine),
        None => (None, None, None, None, None, None, None),
    };
    let op = match clone_opt_str(&args.op) {
        Some(o) => o,
        None => match p_op {
            Some(o) => o,
            None => {
                return Err(MochifyError::MissingPdfOp);
            },
        },
    };
    let opts = PdfOptions {
        format: or_else(clone_opt_str(&args.format), p_format),
        dpi: or_else(args.dpi, p_dpi),
        quality: or_else(args.quality, p_quality),
        max_width: or_else(args.max_width, p_max_width),
        min_size: args.min_size,
        page: or_else(clone_opt_str(&args.page), p_page),
        combine: if args.no_combine {
            Some(false)
        } else {
            p_combine
        },
    };
    assert(opts@ == spec_pdf_options(prompt0, *args));
    PdfParams::for_op(op.as_str(), opts)
}

/// The PDF path takes PDFs in, so it refuses `create`, which the prompt can
/// still answer with for a PDF input.
pub fn check_pdf_path_op(params: &PdfParams) -> (r: Result<(), MochifyError>)
    ensures
        r is Err <==> params.op@ == "create"@,
        r is Err ==> r->Err_0@ == ErrorView::CreateOnPdfInput,
{
    if crate::text::str_eq(params.op.as_str(), "create") {
        Err(MochifyError::CreateOnPdfInput)
    } else {
        Ok(())
    }
}

/// The progress line while images are built into a PDF.
pub fn building_pdf_message(count: usize) -> (r: String)
    ensures
        r@ == "Building PDF from "@ + crate::text::decimal(count as nat) + " image"@ + (if count
            == 1 {
            Seq::empty()
        } else {
            seq!['s']
        }) + "..."@,
{
    let mut s = crate::text::owned("Building PDF from ");
    crate::text::push_decimal(&mut s, count as u64);
    s.append(" image");
    if count != 1 {
        crate::text::push_char(&mut s, 's');
    }
    s.append("...");
    s
}

} // verus!
