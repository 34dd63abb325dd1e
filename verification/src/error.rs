//! The errors the library reports, and their user-facing text.

use vstd::prelude::*;
use crate::text::{decimal, owned, push_decimal, push_signed, signed_decimal};

verus! {

/// Everything that can make a request plan fail before, or as, it is sent.
#[derive(Debug)]
pub enum MochifyError {
    /// The PDF operation is none of the five the service knows.
    UnknownPdfOp { op: String },
    /// The image type is not one the PDF operation can write.
    UnsupportedPdfType { raw: String, op: String },
    /// The page size for building a PDF is none of fit, a4, letter.
    UnknownPageSize { page: String },
    /// The HDR mode is neither a spelling of preserve nor of generate.
    UnknownHdrMode { mode: String },
    /// Neither a flag nor a prompt named the PDF operation.
    MissingPdfOp,
    /// `--op create` was given PDFs, which it cannot take.
    CreateGivenPdfs,
    /// PDFs and images were given in one command.
    MixedPdfsAndImages,
    /// The prompt resolved PDF inputs to `create`, which takes images.
    CreateOnPdfInput,
    /// The rotation is not a multiple of a quarter turn in 0..=270.
    InvalidRotation { rotation: u32 },
    /// The quality is outside 1..=100.
    InvalidQuality { quality: u32 },
    /// The brightness is outside -100..=100.
    InvalidBrightness { brightness: i32 },
    /// `--lossless` with an output type that cannot hold pixel-exact output.
    LosslessUnsupported { format: String },
    /// The same refusal, worded for the tool interface.
    ToolLosslessUnsupported { format: String },
    /// The `pdf` tool was asked to build a PDF from images.
    ToolCreateRefused,
    /// The `pdf_create` tool was given no images.
    ToolNoImages,
    /// Usage was asked for without credentials.
    UsageNeedsAuth,
    /// The service answered 429.
    RateLimited { has_key: bool },
    /// The service answered some other failure status.
    Api { status: String, body: String },
    /// The browser sign-in was not completed in time.
    AuthTimedOut,
}

/// The abstract value of a [`MochifyError`].
pub enum ErrorView {
    UnknownPdfOp { op: Seq<char> },
    UnsupportedPdfType { raw: Seq<char>, op: Seq<char> },
    UnknownPageSize { page: Seq<char> },
    UnknownHdrMode { mode: Seq<char> },
    MissingPdfOp,
    CreateGivenPdfs,
    MixedPdfsAndImages,
    CreateOnPdfInput,
    InvalidRotation { rotation: u32 },
    InvalidQuality { quality: u32 },
    InvalidBrightness { brightness: i32 },
    LosslessUnsupported { format: Seq<char> },
    ToolLosslessUnsupported { format: Seq<char> },
    ToolCreateRefused,
    ToolNoImages,
    UsageNeedsAuth,
    RateLimited { has_key: bool },
    Api { status: Seq<char>, body: Seq<char> },
    AuthTimedOut,
}

impl View for MochifyError {
    type V = ErrorView;

    open spec fn view(&self) -> ErrorView {
        match self {
            MochifyError::UnknownPdfOp { op } => ErrorView::UnknownPdfOp { op: op@ },
            MochifyError::UnsupportedPdfType { raw, op } => ErrorView::UnsupportedPdfType {
                raw: raw@,
                op: op@,
            },
            MochifyError::UnknownPageSize { page } => ErrorView::UnknownPageSize { page: page@ },
            MochifyError::UnknownHdrMode { mode } => ErrorView::UnknownHdrMode { mode: mode@ },
            MochifyError::MissingPdfOp => ErrorView::MissingPdfOp,
            MochifyError::CreateGivenPdfs => ErrorView::CreateGivenPdfs,
            MochifyError::MixedPdfsAndImages => ErrorView::MixedPdfsAndImages,
            MochifyError::CreateOnPdfInput => ErrorView::CreateOnPdfInput,
            MochifyError::InvalidRotation { rotation } => ErrorView::InvalidRotation {
                rotation: *rotation,
            },
            MochifyError::InvalidQuality { quality } => ErrorView::InvalidQuality {
                quality: *quality,
            },
            MochifyError::InvalidBrightness { brightness } => ErrorView::InvalidBrightness {
                brightness: *brightness,
            },
            MochifyError::LosslessUnsupported { format } => ErrorView::LosslessUnsupported {
                format: format@,
            },
            MochifyError::ToolLosslessUnsupported { format } =>
                ErrorView::ToolLosslessUnsupported { format: format@ },
            MochifyError::ToolCreateRefused => ErrorView::ToolCreateRefused,
            MochifyError::ToolNoImages => ErrorView::ToolNoImages,
            MochifyError::UsageNeedsAuth => ErrorView::UsageNeedsAuth,
            MochifyError::RateLimited { has_key } => ErrorView::RateLimited { has_key: *has_key },
            MochifyError::Api { status, body } => ErrorView::Api { status: status@, body: body@ },
            MochifyError::AuthTimedOut => ErrorView::AuthTimedOut,
        }
    }
}

/// The abstract value of a result whose two sides have views.
pub open spec fn result_view<T: View, E: View>(r: Result<T, E>) -> Result<T::V, E::V> {
    match r {
        Ok(t) => Ok(t@),
        Err(e) => Err(e@),
    }
}

/// The abstract value of an optional string.
pub open spec fn opt_str(o: Option<String>) -> Option<Seq<char>> {
    match o {
        Some(s) => Some(s@),
        None => None,
    }
}

/// A copy of an optional string.
pub fn clone_opt_str(o: &Option<String>) -> (r: Option<String>)
    ensures
        opt_str(r) == opt_str(*o),
{
    match o {
        Some(s) => Some(s.clone()),
        None => None,
    }
}

/// The types an operation accepts, as listed to the user.
pub open spec fn allowed_types_text(op: Seq<char>) -> Seq<char> {
    if op == "extract"@ {
        "original, png, jpg, webp, avif, jxl"@
    } else {
        "png, jpg, webp, avif, jxl"@
    }
}

/// The user-facing text of an error.
pub open spec fn error_text(e: ErrorView) -> Seq<char> {
    match e {
        ErrorView::UnknownPdfOp { op } => "Unknown PDF operation '"@ + op
            + "'. Use optimize, extract, rasterize or split for a PDF, or create to build a PDF from images."@,
        ErrorView::UnsupportedPdfType { raw, op } => "Unsupported type '"@ + raw + "' for op "@ + op
            + ". Use one of: "@ + allowed_types_text(op) + "."@,
        ErrorView::UnknownPageSize { page } => "Unknown page size '"@ + page
            + "'. Use fit, a4, or letter."@,
        ErrorView::UnknownHdrMode { mode } => "Unknown --hdr mode '"@ + mode
            + "'. Use 'preserve' (keep a gain map the source has) or 'generate' (also create one for an SDR source)."@,
        ErrorView::MissingPdfOp => "Specify a PDF operation with --op optimize|extract|rasterize|split, or describe it with --prompt."@,
        ErrorView::CreateGivenPdfs => "--op create builds a PDF from images — pass images, not PDFs. To make an existing PDF smaller, use --op optimize."@,
        ErrorView::MixedPdfsAndImages => "Can't mix PDFs and images in one command — run them separately."@,
        ErrorView::CreateOnPdfInput => "--op create builds a PDF from images. To make this PDF smaller, use --op optimize."@,
        ErrorView::InvalidRotation { rotation } => "Invalid --rotation "@ + decimal(rotation as nat)
            + ". Use 0, 90, 180, or 270."@,
        ErrorView::InvalidQuality { quality } => "Invalid --quality "@ + decimal(quality as nat)
            + ". Use 1–100."@,
        ErrorView::InvalidBrightness { brightness } => "Invalid --brightness "@ + signed_decimal(
            brightness as int,
        ) + ". Use -100 (darkest) to 100 (brightest)."@,
        ErrorView::LosslessUnsupported { format } => "--lossless can't be used with -t "@ + format
            + ". Only jxl, webp, png can hold pixel-exact output."@,
        ErrorView::ToolLosslessUnsupported { format } => "lossless output is not possible with type "@
            + format + ". Only jxl, webp, png can hold pixel-exact output."@,
        ErrorView::ToolCreateRefused => "use the pdf_create tool to build a PDF from images."@,
        ErrorView::ToolNoImages => "no images given. Pass the absolute path of each image in page order."@,
        ErrorView::UsageNeedsAuth => "Usage tracking requires authentication. Run `mochify auth login` to sign in, or set MOCHIFY_API_KEY / pass --api-key for automation. Sign up at https://mochify.app if you don't have an account."@,
        ErrorView::RateLimited { has_key } => if has_key {
            "Rate limit exceeded. You've hit your plan's monthly limit. Upgrade at https://mochify.app for higher limits (Seller: 300/month, Pro: 1200/month)."@
        } else {
            "Rate limit exceeded. Unauthenticated requests are limited to 3/month per IP. Sign up at https://mochify.app, then run `mochify auth login` for 25 free requests/month."@
        },
        ErrorView::Api { status, body } => "API error "@ + status + ": "@ + body,
        ErrorView::AuthTimedOut => "Authorization timed out. Run `mochify auth login` to try again."@,
    }
}

impl MochifyError {
    /// The user-facing text of this error (see [`error_text`]).
    pub fn message(&self) -> (r: String)
        ensures
            r@ == error_text(self@),
    {
        match self {
            MochifyError::UnknownPdfOp { op } => owned("Unknown PDF operation '").concat(op.as_str()).concat(
                "'. Use optimize, extract, rasterize or split for a PDF, or create to build a PDF from images.",
            ),
            MochifyError::UnsupportedPdfType { raw, op } => {
                let allowed = if crate::text::str_eq(op.as_str(), "extract") {
                    "original, png, jpg, webp, avif, jxl"
                } else {
                    "png, jpg, webp, avif, jxl"
                };
                owned("Unsupported type '").concat(raw.as_str()).concat("' for op ").concat(
                    op.as_str(),
                ).concat(". Use one of: ").concat(allowed).concat(".")
            },
            MochifyError::UnknownPageSize { page } => owned("Unknown page size '").concat(
                page.as_str(),
            ).concat("'. Use fit, a4, or letter."),
            MochifyError::UnknownHdrMode { mode } => owned("Unknown --hdr mode '").concat(
                mode.as_str(),
            ).concat(
                "'. Use 'preserve' (keep a gain map the source has) or 'generate' (also create one for an SDR source).",
            ),
            MochifyError::MissingPdfOp => owned(
                "Specify a PDF operation with --op optimize|extract|rasterize|split, or describe it with --prompt.",
            ),
            MochifyError::CreateGivenPdfs => owned(
                "--op create builds a PDF from images — pass images, not PDFs. To make an existing PDF smaller, use --op optimize.",
            ),
            MochifyError::MixedPdfsAndImages => owned(
                "Can't mix PDFs and images in one command — run them separately.",
            ),
            MochifyError::CreateOnPdfInput => owned(
                "--op create builds a PDF from images. To make this PDF smaller, use --op optimize.",
            ),
            MochifyError::InvalidRotation { rotation } => {
                let mut s = owned("Invalid --rotation ");
                push_decimal(&mut s, *rotation as u64);
                s.concat(". Use 0, 90, 180, or 270.")
            },
            MochifyError::InvalidQuality { quality } => {
                let mut s = owned("Invalid --quality ");
                push_decimal(&mut s, *quality as u64);
                s.concat(". Use 1–100.")
            },
            MochifyError::InvalidBrightness { brightness } => {
                let mut s = owned("Invalid --brightness ");
                push_signed(&mut s, *brightness);
                s.concat(". Use -100 (darkest) to 100 (brightest).")
            },
            MochifyError::LosslessUnsupported { format } => owned(
                "--lossless can't be used with -t ",
            ).concat(format.as_str()).concat(". Only jxl, webp, png can hold pixel-exact output."),
            MochifyError::ToolLosslessUnsupported { format } => owned(
                "lossless output is not possible with type ",
            ).concat(format.as_str()).concat(". Only jxl, webp, png can hold pixel-exact output."),
            MochifyError::ToolCreateRefused => owned(
                "use the pdf_create tool to build a PDF from images.",
            ),
            MochifyError::ToolNoImages => owned(
                "no images given. Pass the absolute path of each image in page order.",
            ),
            MochifyError::UsageNeedsAuth => owned(
                "Usage tracking requires authentication. Run `mochify auth login` to sign in, or set MOCHIFY_API_KEY / pass --api-key for automation. Sign up at https://mochify.app if you don't have an account.",
            ),
            MochifyError::RateLimited { has_key } => if *has_key {
                owned(
                    "Rate limit exceeded. You've hit your plan's monthly limit. Upgrade at https://mochify.app for higher limits (Seller: 300/month, Pro: 1200/month).",
                )
            } else {
                owned(
                    "Rate limit exceeded. Unauthenticated requests are limited to 3/month per IP. Sign up at https://mochify.app, then run `mochify auth login` for 25 free requests/month.",
                )
            },
            MochifyError::Api { status, body } => owned("API error ").concat(status.as_str()).concat(
                ": ",
            ).concat(body.as_str()),
            MochifyError::AuthTimedOut => owned(
                "Authorization timed out. Run `mochify auth login` to try again.",
            ),
        }
    }
}

/// The error a rate-limited response (429) becomes: plan-aware advice.
pub fn rate_limit_error(has_key: bool) -> (r: MochifyError)
    ensures
        r@ == (ErrorView::RateLimited { has_key }),
{
    MochifyError::RateLimited { has_key }
}

/// How a response's status decides a request.
#[derive(Debug, Clone, Copy, PartialEq, Eq)]
pub enum StatusOutcome {
    /// 2xx: read the body.
    Success,
    /// 429 on an endpoint with a plan quota: report the rate limit.
    RateLimited,
    /// Anything else: report the status with the body.
    Failed,
}

/// The outcome of status `status`; `quota_endpoint` says whether the endpoint
/// counts against a plan quota, where 429 gets its own advice.
pub open spec fn spec_status_outcome(status: u16, quota_endpoint: bool) -> StatusOutcome {
    if 200 <= status && status <= 299 {
        StatusOutcome::Success
    } else if quota_endpoint && status == 429 {
        StatusOutcome::RateLimited
    } else {
        StatusOutcome::Failed
    }
}

/// Decide what a response status means (see [`spec_status_outcome`]).
pub fn status_outcome(status: u16, quota_endpoint: bool) -> (r: StatusOutcome)
    ensures
        r == spec_status_outcome(status, quota_endpoint),
{
    if 200 <= status && status <= 299 {
        StatusOutcome::Success
    } else if quota_endpoint && status == 429 {
        StatusOutcome::RateLimited
    } else {
        StatusOutcome::Failed
    }
}

} // verus!
