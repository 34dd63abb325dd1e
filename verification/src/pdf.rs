//! PDF operations: validating an operation with its options, the query each
//! operation sends, and the name of what each operation hands back.

use vstd::prelude::*;
use crate::error::{ErrorView, MochifyError, opt_str, result_view};
use crate::query::{QueryModel, num_entry, push_num, push_opt_str, push_pair, query_view, str_entry};
use crate::text::{normalize_token, normalized, owned, str_eq};

verus! {

/// Parameters for a PDF request. `op` selects the operation and decides
/// which of the other fields are sent on the wire (see [`build_pdf_query`]).
#[derive(Debug, Clone)]
pub struct PdfParams {
    /// `optimize` | `extract` | `rasterize` | `split` | `create`.
    pub op: String,
    /// Output image format: rasterize (`png|jpg|webp|avif|jxl`), extract (those plus `original`).
    pub format: Option<String>,
    /// Render resolution for rasterize; the DPI a `create` `fit` page is sized at.
    pub dpi: Option<u32>,
    /// Output quality 1-100 (optimize, extract, rasterize, create).
    pub quality: Option<u32>,
    /// optimize: target resolution, measured against how large each image is drawn.
    pub max_dpi: Option<u32>,
    /// optimize: hard cap on the longest side of any image rewritten into the PDF.
    pub max_dimension: Option<u32>,
    /// extract/create: cap each image's width, preserving aspect ratio.
    pub max_width: Option<u32>,
    /// optimize/extract: leave images smaller than this (on either axis) untouched.
    pub min_size: Option<u32>,
    /// create: page size — `fit` | `a4` | `letter`.
    pub page: Option<String>,
    /// create: `Some(false)` returns one single-page PDF per image, as a zip.
    pub combine: Option<bool>,
}

/// The abstract value of a [`PdfParams`].
pub struct PdfParamsView {
    pub op: Seq<char>,
    pub format: Option<Seq<char>>,
    pub dpi: Option<u32>,
    pub quality: Option<u32>,
    pub max_dpi: Option<u32>,
    pub max_dimension: Option<u32>,
    pub max_width: Option<u32>,
    pub min_size: Option<u32>,
    pub page: Option<Seq<char>>,
    pub combine: Option<bool>,
}

impl View for PdfParams {
    type V = PdfParamsView;

    open spec fn view(&self) -> PdfParamsView {
        PdfParamsView {
            op: self.op@,
            format: opt_str(self.format),
            dpi: self.dpi,
            quality: self.quality,
            max_dpi: self.max_dpi,
            max_dimension: self.max_dimension,
            max_width: self.max_width,
            min_size: self.min_size,
            page: opt_str(self.page),
            combine: self.combine,
        }
    }
}

/// Parameters for operation `op` with every other field unset.
pub open spec fn bare_pdf_params(op: Seq<char>) -> PdfParamsView {
    PdfParamsView {
        op,
        format: None,
        dpi: None,
        quality: None,
        max_dpi: None,
        max_dimension: None,
        max_width: None,
        min_size: None,
        page: None,
        combine: None,
    }
}

impl Default for PdfParams {
    fn default() -> (r: PdfParams)
        ensures
            r@ == bare_pdf_params(Seq::empty()),
    {
        PdfParams {
            op: String::new(),
            format: None,
            dpi: None,
            quality: None,
            max_dpi: None,
            max_dimension: None,
            max_width: None,
            min_size: None,
            page: None,
            combine: None,
        }
    }
}

/// The generic inputs a caller collects (CLI flags, tool arguments) before
/// they are mapped onto the query parameters the chosen operation understands.
#[derive(Debug, Clone)]
pub struct PdfOptions {
    pub format: Option<String>,
    pub dpi: Option<u32>,
    pub quality: Option<u32>,
    pub max_width: Option<u32>,
    pub min_size: Option<u32>,
    pub page: Option<String>,
    pub combine: Option<bool>,
}

/// The abstract value of a [`PdfOptions`].
pub struct PdfOptionsView {
    pub format: Option<Seq<char>>,
    pub dpi: Option<u32>,
    pub quality: Option<u32>,
    pub max_width: Option<u32>,
    pub min_size: Option<u32>,
    pub page: Option<Seq<char>>,
    pub combine: Option<bool>,
}

impl View for PdfOptions {
    type V = PdfOptionsView;

    open spec fn view(&self) -> PdfOptionsView {
        PdfOptionsView {
            format: opt_str(self.format),
            dpi: self.dpi,
            quality: self.quality,
            max_width: self.max_width,
            min_size: self.min_size,
            page: opt_str(self.page),
            combine: self.combine,
        }
    }
}

impl Default for PdfOptions {
    fn default() -> (r: PdfOptions)
        ensures
            r@ == (PdfOptionsView {
                format: None,
                dpi: None,
                quality: None,
                max_width: None,
                min_size: None,
                page: None,
                combine: None,
            }),
    {
        PdfOptions {
            format: None,
            dpi: None,
            quality: None,
            max_width: None,
            min_size: None,
            page: None,
            combine: None,
        }
    }
}

/// What the natural-language prompt resolved a PDF instruction to, before
/// explicit flags are merged in.
#[derive(Debug, Clone)]
pub struct PdfPrompt {
    pub op: String,
    pub format: Option<String>,
    pub dpi: Option<u32>,
    pub quality: Option<u32>,
    pub max_width: Option<u32>,
    pub page: Option<String>,
    pub combine: Option<bool>,
}

/// `jpeg` is spelled `jpg` on the wire.
pub open spec fn jpeg_alias(f: Seq<char>) -> Seq<char> {
    if f == "jpeg"@ {
        "jpg"@
    } else {
        f
    }
}

/// The image types operation `op` can write: five for every operation,
/// plus `original` (no re-encode) for `extract`.
pub open spec fn pdf_type_allowed(op: Seq<char>, f: Seq<char>) -> bool {
    ||| f == "png"@
    ||| f == "jpg"@
    ||| f == "webp"@
    ||| f == "avif"@
    ||| f == "jxl"@
    ||| (op == "extract"@ && f == "original"@)
}

/// The checked image type for operation `op`, once the type `raw` the user
/// gave has been trimmed and lowercased to `token`: `jpeg` is spelled `jpg`,
/// and the type must be allowed; the error names `raw` as given.
pub open spec fn checked_pdf_type(op: Seq<char>, raw: Seq<char>, token: Seq<char>) -> Result<
    Option<Seq<char>>,
    ErrorView,
> {
    let f = jpeg_alias(token);
    if pdf_type_allowed(op, f) {
        Ok(Some(f))
    } else {
        Err(ErrorView::UnsupportedPdfType { raw, op })
    }
}

/// The checked image type for operation `op`: absent stays absent; a given
/// type is normalised (trimmed, lowercased, `jpeg` to `jpg`) and must be allowed.
pub open spec fn spec_pdf_format(op: Seq<char>, format: Option<Seq<char>>) -> Result<
    Option<Seq<char>>,
    ErrorView,
> {
    match format {
        None => Ok(None),
        Some(raw) => checked_pdf_type(op, raw, normalized(raw)),
    }
}

/// The abstract value of a checked optional type.
pub open spec fn format_result_view(r: Result<Option<String>, MochifyError>) -> Result<
    Option<Seq<char>>,
    ErrorView,
> {
    match r {
        Ok(o) => Ok(opt_str(o)),
        Err(e) => Err(e@),
    }
}

/// Whether `f` is an image type operation `op` can write.
fn pdf_type_is_allowed(op: &str, f: &str) -> (r: bool)
    ensures
        r == pdf_type_allowed(op@, f@),
{
    str_eq(f, "png") || str_eq(f, "jpg") || str_eq(f, "webp") || str_eq(f, "avif") || str_eq(
        f,
        "jxl",
    ) || (str_eq(op, "extract") && str_eq(f, "original"))
}

/// Check the image type `raw`, already trimmed and lowercased to `token`,
/// for operation `op` (see [`checked_pdf_type`]).
pub fn pdf_type_from_token(op: &str, raw: String, token: String) -> (r: Result<
    Option<String>,
    MochifyError,
>)
    ensures
        format_result_view(r) == checked_pdf_type(op@, raw@, token@),
{
    let f = if str_eq(token.as_str(), "jpeg") {
        owned("jpg")
    } else {
        token
    };
    if pdf_type_is_allowed(op, f.as_str()) {
        Ok(Some(f))
    } else {
        Err(MochifyError::UnsupportedPdfType { raw, op: owned(op) })
    }
}

/// Normalise and check a PDF image type for operation `op`.
pub fn pdf_format(op: &str, format: Option<String>) -> (r: Result<Option<String>, MochifyError>)
    ensures
        format_result_view(r) == spec_pdf_format(op@, opt_str(format)),
{
    match format {
        None => Ok(None),
        Some(raw) => {
            let token = normalize_token(raw.as_str());
            pdf_type_from_token(op, raw, token)
        },
    }
}

/// The page sizes a built PDF can have.
pub open spec fn page_allowed(p: Seq<char>) -> bool {
    p == "fit"@ || p == "a4"@ || p == "letter"@
}

/// The checked page size, once trimmed and lowercased to `p`: it must be
/// fit, a4 or letter.
pub open spec fn checked_page_token(p: Seq<char>) -> Result<Option<Seq<char>>, ErrorView> {
    if page_allowed(p) {
        Ok(Some(p))
    } else {
        Err(ErrorView::UnknownPageSize { page: p })
    }
}

/// The checked page size: absent stays absent; a given size is trimmed,
/// lowercased and must be fit, a4 or letter.
pub open spec fn spec_page(page: Option<Seq<char>>) -> Result<Option<Seq<char>>, ErrorView> {
    match page {
        None => Ok(None),
        Some(raw) => checked_page_token(normalized(raw)),
    }
}

/// The parameters operation `op` (already normalised) takes from `opts`.
/// One resolution and one width cap cover all five operations; the service
/// spells them per operation (`dpi` or `maxDpi`, `maxWidth` or `maxDimension`).
pub open spec fn spec_for_op(op: Seq<char>, opts: PdfOptionsView) -> Result<
    PdfParamsView,
    ErrorView,
> {
    if op == "split"@ {
        Ok(bare_pdf_params(op))
    } else if op == "rasterize"@ {
        match spec_pdf_format(op, opts.format) {
            Err(e) => Err(e),
            Ok(f) => Ok(
                PdfParamsView {
                    format: Some(
                        match f {
                            Some(t) => t,
                            None => "png"@,
                        },
                    ),
                    dpi: Some(
                        match opts.dpi {
                            Some(d) => d,
                            None => 150,
                        },
                    ),
                    quality: opts.quality,
                    ..bare_pdf_params(op)
                },
            ),
        }
    } else if op == "extract"@ {
        match spec_pdf_format(op, opts.format) {
            Err(e) => Err(e),
            Ok(f) => Ok(
                PdfParamsView {
                    format: f,
                    quality: opts.quality,
                    max_width: opts.max_width,
                    min_size: opts.min_size,
                    ..bare_pdf_params(op)
                },
            ),
        }
    } else if op == "optimize"@ {
        Ok(
            PdfParamsView {
                quality: opts.quality,
                max_dpi: opts.dpi,
                max_dimension: opts.max_width,
                min_size: opts.min_size,
                ..bare_pdf_params(op)
            },
        )
    } else if op == "create"@ {
        match spec_page(opts.page) {
            Err(e) => Err(e),
            Ok(page) => Ok(
                PdfParamsView {
                    quality: opts.quality,
                    dpi: opts.dpi,
                    max_width: opts.max_width,
                    page,
                    combine: opts.combine,
                    ..bare_pdf_params(op)
                },
            ),
        }
    } else {
        Err(ErrorView::UnknownPdfOp { op })
    }
}

/// Check a page size already trimmed and lowercased (see [`checked_page_token`]).
pub fn page_from_token(p: String) -> (r: Result<Option<String>, MochifyError>)
    ensures
        format_result_view(r) == checked_page_token(p@),
{
    if str_eq(p.as_str(), "fit") || str_eq(p.as_str(), "a4") || str_eq(p.as_str(), "letter") {
        Ok(Some(p))
    } else {
        Err(MochifyError::UnknownPageSize { page: p })
    }
}

/// Normalise and check a page size.
fn checked_page(page: Option<String>) -> (r: Result<Option<String>, MochifyError>)
    ensures
        format_result_view(r) == spec_page(opt_str(page)),
{
    match page {
        None => Ok(None),
        Some(raw) => page_from_token(normalize_token(raw.as_str())),
    }
}

impl PdfParams {
    /// Validate `op` and map `opts` onto it (see [`spec_for_op`]).
    pub fn for_op(op: &str, opts: PdfOptions) -> (r: Result<PdfParams, MochifyError>)
        ensures
            result_view(r) == spec_for_op(normalized(op@), opts@),
    {
        let op = normalize_token(op);
        PdfParams::for_normalized_op(op, opts)
    }

    /// [`PdfParams::for_op`] once the operation has been trimmed and lowercased.
    pub fn for_normalized_op(op: String, opts: PdfOptions) -> (r: Result<PdfParams, MochifyError>)
        ensures
            result_view(r) == spec_for_op(op@, opts@),
    {
        if str_eq(op.as_str(), "split") {
            let mut p = PdfParams::default();
            p.op = op;
            Ok(p)
        } else if str_eq(op.as_str(), "rasterize") {
            let f = match pdf_format(op.as_str(), opts.format) {
                Ok(f) => f,
                Err(e) => {
                    return Err(e);
                },
            };
            let format = match f {
                Some(t) => t,
                None => owned("png"),
            };
            let dpi = match opts.dpi {
                Some(d) => d,
                None => 150,
            };
            let mut p = PdfParams::default();
            p.format = Some(format);
            p.dpi = Some(dpi);
            p.quality = opts.quality;
            p.op = op;
            Ok(p)
        } else if str_eq(op.as_str(), "extract") {
            let f = match pdf_format(op.as_str(), opts.format) {
                Ok(f) => f,
                Err(e) => {
                    return Err(e);
                },
            };
            let mut p = PdfParams::default();
            p.format = f;
            p.quality = opts.quality;
            p.max_width = opts.max_width;
            p.min_size = opts.min_size;
            p.op = op;
            Ok(p)
        } else if str_eq(op.as_str(), "optimize") {
            let mut p = PdfParams::default();
            p.quality = opts.quality;
            p.max_dpi = opts.dpi;
            p.max_dimension = opts.max_width;
            p.min_size = opts.min_size;
            p.op = op;
            Ok(p)
        } else if str_eq(op.as_str(), "create") {
            let page = match checked_page(opts.page) {
                Ok(page) => page,
                Err(e) => {
                    return Err(e);
                },
            };
            let mut p = PdfParams::default();
            p.quality = opts.quality;
            p.dpi = opts.dpi;
            p.max_width = opts.max_width;
            p.page = page;
            p.combine = opts.combine;
            p.op = op;
            Ok(p)
        } else {
            Err(MochifyError::UnknownPdfOp { op })
        }
    }
}

/// The parameters `rasterize` sends.
pub open spec fn rasterize_section(p: PdfParamsView) -> QueryModel {
    num_entry("dpi"@, p.dpi) + num_entry("quality"@, p.quality) + str_entry("type"@, p.format)
}

/// The parameters `extract` sends.
pub open spec fn extract_section(p: PdfParamsView) -> QueryModel {
    num_entry("quality"@, p.quality) + num_entry("maxWidth"@, p.max_width) + num_entry(
        "minSize"@,
        p.min_size,
    ) + str_entry("type"@, p.format)
}

/// The parameters `optimize` sends: image caps, never a type.
pub open spec fn optimize_section(p: PdfParamsView) -> QueryModel {
    num_entry("quality"@, p.quality) + num_entry("maxDpi"@, p.max_dpi) + num_entry(
        "maxDimension"@,
        p.max_dimension,
    ) + num_entry("minSize"@, p.min_size)
}

/// The `combine` pair of `create`: `1` or `0`, when set.
pub open spec fn combine_entry(combine: Option<bool>) -> QueryModel {
    match combine {
        Some(c) => seq![("combine"@, if c { "1"@ } else { "0"@ })],
        None => seq![],
    }
}

/// The parameters `create` sends.
pub open spec fn create_section(p: PdfParamsView) -> QueryModel {
    num_entry("quality"@, p.quality) + num_entry("dpi"@, p.dpi) + num_entry(
        "maxWidth"@,
        p.max_width,
    ) + str_entry("page"@, p.page) + combine_entry(p.combine)
}

/// The query for a PDF request: always the operation first, then only the
/// parameters that operation understands. `split` (and any other operation)
/// takes none. A set value of 0 is still sent, since 0 disables a cap.
pub open spec fn spec_pdf_query(p: PdfParamsView) -> QueryModel {
    seq![("op"@, p.op)] + if p.op == "rasterize"@ {
        rasterize_section(p)
    } else if p.op == "extract"@ {
        extract_section(p)
    } else if p.op == "optimize"@ {
        optimize_section(p)
    } else if p.op == "create"@ {
        create_section(p)
    } else {
        seq![]
    }
}

fn push_rasterize(q: &mut Vec<(&'static str, String)>, params: &PdfParams)
    ensures
        query_view(final(q)@) == query_view(old(q)@) + rasterize_section(params@),
{
    let ghost q0 = query_view(q@);
    push_num(q, "dpi", params.dpi);
    push_num(q, "quality", params.quality);
    push_opt_str(q, "type", &params.format);
    assert(query_view(q@) =~= q0 + rasterize_section(params@));
}

fn push_extract(q: &mut Vec<(&'static str, String)>, params: &PdfParams)
    ensures
        query_view(final(q)@) == query_view(old(q)@) + extract_section(params@),
{
    let ghost q0 = query_view(q@);
    push_num(q, "quality", params.quality);
    push_num(q, "maxWidth", params.max_width);
    push_num(q, "minSize", params.min_size);
    push_opt_str(q, "type", &params.format);
    assert(query_view(q@) =~= q0 + extract_section(params@));
}

fn push_optimize(q: &mut Vec<(&'static str, String)>, params: &PdfParams)
    ensures
        query_view(final(q)@) == query_view(old(q)@) + optimize_section(params@),
{
    let ghost q0 = query_view(q@);
    push_num(q, "quality", params.quality);
    push_num(q, "maxDpi", params.max_dpi);
    push_num(q, "maxDimension", params.max_dimension);
    push_num(q, "minSize", params.min_size);
    assert(query_view(q@) =~= q0 + optimize_section(params@));
}

fn push_create(q: &mut Vec<(&'static str, String)>, params: &PdfParams)
    ensures
        query_view(final(q)@) == query_view(old(q)@) + create_section(params@),
{
    let ghost q0 = query_view(q@);
    push_num(q, "quality", params.quality);
    push_num(q, "dpi", params.dpi);
    push_num(q, "maxWidth", params.max_width);
    push_opt_str(q, "page", &params.page);
    let ghost q1 = query_view(q@);
    match params.combine {
        Some(c) => {
            push_pair(q, "combine", if c { owned("1") } else { owned("0") });
        },
        None => {},
    }
    assert(query_view(q@) =~= q1 + combine_entry(params@.combine));
    assert(query_view(q@) =~= q0 + create_section(params@));
}

/// Build the query for a PDF request (see [`spec_pdf_query`]).
pub fn build_pdf_query(params: &PdfParams) -> (q: Vec<(&'static str, String)>)
    ensures
        query_view(q@) == spec_pdf_query(params@),
{
    let mut q: Vec<(&'static str, String)> = Vec::new();
    push_pair(&mut q, "op", params.op.clone());
    let ghost head = query_view(q@);
    assert(head =~= seq![("op"@, params@.op)]);
    let op = params.op.as_str();
    if str_eq(op, "rasterize") {
        push_rasterize(&mut q, params);
    } else if str_eq(op, "extract") {
        push_extract(&mut q, params);
    } else if str_eq(op, "optimize") {
        push_optimize(&mut q, params);
    } else if str_eq(op, "create") {
        push_create(&mut q, params);
    } else {
        assert(query_view(q@) =~= head + seq![]);
    }
    q
}

/// The extension a PDF operation hands back.
pub open spec fn spec_pdf_output_ext(op: Seq<char>, combine: Option<bool>) -> Seq<char> {
    if op == "optimize"@ || (op == "create"@ && combine != Some(false)) {
        "pdf"@
    } else {
        "zip"@
    }
}

/// The base name a PDF operation's result is saved under, from the input's stem.
pub open spec fn spec_pdf_output_base(op: Seq<char>, stem: Seq<char>, combine: Option<bool>) -> Seq<
    char,
> {
    if op == "optimize"@ {
        stem + "_compressed"@
    } else if op == "extract"@ {
        stem + "_images"@
    } else if op == "split"@ {
        stem + "_pages"@
    } else if op == "create"@ && combine == Some(false) {
        stem + "_pdfs"@
    } else if op == "create"@ {
        stem
    } else {
        stem + "_rasterized"@
    }
}

/// The five operation names have pairwise different lengths, so no two are equal.
pub proof fn lemma_op_name_lengths()
    ensures
        "split"@.len() == 5,
        "create"@.len() == 6,
        "extract"@.len() == 7,
        "optimize"@.len() == 8,
        "rasterize"@.len() == 9,
{
    reveal_strlit("split");
    reveal_strlit("create");
    reveal_strlit("extract");
    reveal_strlit("optimize");
    reveal_strlit("rasterize");
}

/// Whether `o` is `Some(false)`.
pub fn is_some_false(o: Option<bool>) -> (r: bool)
    ensures
        r == (o == Some(false)),
{
    match o {
        Some(b) => !b,
        None => false,
    }
}

/// Output base name and extension for a PDF operation. `optimize` and a
/// combined `create` hand back a single PDF; every other operation an archive.
pub fn pdf_output_name(op: &str, stem: &str, combine: Option<bool>) -> (r: (String, &'static str))
    ensures
        r.0@ == spec_pdf_output_base(op@, stem@, combine),
        r.1@ == spec_pdf_output_ext(op@, combine),
{
    proof {
        lemma_op_name_lengths();
    }
    let base = owned(stem);
    if str_eq(op, "optimize") {
        (base.concat("_compressed"), "pdf")
    } else if str_eq(op, "extract") {
        (base.concat("_images"), "zip")
    } else if str_eq(op, "split") {
        (base.concat("_pages"), "zip")
    } else if str_eq(op, "create") && is_some_false(combine) {
        (base.concat("_pdfs"), "zip")
    } else if str_eq(op, "create") {
        (base, "pdf")
    } else {
        (base.concat("_rasterized"), "zip")
    }
}

} // verus!
