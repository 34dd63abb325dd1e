//! What the service reports back about a request, and what is said about it:
//! response headers, the notes printed after a result, and summaries.

use vstd::prelude::*;
use crate::error::{clone_opt_str, opt_str};
use crate::params::ProcessParams;
use crate::pdf::{PdfParams, PdfParamsView};
use crate::text::{
    add_part, add_part_if, add_wrapped, decimal, join_strings, joined, owned, part_if,
    push_decimal, str_eq, str_uppercased, strings_view, uppercase_str, wrapped_part,
};

verus! {

/// Headers the image endpoint reports back.
#[derive(Debug)]
pub struct SquishMeta {
    pub latency_ms: Option<String>,
    pub optimized: bool,
    pub reason: Option<String>,
    pub quality: Option<String>,
    pub saliency: Option<String>,
    pub bg_removed: bool,
    /// `true` (the source's own headroom), `generated`, or `false` (the
    /// returned bytes carry none). Only sent when HDR was requested.
    pub hdr: Option<String>,
    /// `true` (pixel-exact) or `downgraded` (the best lossy encode, because
    /// the source was already lossy). Only sent when lossless was requested.
    pub lossless: Option<String>,
}

impl Default for SquishMeta {
    fn default() -> (r: SquishMeta)
        ensures
            r.latency_ms is None,
            !r.optimized,
            r.reason is None,
            r.quality is None,
            r.saliency is None,
            !r.bg_removed,
            r.hdr is None,
            r.lossless is None,
    {
        SquishMeta {
            latency_ms: None,
            optimized: false,
            reason: None,
            quality: None,
            saliency: None,
            bg_removed: false,
            hdr: None,
            lossless: None,
        }
    }
}

/// A header that reports a switch: on only when it reads exactly `true`.
pub open spec fn header_switch(h: Option<Seq<char>>) -> bool {
    h == Some("true"@)
}

fn header_is_true(h: &Option<String>) -> (r: bool)
    ensures
        r == header_switch(opt_str(*h)),
{
    match h {
        Some(v) => str_eq(v.as_str(), "true"),
        None => false,
    }
}

impl SquishMeta {
    /// The report of an image request, from its response headers (each as
    /// text when present and readable): the optimised and background-removed
    /// switches are on only when their header reads `true`.
    pub fn from_headers(
        latency_ms: Option<String>,
        optimized: Option<String>,
        reason: Option<String>,
        quality: Option<String>,
        saliency: Option<String>,
        bg_removed: Option<String>,
        hdr: Option<String>,
        lossless: Option<String>,
    ) -> (r: SquishMeta)
        ensures
            r.latency_ms == latency_ms,
            r.optimized == header_switch(opt_str(optimized)),
            r.reason == reason,
            r.quality == quality,
            r.saliency == saliency,
            r.bg_removed == header_switch(opt_str(bg_removed)),
            r.hdr == hdr,
            r.lossless == lossless,
    {
        SquishMeta {
            optimized: header_is_true(&optimized),
            bg_removed: header_is_true(&bg_removed),
            latency_ms,
            reason,
            quality,
            saliency,
            hdr,
            lossless,
        }
    }
}

/// Headers the PDF endpoint reports back; which are present depends on the op.
#[derive(Debug)]
pub struct PdfMeta {
    pub latency_ms: Option<String>,
    pub pages: Option<String>,
    pub images: Option<String>,
    pub recompressed: Option<String>,
    pub saved_pct: Option<String>,
}

impl Default for PdfMeta {
    fn default() -> (r: PdfMeta)
        ensures
            r.latency_ms is None,
            r.pages is None,
            r.images is None,
            r.recompressed is None,
            r.saved_pct is None,
    {
        PdfMeta { latency_ms: None, pages: None, images: None, recompressed: None, saved_pct: None }
    }
}

/// The quota an account has left.
#[derive(Debug)]
pub struct UsageInfo {
    pub remaining: i32,
    pub quota: i32,
    pub plan: String,
    pub available: bool,
}

/// The note after an image result that asked for pixel-exact output and got
/// the best lossy encode, because the source was already lossy.
pub open spec fn lossless_downgraded(lossless: Option<bool>, header: Option<Seq<char>>) -> bool {
    lossless == Some(true) && header == Some("downgraded"@)
}

/// Whether to note that a lossless request came back lossy.
pub fn warn_if_lossless_downgraded(params: &ProcessParams, meta: &SquishMeta) -> (r: bool)
    ensures
        r == lossless_downgraded(params.lossless, opt_str(meta.lossless)),
{
    let asked = match params.lossless {
        Some(b) => b,
        None => false,
    };
    asked && match &meta.lossless {
        Some(v) => str_eq(v.as_str(), "downgraded"),
        None => false,
    }
}

/// The text of the downgraded-lossless note.
pub fn lossless_downgraded_text() -> (r: &'static str)
    ensures
        r@ == "  note: the source was already lossy, so the output is the best lossy encode rather than pixel-exact."@,
{
    "  note: the source was already lossy, so the output is the best lossy encode rather than pixel-exact."
}

/// Only JPEG output (or an unchanged type) can carry a gain map.
pub open spec fn carries_hdr(format: Option<Seq<char>>) -> bool {
    match format {
        None => true,
        Some(f) => f == "jpg"@ || f == "jpeg"@,
    }
}

/// The note after an image result that asked for HDR and came back with no
/// gain map (`X-Mochify-HDR: false`): why, when it can say; nothing otherwise.
pub open spec fn spec_hdr_note(
    format: Option<Seq<char>>,
    hdr: Option<Seq<char>>,
    header: Option<Seq<char>>,
) -> Option<Seq<char>> {
    if hdr is None || header != Some("false"@) {
        None
    } else if !carries_hdr(format) {
        Some(
            "  note: no HDR gain map in the output — only jpg output can carry one. Re-run with -t jpg."@,
        )
    } else if hdr == Some("1"@) {
        Some(
            "  note: the source had no gain map to preserve. Use --hdr generate to synthesise one."@,
        )
    } else {
        Some("  note: the output carries no HDR gain map."@)
    }
}

/// The note to print when an HDR request came back without a gain map.
pub fn warn_if_hdr_dropped(params: &ProcessParams, meta: &SquishMeta) -> (r: Option<&'static str>)
    ensures
        match r {
            Some(t) => spec_hdr_note(opt_str(params.format), opt_str(params.hdr), opt_str(meta.hdr))
                == Some(t@),
            None => spec_hdr_note(opt_str(params.format), opt_str(params.hdr), opt_str(meta.hdr)) is None,
        },
{
    let dropped = match &meta.hdr {
        Some(v) => str_eq(v.as_str(), "false"),
        None => false,
    };
    let requested = match &params.hdr {
        Some(h) => Some(h.as_str()),
        None => None,
    };
    match requested {
        None => None,
        Some(h) => {
            if !dropped {
                None
            } else {
                let carries = match &params.format {
                    None => true,
                    Some(f) => str_eq(f.as_str(), "jpg") || str_eq(f.as_str(), "jpeg"),
                };
                if !carries {
                    Some(
                        "  note: no HDR gain map in the output — only jpg output can carry one. Re-run with -t jpg.",
                    )
                } else if str_eq(h, "1") {
                    Some(
                        "  note: the source had no gain map to preserve. Use --hdr generate to synthesise one.",
                    )
                } else {
                    Some("  note: the output carries no HDR gain map.")
                }
            }
        },
    }
}

/// The line after an `optimize` result saying how much smaller it got; a
/// saving of 0 means the original came back unchanged.
pub open spec fn saved_line(op: Seq<char>, pct: Option<Seq<char>>) -> Seq<Seq<char>> {
    if op == "optimize"@ && pct is Some {
        if pct->0 == "0"@ {
            seq!["  ← already well optimized — the original was returned unchanged"@]
        } else {
            seq!["  ← "@ + pct->0 + "% smaller"@]
        }
    } else {
        seq![]
    }
}

/// The detail parts of a PDF result: latency, pages, images, recompressed.
pub open spec fn pdf_detail_parts(m: PdfMeta) -> Seq<Seq<char>> {
    wrapped_part(Seq::empty(), opt_str(m.latency_ms), "ms"@) + wrapped_part(
        Seq::empty(),
        opt_str(m.pages),
        " pages"@,
    ) + wrapped_part(Seq::empty(), opt_str(m.images), " images"@) + wrapped_part(
        Seq::empty(),
        opt_str(m.recompressed),
        " recompressed"@,
    )
}

/// What is printed about a PDF result: the saving of `optimize` always, the
/// other headers only when verbose (and only when there are any).
pub open spec fn spec_pdf_meta_lines(op: Seq<char>, m: PdfMeta, verbose: bool) -> Seq<Seq<char>> {
    saved_line(op, opt_str(m.saved_pct)) + if verbose && pdf_detail_parts(m).len() > 0 {
        seq!["  ← "@ + joined(pdf_detail_parts(m), " · "@)]
    } else {
        seq![]
    }
}

fn detail_parts(meta: &PdfMeta) -> (r: Vec<String>)
    ensures
        strings_view(r@) == pdf_detail_parts(*meta),
{
    let mut parts: Vec<String> = Vec::new();
    assert(strings_view(parts@) =~= Seq::empty());
    add_wrapped(&mut parts, "", &meta.latency_ms, "ms");
    add_wrapped(&mut parts, "", &meta.pages, " pages");
    add_wrapped(&mut parts, "", &meta.images, " images");
    add_wrapped(&mut parts, "", &meta.recompressed, " recompressed");
    proof {
        reveal_strlit("");
    }
    assert(strings_view(parts@) =~= pdf_detail_parts(*meta));
    parts
}

/// The lines to print about a PDF result (see [`spec_pdf_meta_lines`]).
pub fn print_pdf_meta(params: &PdfParams, meta: &PdfMeta, verbose: bool) -> (r: Vec<String>)
    ensures
        strings_view(r@) == spec_pdf_meta_lines(params.op@, *meta, verbose),
{
    let mut lines: Vec<String> = Vec::new();
    assert(strings_view(lines@) =~= Seq::empty());
    if str_eq(params.op.as_str(), "optimize") {
        match &meta.saved_pct {
            Some(pct) => {
                if str_eq(pct.as_str(), "0") {
                    add_part(
                        &mut lines,
                        owned("  ← already well optimized — the original was returned unchanged"),
                    );
                } else {
                    add_part(&mut lines, owned("  ← ").concat(pct.as_str()).concat("% smaller"));
                }
            },
            None => {},
        }
    }
    let ghost first = strings_view(lines@);
    assert(first =~= saved_line(params.op@, opt_str(meta.saved_pct)));
    if verbose {
        let parts = detail_parts(meta);
        if parts.len() > 0 {
            add_part(&mut lines, owned("  ← ").concat(join_strings(&parts, " · ").as_str()));
        }
    }
    assert(strings_view(lines@) =~= spec_pdf_meta_lines(params.op@, *meta, verbose));
    lines
}

/// The parts of an image result's report.
pub open spec fn squish_meta_parts(m: SquishMeta) -> Seq<Seq<char>> {
    wrapped_part(Seq::empty(), opt_str(m.latency_ms), "ms"@) + (if m.optimized {
        seq!["optimized"@]
    } else {
        seq!["not optimized"@] + wrapped_part("("@, opt_str(m.reason), ")"@)
    }) + wrapped_part("quality "@, opt_str(m.quality), Seq::empty()) + wrapped_part(
        "saliency "@,
        opt_str(m.saliency),
        Seq::empty(),
    ) + part_if(m.bg_removed, "bg removed"@) + wrapped_part("hdr "@, opt_str(m.hdr), Seq::empty())
        + wrapped_part("lossless "@, opt_str(m.lossless), Seq::empty())
}

/// The report line of an image result (verbose output).
pub fn print_squish_meta(meta: &SquishMeta) -> (r: String)
    ensures
        r@ == "  ← "@ + joined(squish_meta_parts(*meta), " · "@),
{
    proof {
        reveal_strlit("");
    }
    let mut parts: Vec<String> = Vec::new();
    assert(strings_view(parts@) =~= Seq::empty());
    add_wrapped(&mut parts, "", &meta.latency_ms, "ms");
    let ghost s1 = strings_view(parts@);
    if meta.optimized {
        add_part(&mut parts, owned("optimized"));
    } else {
        add_part(&mut parts, owned("not optimized"));
        add_wrapped(&mut parts, "(", &meta.reason, ")");
    }
    let ghost s2 = strings_view(parts@);
    assert(s2 =~= s1 + if meta.optimized {
        seq!["optimized"@]
    } else {
        seq!["not optimized"@] + wrapped_part("("@, opt_str(meta.reason), ")"@)
    });
    add_wrapped(&mut parts, "quality ", &meta.quality, "");
    add_wrapped(&mut parts, "saliency ", &meta.saliency, "");
    add_part_if(&mut parts, meta.bg_removed, "bg removed");
    add_wrapped(&mut parts, "hdr ", &meta.hdr, "");
    add_wrapped(&mut parts, "lossless ", &meta.lossless, "");
    assert(strings_view(parts@) =~= squish_meta_parts(*meta));
    owned("  ← ").concat(join_strings(&parts, " · ").as_str())
}

/// `suffix` with ` at quality Q` when a quality is set.
pub open spec fn with_quality(suffix: Seq<char>, q: Option<u32>) -> Seq<char> {
    match q {
        Some(q) => suffix + " at quality "@ + decimal(q as nat),
        None => suffix,
    }
}

/// How `extract` describes its output type.
pub open spec fn extract_type_text(f: Option<Seq<char>>) -> Seq<char> {
    match f {
        None => "in their original encoding"@,
        Some(f) => if f == "original"@ {
            "in their original encoding"@
        } else {
            "as "@ + str_uppercased(f)
        },
    }
}

/// How `create` describes its pages.
pub open spec fn pages_text(page: Option<Seq<char>>) -> Seq<char> {
    let page = match page {
        Some(p) => p,
        None => "fit"@,
    };
    if page == "fit"@ {
        "pages sized to each image"@
    } else {
        str_uppercased(page) + " pages"@
    }
}

/// What a PDF request was interpreted as, in words.
pub open spec fn spec_pdf_description(p: PdfParamsView, files: nat) -> Seq<char> {
    if p.op == "split"@ {
        "split into per-page PDFs"@
    } else if p.op == "extract"@ {
        "extract the embedded images "@ + extract_type_text(p.format) + match p.max_width {
            Some(w) => if w > 0 {
                ", capped at "@ + decimal(w as nat) + "px wide"@
            } else {
                Seq::empty()
            },
            None => Seq::empty(),
        }
    } else if p.op == "optimize"@ {
        with_quality("recompress the images inside the PDF"@, p.quality) + (match p.max_dpi {
            Some(d) => ", max "@ + decimal(d as nat) + " DPI"@,
            None => Seq::empty(),
        }) + match p.max_dimension {
            Some(px) => if px > 0 {
                ", max "@ + decimal(px as nat) + "px"@
            } else {
                Seq::empty()
            },
            None => Seq::empty(),
        }
    } else if p.op == "create"@ {
        (if p.combine == Some(false) {
            "build one PDF per image from "@
        } else {
            "build one PDF from "@
        }) + decimal(files) + " images, "@ + pages_text(p.page)
    } else {
        "rasterize to "@ + str_uppercased(
            match p.format {
                Some(f) => f,
                None => "png"@,
            },
        ) + " at "@ + decimal(
            match p.dpi {
                Some(d) => d as nat,
                None => 150,
            },
        ) + " DPI"@
    }
}

fn extract_description(p: &PdfParams) -> (r: String)
    ensures
        r@ == "extract the embedded images "@ + extract_type_text(p@.format) + match p@.max_width {
            Some(w) => if w > 0 {
                ", capped at "@ + decimal(w as nat) + "px wide"@
            } else {
                Seq::empty()
            },
            None => Seq::empty(),
        },
{
    let fmt = match &p.format {
        None => owned("in their original encoding"),
        Some(f) => if str_eq(f.as_str(), "original") {
            owned("in their original encoding")
        } else {
            owned("as ").concat(uppercase_str(f.as_str()).as_str())
        },
    };
    let mut d = owned("extract the embedded images ").concat(fmt.as_str());
    let ghost d0 = d@;
    match p.max_width {
        Some(w) => if w > 0 {
            d.append(", capped at ");
            push_decimal(&mut d, w as u64);
            d.append("px wide");
        },
        None => {},
    }
    assert(d@ =~= d0 + match p@.max_width {
        Some(w) => if w > 0 {
            ", capped at "@ + decimal(w as nat) + "px wide"@
        } else {
            Seq::empty()
        },
        None => Seq::empty(),
    });
    d
}

fn optimize_description(p: &PdfParams) -> (r: String)
    ensures
        r@ == with_quality("recompress the images inside the PDF"@, p@.quality) + (match p@.max_dpi {
            Some(d) => ", max "@ + decimal(d as nat) + " DPI"@,
            None => Seq::empty(),
        }) + match p@.max_dimension {
            Some(px) => if px > 0 {
                ", max "@ + decimal(px as nat) + "px"@
            } else {
                Seq::empty()
            },
            None => Seq::empty(),
        },
{
    let mut d = owned("recompress the images inside the PDF");
    match p.quality {
        Some(q) => {
            d.append(" at quality ");
            push_decimal(&mut d, q as u64);
        },
        None => {},
    }
    let ghost d0 = d@;
    assert(d0 =~= with_quality("recompress the images inside the PDF"@, p@.quality));
    match p.max_dpi {
        Some(dpi) => {
            d.append(", max ");
            push_decimal(&mut d, dpi as u64);
            d.append(" DPI");
        },
        None => {},
    }
    let ghost d1 = d@;
    assert(d1 =~= d0 + match p@.max_dpi {
        Some(d) => ", max "@ + decimal(d as nat) + " DPI"@,
        None => Seq::empty(),
    });
    match p.max_dimension {
        Some(px) => if px > 0 {
            d.append(", max ");
            push_decimal(&mut d, px as u64);
            d.append("px");
        },
        None => {},
    }
    assert(d@ =~= d1 + match p@.max_dimension {
        Some(px) => if px > 0 {
            ", max "@ + decimal(px as nat) + "px"@
        } else {
            Seq::empty()
        },
        None => Seq::empty(),
    });
    d
}

fn create_description(p: &PdfParams, files: usize) -> (r: String)
    ensures
        r@ == (if p@.combine == Some(false) {
            "build one PDF per image from "@
        } else {
            "build one PDF from "@
        }) + decimal(files as nat) + " images, "@ + pages_text(p@.page),
{
    let page = match &p.page {
        Some(pg) => pg.clone(),
        None => owned("fit"),
    };
    let pages = if str_eq(page.as_str(), "fit") {
        owned("pages sized to each image")
    } else {
        uppercase_str(page.as_str()).concat(" pages")
    };
    let mut d = if crate::pdf::is_some_false(p.combine) {
        owned("build one PDF per image from ")
    } else {
        owned("build one PDF from ")
    };
    let ghost d0 = d@;
    push_decimal(&mut d, files as u64);
    d.append(" images, ");
    d.append(pages.as_str());
    assert(d@ =~= d0 + decimal(files as nat) + " images, "@ + pages_text(p@.page));
    d
}

fn rasterize_description(p: &PdfParams) -> (r: String)
    ensures
        r@ == "rasterize to "@ + str_uppercased(
            match p@.format {
                Some(f) => f,
                None => "png"@,
            },
        ) + " at "@ + decimal(
            match p@.dpi {
                Some(d) => d as nat,
                None => 150,
            },
        ) + " DPI"@,
{
    let fmt = match &p.format {
        Some(f) => uppercase_str(f.as_str()),
        None => uppercase_str("png"),
    };
    let dpi: u32 = match p.dpi {
        Some(d) => d,
        None => 150,
    };
    let mut d = owned("rasterize to ").concat(fmt.as_str());
    d.append(" at ");
    let ghost d0 = d@;
    push_decimal(&mut d, dpi as u64);
    d.append(" DPI");
    assert(d@ =~= d0 + decimal(dpi as nat) + " DPI"@);
    d
}

/// The line saying what a PDF request was interpreted as.
pub fn print_pdf_summary(p: &PdfParams, files: usize) -> (r: String)
    ensures
        r@ == "Interpreted: "@ + spec_pdf_description(p@, files as nat),
{
    let op = p.op.as_str();
    let desc = if str_eq(op, "split") {
        owned("split into per-page PDFs")
    } else if str_eq(op, "extract") {
        extract_description(p)
    } else if str_eq(op, "optimize") {
        optimize_description(p)
    } else if str_eq(op, "create") {
        create_description(p, files)
    } else {
        rasterize_description(p)
    };
    owned("Interpreted: ").concat(desc.as_str())
}

} // verus!
