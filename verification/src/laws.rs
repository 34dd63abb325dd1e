//! Properties the library keeps across its operations.

use vstd::prelude::*;
use crate::cli::{Args, spec_explicit_params, spec_pdf_options};
use crate::error::opt_str;
use crate::pdf::{PdfPrompt, spec_pdf_output_base, spec_pdf_output_ext};
use crate::naming::{spec_numbered_name, spec_sanitized, spec_squish_stem};
use crate::params::{
    ProcessParamsView, bool_entry, bool_text, brightness_entry, merged, positive, spec_squish_query,
    unset_params,
};
use crate::pdf::{
    PdfOptionsView, PdfParamsView, bare_pdf_params, lemma_op_name_lengths, spec_for_op,
    spec_pdf_query,
};
use crate::prompt::{spec_variant_at, variant_formats, variant_sizes, PromptFileResult};
use crate::query::{QueryModel, flag_entry, num_entry, query_keys, str_entry};
use crate::modes::spec_hdr_mode;
use crate::text::{decimal, normalized, signed_decimal};

verus! {

/// Merging under parameters that set nothing leaves the prompt's parameters as they are.
pub proof fn law_merge_under_nothing_is_identity(base: ProcessParamsView)
    ensures
        merged(base, unset_params()) == base,
{
}

/// Applying the same explicit parameters twice is the same as applying them once.
pub proof fn law_merge_is_idempotent(base: ProcessParamsView, overrides: ProcessParamsView)
    ensures
        merged(merged(base, overrides), overrides) == merged(base, overrides),
{
}

/// Explicit parameters that set everything decide everything but the
/// variant's name suffix, whatever the prompt said.
pub proof fn law_full_overrides_decide(b1: ProcessParamsView, b2: ProcessParamsView, o: ProcessParamsView)
    requires
        b1.out_name_suffix == b2.out_name_suffix,
        o.format is Some,
        o.width is Some,
        o.height is Some,
        o.crop is Some,
        o.rotation is Some,
        o.output_name is Some,
        o.clarity is Some,
        o.remove_background is Some,
        o.background is Some,
        o.quality is Some,
        o.smart_compress is Some,
        o.brightness is Some,
        o.optimize_for_web is Some,
        o.lossless is Some,
        o.strip_exif is Some,
        o.hdr is Some,
    ensures
        merged(b1, o) == merged(b2, o),
{
}

/// A parameter set that sets nothing sends an empty image query, and so does
/// one whose switches are all off and whose size and brightness are 0.
pub proof fn law_unmeaningful_params_send_nothing(p: ProcessParamsView)
    requires
        p.format is None,
        p.width is None || p.width == Some(0u32),
        p.height is None || p.height == Some(0u32),
        p.crop is None,
        p.rotation is None,
        p.clarity != Some(true),
        p.remove_background != Some(true),
        p.background is None,
        p.strip_exif is None,
        p.hdr is None,
        p.quality is None,
        p.smart_compress != Some(true),
        p.brightness is None || p.brightness == Some(0i32),
        p.optimize_for_web != Some(true),
        p.lossless != Some(true),
    ensures
        spec_squish_query(p).len() == 0,
{
}

/// Every PDF query starts with the operation.
pub proof fn law_pdf_query_leads_with_op(p: PdfParamsView)
    ensures
        spec_pdf_query(p).len() >= 1,
        spec_pdf_query(p)[0] == ("op"@, p.op),
{
}

/// `split` sends its operation and nothing else, whatever else is set.
pub proof fn law_split_query_is_op_only(p: PdfParamsView)
    requires
        p.op == "split"@,
    ensures
        spec_pdf_query(p) == seq![("op"@, "split"@)],
{
    lemma_op_name_lengths();
    assert(spec_pdf_query(p) =~= seq![("op"@, "split"@)]);
}

/// `optimize` never sends an image type: it always writes JPEG into the PDF.
pub proof fn law_optimize_query_has_no_type(p: PdfParamsView)
    requires
        p.op == "optimize"@,
    ensures
        !query_keys(spec_pdf_query(p)).contains("type"@),
{
    lemma_op_name_lengths();
    reveal_strlit("type");
    reveal_strlit("op");
    reveal_strlit("quality");
    reveal_strlit("maxDpi");
    reveal_strlit("maxDimension");
    reveal_strlit("minSize");
    let q = spec_pdf_query(p);
    assert forall|i: int| 0 <= i < q.len() implies (#[trigger] q[i]).0.len() != 4 by {
    }
    if query_keys(q).contains("type"@) {
        let i = choose|i: int| 0 <= i < query_keys(q).len() && query_keys(q)[i] == "type"@;
        assert(q[i].0.len() != 4);
    }
}

/// A validated PDF operation is one of the five the service knows, and the
/// parameters carry it unchanged.
pub proof fn law_validated_op_is_known(op: Seq<char>, opts: PdfOptionsView)
    requires
        spec_for_op(op, opts) is Ok,
    ensures
        op == "split"@ || op == "rasterize"@ || op == "extract"@ || op == "optimize"@ || op
            == "create"@,
        spec_for_op(op, opts)->Ok_0.op == op,
{
}

/// `split` takes no parameters at all, whatever options it is given.
pub proof fn law_split_ignores_options(opts: PdfOptionsView)
    ensures
        spec_for_op("split"@, opts) == Ok::<PdfParamsView, crate::error::ErrorView>(bare_pdf_params("split"@)),
{
}

/// `rasterize`, once validated, always has a type and a resolution.
pub proof fn law_rasterize_has_type_and_dpi(opts: PdfOptionsView)
    requires
        spec_for_op("rasterize"@, opts) is Ok,
    ensures
        spec_for_op("rasterize"@, opts)->Ok_0.format is Some,
        spec_for_op("rasterize"@, opts)->Ok_0.dpi is Some,
{
    lemma_op_name_lengths();
}

/// A job with one variant carries no name suffix; every variant of a job
/// with several carries one.
pub proof fn law_suffix_iff_several_variants(f: PromptFileResult, k: int)
    requires
        0 <= k < variant_sizes(f).len() * variant_formats(f).len(),
    ensures
        (spec_variant_at(f, k).out_name_suffix is None) <==> (variant_sizes(f).len() == 1
            && variant_formats(f).len() == 1),
{
    assert(variant_formats(f).len() >= 1);
}

/// The decimal representation of a number has at least two digits from 10 on.
pub proof fn lemma_decimal_len(n: nat)
    ensures
        decimal(n).len() >= 1,
        n >= 10 ==> decimal(n).len() >= 2,
    decreases n,
{
    if n >= 10 {
        lemma_decimal_len(n / 10);
    }
}

/// Different digits have different characters.
proof fn lemma_digit_char_injective(x: int, y: int)
    requires
        0 <= x < 10,
        0 <= y < 10,
        crate::text::digit_char(x) == crate::text::digit_char(y),
    ensures
        x == y,
{
    assert(crate::text::digit_char(x) as int == 48 + x);
    assert(crate::text::digit_char(y) as int == 48 + y);
}

/// Different numbers have different decimal representations.
pub proof fn lemma_decimal_injective(a: nat, b: nat)
    requires
        decimal(a) == decimal(b),
    ensures
        a == b,
    decreases a,
{
    lemma_decimal_len(a);
    lemma_decimal_len(b);
    if a < 10 && b < 10 {
        assert(decimal(a) == seq![crate::text::digit_char(a as int)]);
        assert(decimal(b) == seq![crate::text::digit_char(b as int)]);
        let ca = crate::text::digit_char(a as int);
        let cb = crate::text::digit_char(b as int);
        assert(seq![ca][0] == ca);
        assert(seq![cb][0] == cb);
        assert(decimal(a)[0] == decimal(b)[0]);
        lemma_digit_char_injective(a as int, b as int);
    } else if a >= 10 && b >= 10 {
        assert(decimal(a) == decimal(a / 10).push(crate::text::digit_char((a % 10) as int)));
        assert(decimal(b) == decimal(b / 10).push(crate::text::digit_char((b % 10) as int)));
        let ca = crate::text::digit_char((a % 10) as int);
        let cb = crate::text::digit_char((b % 10) as int);
        assert(decimal(a / 10).push(ca).last() == ca);
        assert(decimal(b / 10).push(cb).last() == cb);
        assert(decimal(a).last() == decimal(b).last());
        lemma_digit_char_injective((a % 10) as int, (b % 10) as int);
        assert(decimal(a).drop_last() =~= decimal(a / 10));
        assert(decimal(b).drop_last() =~= decimal(b / 10));
        lemma_decimal_injective(a / 10, b / 10);
        assert(a == 10 * (a / 10) + a % 10) by (nonlinear_arith);
        assert(b == 10 * (b / 10) + b % 10) by (nonlinear_arith);
    }
}

/// Successive candidates for a file name are all different, so searching
/// them for a free name never proposes the same name twice.
pub proof fn law_numbered_names_distinct(base: Seq<char>, ext: Seq<char>, n: nat, m: nat)
    requires
        n != m,
    ensures
        spec_numbered_name(base, ext, n) != spec_numbered_name(base, ext, m),
{
    lemma_decimal_len(n);
    lemma_decimal_len(m);
    let sn = spec_numbered_name(base, ext, n);
    let sm = spec_numbered_name(base, ext, m);
    if n == 0 {
        assert(sn.len() == base.len() + 1 + ext.len());
        assert(sm.len() == base.len() + 1 + decimal(m).len() + 1 + ext.len());
    } else if m == 0 {
        assert(sm.len() == base.len() + 1 + ext.len());
        assert(sn.len() == base.len() + 1 + decimal(n).len() + 1 + ext.len());
    }
    if spec_numbered_name(base, ext, n) == spec_numbered_name(base, ext, m) {
        let s = spec_numbered_name(base, ext, n);
        if n != 0 && m != 0 {
            let dn = decimal(n);
            let dm = decimal(m);
            assert(s.len() == base.len() + 1 + dn.len() + 1 + ext.len());
            assert(spec_numbered_name(base, ext, m).len() == base.len() + 1 + dm.len() + 1 + ext.len());
            assert(dn.len() == dm.len());
            let start: int = base.len() as int + 1;
            assert(s.subrange(start, start + dn.len()) =~= dn);
            assert(spec_numbered_name(base, ext, m).subrange(start, start + dm.len()) =~= dm);
            lemma_decimal_injective(n, m);
        }
    }
}

/// A single-variant result with no requested name is saved under the
/// input's own stem, except where that would land on the input itself: then
/// it gets `_mochified`, so it is never named as its input.
pub proof fn law_mochified_only_on_the_input(stem: Seq<char>, p: ProcessParamsView, lands_on_input: bool)
    requires
        p.out_name_suffix is None,
        p.output_name is None,
    ensures
        spec_squish_stem(stem, p, lands_on_input) == if lands_on_input {
            stem + "_mochified"@
        } else {
            stem
        },
        lands_on_input ==> spec_squish_stem(stem, p, lands_on_input) != stem,
{
    reveal_strlit("_mochified");
    if lands_on_input {
        assert((stem + "_mochified"@).len() != stem.len());
    }
}

/// Normalising an HDR mode twice is normalising it once: each wire value
/// (`1`, `generate`) is itself a spelling of its mode.
pub proof fn law_hdr_mode_is_idempotent(mode: Seq<char>)
    requires
        spec_hdr_mode(mode) is Ok,
    ensures
        spec_hdr_mode(spec_hdr_mode(mode)->Ok_0) == spec_hdr_mode(mode),
{
    reveal_strlit("1");
    reveal_strlit("generate");
    let one = "1"@;
    let gen = "generate"@;
    assert(one.map_values(|c: char| crate::text::ascii_lower(c)) =~= one);
    assert(gen.map_values(|c: char| crate::text::ascii_lower(c)) =~= gen);
    assert(normalized(one) == one);
    assert(normalized(gen) == gen);
    reveal_strlit("preserve");
    reveal_strlit("keep");
    reveal_strlit("true");
    reveal_strlit("on");
    reveal_strlit("yes");
    assert(gen[0] != "preserve"@[0]);
    assert(gen != "preserve"@);
    assert(gen != "keep"@ && gen != "1"@ && gen != "true"@ && gen != "on"@ && gen != "yes"@);
    assert(crate::modes::hdr_wire_value(one) == Ok::<Seq<char>, crate::error::ErrorView>(one));
    assert(crate::modes::hdr_wire_value(gen) == Ok::<Seq<char>, crate::error::ErrorView>(gen));
}

/// The requested output name and the variant suffix both survive into the
/// saved stem: a requested name replaces the input's stem, and a variant's
/// suffix is appended to whichever of the two is used.
pub proof fn law_requested_name_and_suffix_both_kept(stem: Seq<char>, p: ProcessParamsView, lands_on_input: bool)
    ensures
        p.output_name is Some && p.out_name_suffix is Some ==> spec_squish_stem(stem, p, lands_on_input)
            == spec_sanitized(p.output_name->0) + p.out_name_suffix->0,
        p.output_name is None && p.out_name_suffix is Some ==> spec_squish_stem(stem, p, lands_on_input)
            == stem + p.out_name_suffix->0,
        p.output_name is Some && p.out_name_suffix is None ==> spec_squish_stem(stem, p, lands_on_input)
            == spec_sanitized(p.output_name->0),
{
}

/// Every variant the prompt's answer for a file expands into keeps what the
/// answer asked of the file as a whole: crop, name, clarity, background
/// removal and colour, quality; a nonzero rotation; HDR as `generate`; a
/// nonzero brightness; each switch only when it is on; metadata untouched.
pub proof fn law_variants_keep_the_answer(f: PromptFileResult, k: int)
    requires
        0 <= k < variant_sizes(f).len() * variant_formats(f).len(),
    ensures
        spec_variant_at(f, k).crop == f.crop,
        spec_variant_at(f, k).output_name == opt_str(f.output_name),
        spec_variant_at(f, k).clarity == f.clarity,
        spec_variant_at(f, k).remove_background == f.remove_background,
        spec_variant_at(f, k).background == opt_str(f.background),
        spec_variant_at(f, k).quality == f.quality,
        f.rotate != 0 ==> spec_variant_at(f, k).rotation == Some(f.rotate),
        f.rotate == 0 ==> spec_variant_at(f, k).rotation is None,
        f.hdr == Some(true) ==> spec_variant_at(f, k).hdr == Some("generate"@),
        f.hdr != Some(true) ==> spec_variant_at(f, k).hdr is None,
        f.brightness is Some && f.brightness->0 != 0 ==> spec_variant_at(f, k).brightness
            == f.brightness,
        f.brightness is None || f.brightness == Some(0i32) ==> spec_variant_at(f, k).brightness
            is None,
        spec_variant_at(f, k).smart_compress == Some(true) <==> f.smart_compress == Some(true),
        spec_variant_at(f, k).smart_compress != Some(false),
        spec_variant_at(f, k).optimize_for_web == Some(true) <==> f.optimize_for_web == Some(true),
        spec_variant_at(f, k).optimize_for_web != Some(false),
        spec_variant_at(f, k).lossless == Some(true) <==> f.lossless == Some(true),
        spec_variant_at(f, k).lossless != Some(false),
        spec_variant_at(f, k).strip_exif is None,
{
}

/// Every (size, format) pair of the answer has its variant: variant
/// `a * formats + b` has size `a` and format `b`.
pub proof fn law_every_size_and_format_has_its_variant(f: PromptFileResult, a: int, b: int)
    requires
        0 <= a < variant_sizes(f).len(),
        0 <= b < variant_formats(f).len(),
    ensures
        0 <= a * variant_formats(f).len() + b < variant_sizes(f).len() * variant_formats(f).len(),
        spec_variant_at(f, a * variant_formats(f).len() + b).format == Some(variant_formats(f)[b]),
        spec_variant_at(f, a * variant_formats(f).len() + b).width == variant_sizes(f)[a].0,
        spec_variant_at(f, a * variant_formats(f).len() + b).height == variant_sizes(f)[a].1,
{
    let n = variant_formats(f).len() as int;
    let m = variant_sizes(f).len() as int;
    let k = a * n + b;
    vstd::arithmetic::div_mod::lemma_fundamental_div_mod_converse(k, n, a, b);
    assert(a * n + b < m * n) by (nonlinear_arith)
        requires
            0 <= a < m,
            0 <= b < n,
    ;
    assert(0 <= a * n) by (nonlinear_arith)
        requires
            0 <= a,
            0 <= n,
    ;
}

/// Each PDF operation takes exactly its own options, unchanged: `create`
/// its quality, resolution, width cap and combine choice; `extract` its
/// quality, width cap and minimum size; `optimize` its quality and minimum
/// size, with the resolution as the target resolution and the width cap as
/// the longest-side cap; `rasterize` its quality and resolution (150 when
/// unset). Options an operation does not take are never set.
pub proof fn law_pdf_options_reach_their_parameters(opts: PdfOptionsView)
    ensures
        spec_for_op("create"@, opts) is Ok ==> {
            let p = spec_for_op("create"@, opts)->Ok_0;
            &&& p.op == "create"@
            &&& p.quality == opts.quality
            &&& p.dpi == opts.dpi
            &&& p.max_width == opts.max_width
            &&& p.combine == opts.combine
            &&& p.format is None && p.max_dpi is None && p.max_dimension is None && p.min_size is None
            &&& (opts.page is None ==> p.page is None)
        },
        opts.page is None ==> spec_for_op("create"@, opts) is Ok,
        spec_for_op("extract"@, opts) is Ok ==> {
            let p = spec_for_op("extract"@, opts)->Ok_0;
            &&& p.op == "extract"@
            &&& p.quality == opts.quality
            &&& p.max_width == opts.max_width
            &&& p.min_size == opts.min_size
            &&& (opts.format is None ==> p.format is None)
            &&& p.dpi is None && p.max_dpi is None && p.max_dimension is None && p.page is None
                && p.combine is None
        },
        spec_for_op("optimize"@, opts) is Ok,
        ({
            let p = spec_for_op("optimize"@, opts)->Ok_0;
            &&& p.op == "optimize"@
            &&& p.quality == opts.quality
            &&& p.max_dpi == opts.dpi
            &&& p.max_dimension == opts.max_width
            &&& p.min_size == opts.min_size
            &&& p.format is None && p.dpi is None && p.max_width is None && p.page is None
                && p.combine is None
        }),
        spec_for_op("rasterize"@, opts) is Ok ==> {
            let p = spec_for_op("rasterize"@, opts)->Ok_0;
            &&& p.op == "rasterize"@
            &&& p.quality == opts.quality
            &&& (opts.dpi is Some ==> p.dpi == opts.dpi)
            &&& (opts.dpi is None ==> p.dpi == Some(150u32))
            &&& (opts.format is None ==> p.format == Some("png"@))
            &&& p.max_dpi is None && p.max_dimension is None && p.max_width is None && p.min_size
                is None && p.page is None && p.combine is None
        },
        opts.format is None ==> spec_for_op("rasterize"@, opts) is Ok && spec_for_op("extract"@, opts) is Ok,
{
    lemma_op_name_lengths();
}

/// Every parameter an image request sets meaningfully is sent, with its
/// value: the type, a positive width or height, crop, a rotation, each
/// switch that is on, the background colour, metadata handling when set,
/// the HDR mode, the quality and a nonzero brightness.
pub proof fn law_squish_query_sends_what_is_set(p: ProcessParamsView)
    ensures
        p.format is Some ==> spec_squish_query(p).contains(("type"@, p.format->0)),
        p.width is Some && p.width->0 > 0 ==> spec_squish_query(p).contains(
            ("width"@, decimal(p.width->0 as nat)),
        ),
        p.height is Some && p.height->0 > 0 ==> spec_squish_query(p).contains(
            ("height"@, decimal(p.height->0 as nat)),
        ),
        p.crop == Some(true) ==> spec_squish_query(p).contains(("crop"@, "true"@)),
        p.crop == Some(false) ==> spec_squish_query(p).contains(("crop"@, "false"@)),
        p.rotation is Some ==> spec_squish_query(p).contains(
            ("rotate"@, decimal(p.rotation->0 as nat)),
        ),
        p.clarity == Some(true) ==> spec_squish_query(p).contains(("clarity"@, "1"@)),
        p.remove_background == Some(true) ==> spec_squish_query(p).contains(
            ("removeBackground"@, "1"@),
        ),
        p.background is Some ==> spec_squish_query(p).contains(("background"@, p.background->0)),
        p.strip_exif == Some(true) ==> spec_squish_query(p).contains(("stripExif"@, "true"@)),
        p.strip_exif == Some(false) ==> spec_squish_query(p).contains(("stripExif"@, "false"@)),
        p.hdr is Some ==> spec_squish_query(p).contains(("hdr"@, p.hdr->0)),
        p.quality is Some ==> spec_squish_query(p).contains(
            ("quality"@, decimal(p.quality->0 as nat)),
        ),
        p.smart_compress == Some(true) ==> spec_squish_query(p).contains(("smartCompress"@, "1"@)),
        p.brightness is Some && p.brightness->0 != 0 ==> spec_squish_query(p).contains(
            ("brightness"@, signed_decimal(p.brightness->0 as int)),
        ),
        p.optimize_for_web == Some(true) ==> spec_squish_query(p).contains(
            ("optimizeForWeb"@, "1"@),
        ),
        p.lossless == Some(true) ==> spec_squish_query(p).contains(("lossless"@, "1"@)),
{
    let g = crate::params::geometry_section(p);
    let e = crate::params::edit_section(p);
    let q = crate::params::quality_section(p);
    lemma_geometry_sent(p);
    lemma_edits_sent(p);
    lemma_quality_sent(p);
    assert forall|x: (Seq<char>, Seq<char>)| g.contains(x) || e.contains(x) || q.contains(x)
        implies #[trigger] spec_squish_query(p).contains(x) by {
        lemma_in_sum3(g, e, q, x);
    }
}

/// A pair of one of three queries is in the three laid end to end.
proof fn lemma_in_sum3(a: QueryModel, b: QueryModel, c: QueryModel, x: (Seq<char>, Seq<char>))
    requires
        a.contains(x) || b.contains(x) || c.contains(x),
    ensures
        (a + b + c).contains(x),
{
    if a.contains(x) {
        let i = choose|i: int| 0 <= i < a.len() && a[i] == x;
        assert((a + b + c)[i] == x);
    } else if b.contains(x) {
        let i = choose|i: int| 0 <= i < b.len() && b[i] == x;
        assert((a + b + c)[a.len() + i] == x);
    } else {
        let i = choose|i: int| 0 <= i < c.len() && c[i] == x;
        assert((a + b + c)[a.len() + b.len() + i] == x);
    }
}

/// A pair of one of five queries is in the five laid end to end.
proof fn lemma_in_sum5(
    a: QueryModel,
    b: QueryModel,
    c: QueryModel,
    d: QueryModel,
    e: QueryModel,
    x: (Seq<char>, Seq<char>),
)
    requires
        a.contains(x) || b.contains(x) || c.contains(x) || d.contains(x) || e.contains(x),
    ensures
        (a + b + c + d + e).contains(x),
{
    if a.contains(x) || b.contains(x) || c.contains(x) {
        lemma_in_sum3(a, b, c, x);
        lemma_in_sum3(a + b + c, d, e, x);
    } else {
        lemma_in_sum3(a + b + c, d, e, x);
    }
}

proof fn lemma_geometry_sent(p: ProcessParamsView)
    ensures
        p.format is Some ==> crate::params::geometry_section(p).contains(("type"@, p.format->0)),
        p.width is Some && p.width->0 > 0 ==> crate::params::geometry_section(p).contains(
            ("width"@, decimal(p.width->0 as nat)),
        ),
        p.height is Some && p.height->0 > 0 ==> crate::params::geometry_section(p).contains(
            ("height"@, decimal(p.height->0 as nat)),
        ),
        p.crop is Some ==> crate::params::geometry_section(p).contains(("crop"@, bool_text(p.crop->0))),
        p.rotation is Some ==> crate::params::geometry_section(p).contains(
            ("rotate"@, decimal(p.rotation->0 as nat)),
        ),
{
    let a = str_entry("type"@, p.format);
    let b = num_entry("width"@, positive(p.width));
    let c = num_entry("height"@, positive(p.height));
    let d = bool_entry("crop"@, p.crop);
    let e = num_entry("rotate"@, p.rotation);
    assert(crate::params::geometry_section(p) == a + b + c + d + e);
    assert forall|x: (Seq<char>, Seq<char>)|
        #![trigger crate::params::geometry_section(p).contains(x)]
        (a.len() > 0 && a[0] == x) || (b.len() > 0 && b[0] == x) || (c.len() > 0 && c[0] == x) || (
        d.len() > 0 && d[0] == x) || (e.len() > 0 && e[0] == x) implies crate::params::geometry_section(
        p,
    ).contains(x) by {
        assert(a.len() > 0 && a[0] == x ==> a.contains(x));
        assert(b.len() > 0 && b[0] == x ==> b.contains(x));
        assert(c.len() > 0 && c[0] == x ==> c.contains(x));
        assert(d.len() > 0 && d[0] == x ==> d.contains(x));
        assert(e.len() > 0 && e[0] == x ==> e.contains(x));
        lemma_in_sum5(a, b, c, d, e, x);
    }
    if p.format is Some {
        assert(a[0] == ("type"@, p.format->0));
    }
    if p.width is Some && p.width->0 > 0 {
        assert(b[0] == ("width"@, decimal(p.width->0 as nat)));
    }
    if p.height is Some && p.height->0 > 0 {
        assert(c[0] == ("height"@, decimal(p.height->0 as nat)));
    }
    if p.crop is Some {
        assert(d[0] == ("crop"@, bool_text(p.crop->0)));
    }
    if p.rotation is Some {
        assert(e[0] == ("rotate"@, decimal(p.rotation->0 as nat)));
    }
}

proof fn lemma_edits_sent(p: ProcessParamsView)
    ensures
        p.clarity == Some(true) ==> crate::params::edit_section(p).contains(("clarity"@, "1"@)),
        p.remove_background == Some(true) ==> crate::params::edit_section(p).contains(
            ("removeBackground"@, "1"@),
        ),
        p.background is Some ==> crate::params::edit_section(p).contains(("background"@, p.background->0)),
        p.strip_exif is Some ==> crate::params::edit_section(p).contains(
            ("stripExif"@, bool_text(p.strip_exif->0)),
        ),
        p.hdr is Some ==> crate::params::edit_section(p).contains(("hdr"@, p.hdr->0)),
{
    let a = flag_entry("clarity"@, p.clarity == Some(true), "1"@);
    let b = flag_entry("removeBackground"@, p.remove_background == Some(true), "1"@);
    let c = str_entry("background"@, p.background);
    let d = bool_entry("stripExif"@, p.strip_exif);
    let e = str_entry("hdr"@, p.hdr);
    assert(crate::params::edit_section(p) == a + b + c + d + e);
    assert forall|x: (Seq<char>, Seq<char>)|
        #![trigger crate::params::edit_section(p).contains(x)]
        (a.len() > 0 && a[0] == x) || (b.len() > 0 && b[0] == x) || (c.len() > 0 && c[0] == x) || (
        d.len() > 0 && d[0] == x) || (e.len() > 0 && e[0] == x) implies crate::params::edit_section(
        p,
    ).contains(x) by {
        assert(a.len() > 0 && a[0] == x ==> a.contains(x));
        assert(b.len() > 0 && b[0] == x ==> b.contains(x));
        assert(c.len() > 0 && c[0] == x ==> c.contains(x));
        assert(d.len() > 0 && d[0] == x ==> d.contains(x));
        assert(e.len() > 0 && e[0] == x ==> e.contains(x));
        lemma_in_sum5(a, b, c, d, e, x);
    }
    if p.clarity == Some(true) {
        assert(a[0] == ("clarity"@, "1"@));
    }
    if p.remove_background == Some(true) {
        assert(b[0] == ("removeBackground"@, "1"@));
    }
    if p.background is Some {
        assert(c[0] == ("background"@, p.background->0));
    }
    if p.strip_exif is Some {
        assert(d[0] == ("stripExif"@, bool_text(p.strip_exif->0)));
    }
    if p.hdr is Some {
        assert(e[0] == ("hdr"@, p.hdr->0));
    }
}

proof fn lemma_quality_sent(p: ProcessParamsView)
    ensures
        p.quality is Some ==> crate::params::quality_section(p).contains(
            ("quality"@, decimal(p.quality->0 as nat)),
        ),
        p.smart_compress == Some(true) ==> crate::params::quality_section(p).contains(
            ("smartCompress"@, "1"@),
        ),
        p.brightness is Some && p.brightness->0 != 0 ==> crate::params::quality_section(p).contains(
            ("brightness"@, signed_decimal(p.brightness->0 as int)),
        ),
        p.optimize_for_web == Some(true) ==> crate::params::quality_section(p).contains(
            ("optimizeForWeb"@, "1"@),
        ),
        p.lossless == Some(true) ==> crate::params::quality_section(p).contains(("lossless"@, "1"@)),
{
    let a = num_entry("quality"@, p.quality);
    let b = flag_entry("smartCompress"@, p.smart_compress == Some(true), "1"@);
    let c = brightness_entry(p.brightness);
    let d = flag_entry("optimizeForWeb"@, p.optimize_for_web == Some(true), "1"@);
    let e = flag_entry("lossless"@, p.lossless == Some(true), "1"@);
    assert(crate::params::quality_section(p) == a + b + c + d + e);
    assert forall|x: (Seq<char>, Seq<char>)|
        #![trigger crate::params::quality_section(p).contains(x)]
        (a.len() > 0 && a[0] == x) || (b.len() > 0 && b[0] == x) || (c.len() > 0 && c[0] == x) || (
        d.len() > 0 && d[0] == x) || (e.len() > 0 && e[0] == x) implies crate::params::quality_section(
        p,
    ).contains(x) by {
        assert(a.len() > 0 && a[0] == x ==> a.contains(x));
        assert(b.len() > 0 && b[0] == x ==> b.contains(x));
        assert(c.len() > 0 && c[0] == x ==> c.contains(x));
        assert(d.len() > 0 && d[0] == x ==> d.contains(x));
        assert(e.len() > 0 && e[0] == x ==> e.contains(x));
        lemma_in_sum5(a, b, c, d, e, x);
    }
    if p.quality is Some {
        assert(a[0] == ("quality"@, decimal(p.quality->0 as nat)));
    }
    if p.smart_compress == Some(true) {
        assert(b[0] == ("smartCompress"@, "1"@));
    }
    if p.brightness is Some && p.brightness->0 != 0 {
        assert(c[0] == ("brightness"@, signed_decimal(p.brightness->0 as int)));
    }
    if p.optimize_for_web == Some(true) {
        assert(d[0] == ("optimizeForWeb"@, "1"@));
    }
    if p.lossless == Some(true) {
        assert(e[0] == ("lossless"@, "1"@));
    }
}

/// Every parameter an operation understands is sent for it when set, with
/// its value: `rasterize` its resolution, quality and type; `extract` its
/// quality, width cap, minimum size and type; `optimize` its quality,
/// target resolution, longest-side cap and minimum size; `create` its
/// quality, resolution, width cap, page size and combine choice.
pub proof fn law_pdf_query_sends_what_the_op_takes(p: PdfParamsView)
    ensures
        p.op == "rasterize"@ && p.dpi is Some ==> spec_pdf_query(p).contains(
            ("dpi"@, decimal(p.dpi->0 as nat)),
        ),
        p.op == "rasterize"@ && p.quality is Some ==> spec_pdf_query(p).contains(
            ("quality"@, decimal(p.quality->0 as nat)),
        ),
        p.op == "rasterize"@ && p.format is Some ==> spec_pdf_query(p).contains(
            ("type"@, p.format->0),
        ),
        p.op == "extract"@ && p.quality is Some ==> spec_pdf_query(p).contains(
            ("quality"@, decimal(p.quality->0 as nat)),
        ),
        p.op == "extract"@ && p.max_width is Some ==> spec_pdf_query(p).contains(
            ("maxWidth"@, decimal(p.max_width->0 as nat)),
        ),
        p.op == "extract"@ && p.min_size is Some ==> spec_pdf_query(p).contains(
            ("minSize"@, decimal(p.min_size->0 as nat)),
        ),
        p.op == "extract"@ && p.format is Some ==> spec_pdf_query(p).contains(
            ("type"@, p.format->0),
        ),
        p.op == "optimize"@ && p.quality is Some ==> spec_pdf_query(p).contains(
            ("quality"@, decimal(p.quality->0 as nat)),
        ),
        p.op == "optimize"@ && p.max_dpi is Some ==> spec_pdf_query(p).contains(
            ("maxDpi"@, decimal(p.max_dpi->0 as nat)),
        ),
        p.op == "optimize"@ && p.max_dimension is Some ==> spec_pdf_query(p).contains(
            ("maxDimension"@, decimal(p.max_dimension->0 as nat)),
        ),
        p.op == "optimize"@ && p.min_size is Some ==> spec_pdf_query(p).contains(
            ("minSize"@, decimal(p.min_size->0 as nat)),
        ),
        p.op == "create"@ && p.quality is Some ==> spec_pdf_query(p).contains(
            ("quality"@, decimal(p.quality->0 as nat)),
        ),
        p.op == "create"@ && p.dpi is Some ==> spec_pdf_query(p).contains(
            ("dpi"@, decimal(p.dpi->0 as nat)),
        ),
        p.op == "create"@ && p.max_width is Some ==> spec_pdf_query(p).contains(
            ("maxWidth"@, decimal(p.max_width->0 as nat)),
        ),
        p.op == "create"@ && p.page is Some ==> spec_pdf_query(p).contains(("page"@, p.page->0)),
        p.op == "create"@ && p.combine == Some(true) ==> spec_pdf_query(p).contains(
            ("combine"@, "1"@),
        ),
        p.op == "create"@ && p.combine == Some(false) ==> spec_pdf_query(p).contains(
            ("combine"@, "0"@),
        ),
{
    lemma_op_name_lengths();
    let head = seq![("op"@, p.op)];
    if p.op == "rasterize"@ {
        assert(spec_pdf_query(p) == head + crate::pdf::rasterize_section(p));
        let (a, b, c) = (num_entry("dpi"@, p.dpi), num_entry("quality"@, p.quality), str_entry("type"@, p.format));
        assert(crate::pdf::rasterize_section(p) == a + b + c);
        if p.dpi is Some {
            pdf_pair_sent(head, a + b + c, a[0], a, b, c, seq![], seq![]);
        }
        if p.quality is Some {
            pdf_pair_sent(head, a + b + c, b[0], a, b, c, seq![], seq![]);
        }
        if p.format is Some {
            pdf_pair_sent(head, a + b + c, c[0], a, b, c, seq![], seq![]);
        }
    } else if p.op == "extract"@ {
        assert(spec_pdf_query(p) == head + crate::pdf::extract_section(p));
        let (a, b, c, d) = (
            num_entry("quality"@, p.quality),
            num_entry("maxWidth"@, p.max_width),
            num_entry("minSize"@, p.min_size),
            str_entry("type"@, p.format),
        );
        assert(crate::pdf::extract_section(p) == a + b + c + d + seq![] + seq![]);
        let sec = a + b + c + d + seq![] + seq![];
        if p.quality is Some {
            pdf_pair_sent(head, sec, a[0], a, b, c, d, seq![]);
        }
        if p.max_width is Some {
            pdf_pair_sent(head, sec, b[0], a, b, c, d, seq![]);
        }
        if p.min_size is Some {
            pdf_pair_sent(head, sec, c[0], a, b, c, d, seq![]);
        }
        if p.format is Some {
            pdf_pair_sent(head, sec, d[0], a, b, c, d, seq![]);
        }
    } else if p.op == "optimize"@ {
        assert(spec_pdf_query(p) == head + crate::pdf::optimize_section(p));
        let (a, b, c, d) = (
            num_entry("quality"@, p.quality),
            num_entry("maxDpi"@, p.max_dpi),
            num_entry("maxDimension"@, p.max_dimension),
            num_entry("minSize"@, p.min_size),
        );
        assert(crate::pdf::optimize_section(p) == a + b + c + d + seq![] + seq![]);
        let sec = a + b + c + d + seq![] + seq![];
        if p.quality is Some {
            pdf_pair_sent(head, sec, a[0], a, b, c, d, seq![]);
        }
        if p.max_dpi is Some {
            pdf_pair_sent(head, sec, b[0], a, b, c, d, seq![]);
        }
        if p.max_dimension is Some {
            pdf_pair_sent(head, sec, c[0], a, b, c, d, seq![]);
        }
        if p.min_size is Some {
            pdf_pair_sent(head, sec, d[0], a, b, c, d, seq![]);
        }
    } else if p.op == "create"@ {
        assert(spec_pdf_query(p) == head + crate::pdf::create_section(p));
        let (a, b, c, d, e) = (
            num_entry("quality"@, p.quality),
            num_entry("dpi"@, p.dpi),
            num_entry("maxWidth"@, p.max_width),
            str_entry("page"@, p.page),
            crate::pdf::combine_entry(p.combine),
        );
        assert(crate::pdf::create_section(p) == a + b + c + d + e + seq![]);
        let sec = a + b + c + d + e + seq![];
        if p.quality is Some {
            pdf_pair_sent(head, sec, a[0], a, b, c, d, e);
        }
        if p.dpi is Some {
            pdf_pair_sent(head, sec, b[0], a, b, c, d, e);
        }
        if p.max_width is Some {
            pdf_pair_sent(head, sec, c[0], a, b, c, d, e);
        }
        if p.page is Some {
            pdf_pair_sent(head, sec, d[0], a, b, c, d, e);
        }
        if p.combine is Some {
            pdf_pair_sent(head, sec, e[0], a, b, c, d, e);
        }
    }
}

/// The first pair `x` of one of the pieces `a`..`e` of a section is in the
/// query the section follows `head` in.
proof fn pdf_pair_sent(
    head: QueryModel,
    sec: QueryModel,
    x: (Seq<char>, Seq<char>),
    a: QueryModel,
    b: QueryModel,
    c: QueryModel,
    d: QueryModel,
    e: QueryModel,
)
    requires
        sec == a + b + c + d + e + seq![] || sec == a + b + c,
        (a.len() > 0 && a[0] == x) || (b.len() > 0 && b[0] == x) || (c.len() > 0 && c[0] == x) || (
        d.len() > 0 && d[0] == x) || (e.len() > 0 && e[0] == x),
        sec == a + b + c ==> d.len() == 0 && e.len() == 0,
    ensures
        (head + sec).contains(x),
{
    assert(a.len() > 0 && a[0] == x ==> a.contains(x));
    assert(b.len() > 0 && b[0] == x ==> b.contains(x));
    assert(c.len() > 0 && c[0] == x ==> c.contains(x));
    assert(d.len() > 0 && d[0] == x ==> d.contains(x));
    assert(e.len() > 0 && e[0] == x ==> e.contains(x));
    if sec == a + b + c + d + e + seq![] {
        lemma_in_sum5(a, b, c, d, e, x);
        assert(a + b + c + d + e + seq![] =~= a + b + c + d + e);
    } else {
        lemma_in_sum3(a, b, c, x);
    }
    let i = choose|i: int| 0 <= i < sec.len() && sec[i] == x;
    assert((head + sec)[head.len() + i] == x);
}

/// The explicit image parameters carry every flag as given: values
/// unchanged, each switch as `Some(true)` when on and unset when off,
/// `--keep-metadata` as keeping metadata, and no variant suffix.
pub proof fn law_explicit_flags_are_carried(a: Args)
    ensures
        spec_explicit_params(a) is Ok ==> {
            let p = spec_explicit_params(a)->Ok_0;
            &&& p.format == opt_str(a.format)
            &&& p.width == a.width
            &&& p.height == a.height
            &&& p.rotation == a.rotation
            &&& p.output_name == opt_str(a.name)
            &&& p.background == opt_str(a.background)
            &&& p.quality == a.quality
            &&& p.brightness == a.brightness
            &&& (p.crop == Some(true) <==> a.crop) && p.crop != Some(false)
            &&& (p.clarity == Some(true) <==> a.clarity) && p.clarity != Some(false)
            &&& (p.remove_background == Some(true) <==> a.remove_bg) && p.remove_background != Some(
                false,
            )
            &&& (p.smart_compress == Some(true) <==> a.smart_compress) && p.smart_compress != Some(
                false,
            )
            &&& (p.optimize_for_web == Some(true) <==> a.optimize_for_web) && p.optimize_for_web
                != Some(false)
            &&& (p.lossless == Some(true) <==> a.lossless) && p.lossless != Some(false)
            &&& (p.strip_exif == Some(false) <==> a.keep_metadata) && p.strip_exif != Some(true)
            &&& (p.hdr is Some <==> a.hdr is Some)
            &&& p.out_name_suffix is None
        },
{
}

/// For a PDF request every flag that is set wins over the prompt's answer,
/// and an unset flag leaves the prompt's value; the minimum size only ever
/// comes from its flag, and `--no-combine` always means separate PDFs.
pub proof fn law_pdf_flags_win_over_the_prompt(prompt: Option<PdfPrompt>, a: Args)
    ensures
        a.format is Some ==> spec_pdf_options(prompt, a).format == opt_str(a.format),
        a.dpi is Some ==> spec_pdf_options(prompt, a).dpi == a.dpi,
        a.quality is Some ==> spec_pdf_options(prompt, a).quality == a.quality,
        a.max_width is Some ==> spec_pdf_options(prompt, a).max_width == a.max_width,
        a.page is Some ==> spec_pdf_options(prompt, a).page == opt_str(a.page),
        a.no_combine ==> spec_pdf_options(prompt, a).combine == Some(false),
        spec_pdf_options(prompt, a).min_size == a.min_size,
        prompt is Some && a.format is None ==> spec_pdf_options(prompt, a).format == opt_str(
            prompt->0.format,
        ),
        prompt is Some && a.dpi is None ==> spec_pdf_options(prompt, a).dpi == prompt->0.dpi,
        prompt is Some && a.quality is None ==> spec_pdf_options(prompt, a).quality
            == prompt->0.quality,
        prompt is Some && a.max_width is None ==> spec_pdf_options(prompt, a).max_width
            == prompt->0.max_width,
        prompt is Some && a.page is None ==> spec_pdf_options(prompt, a).page == opt_str(
            prompt->0.page,
        ),
        prompt is Some && !a.no_combine ==> spec_pdf_options(prompt, a).combine
            == prompt->0.combine,
        prompt is None && !a.no_combine ==> spec_pdf_options(prompt, a).combine is None,
{
}

/// A PDF result is named after its input: the stem comes first, unchanged;
/// it is a `.pdf` exactly for `optimize` and a combined `create`, which
/// alone hand back one document, and a `.zip` otherwise; only a combined
/// `create` keeps the bare stem, every other operation adds a suffix.
pub proof fn law_pdf_results_are_named_after_their_input(op: Seq<char>, stem: Seq<char>, combine: Option<bool>)
    ensures
        spec_pdf_output_base(op, stem, combine).len() >= stem.len(),
        spec_pdf_output_base(op, stem, combine).subrange(0, stem.len() as int) == stem,
        spec_pdf_output_ext(op, combine) == "pdf"@ <==> (op == "optimize"@ || (op == "create"@
            && combine != Some(false))),
        spec_pdf_output_ext(op, combine) != "pdf"@ ==> spec_pdf_output_ext(op, combine) == "zip"@,
        (spec_pdf_output_base(op, stem, combine) == stem) <==> (op == "create"@ && combine != Some(
            false,
        )),
{
    lemma_op_name_lengths();
    reveal_strlit("pdf");
    reveal_strlit("zip");
    reveal_strlit("_compressed");
    reveal_strlit("_images");
    reveal_strlit("_pages");
    reveal_strlit("_pdfs");
    reveal_strlit("_rasterized");
    assert("pdf"@[0] != "zip"@[0]);
    let b = spec_pdf_output_base(op, stem, combine);
    assert(b.subrange(0, stem.len() as int) =~= stem);
}

} // verus!
