//! Image processing parameters: merging prompt-derived and explicit values,
//! the image request's query, and the one-line summary of a parameter set.

use vstd::prelude::*;
use crate::error::{clone_opt_str, opt_str};
use crate::query::{
    QueryModel, flag_entry, num_entry, push_flag, push_num, push_opt_str, push_pair, query_view,
    signed_string, str_entry,
};
use crate::text::{
    add_part, add_part_if, lemma_append_nothing, part_if, decimal, join_strings, joined, owned, plus_signed_decimal, push_decimal, push_plus_signed,
    signed_decimal, str_eq, strings_view,
};

verus! {

/// Parameters of one image request.
#[derive(Debug)]
pub struct ProcessParams {
    pub format: Option<String>,
    pub width: Option<u32>,
    pub height: Option<u32>,
    pub crop: Option<bool>,
    pub rotation: Option<u32>,
    /// Suffix appended to the output filename stem for multi-variant jobs (e.g. "_500w_webp").
    pub out_name_suffix: Option<String>,
    /// Explicit output base name (without extension). Overrides the input filename stem.
    pub output_name: Option<String>,
    pub clarity: Option<bool>,
    pub remove_background: Option<bool>,
    pub background: Option<String>,
    /// Quality override 1-100. Overrides smart compression; `lossless` overrides it.
    pub quality: Option<u32>,
    /// Saliency-guided quality selection: detailed subjects get more, flat areas less.
    pub smart_compress: Option<bool>,
    /// Exposure adjustment, -100 (darkest) to +100 (brightest).
    pub brightness: Option<i32>,
    /// Progressive encoding plus 4:2:0 chroma subsampling, for the smallest web file.
    pub optimize_for_web: Option<bool>,
    /// Pixel-exact output; only jxl, webp and png can honour it.
    pub lossless: Option<bool>,
    /// EXIF/metadata handling. The service strips by default; `Some(false)` preserves it.
    pub strip_exif: Option<bool>,
    /// Gain map handling, already normalised to a wire value: `"1"` preserves
    /// a gain map the source has, `"generate"` also synthesises one.
    pub hdr: Option<String>,
}

/// The abstract value of a [`ProcessParams`].
pub struct ProcessParamsView {
    pub format: Option<Seq<char>>,
    pub width: Option<u32>,
    pub height: Option<u32>,
    pub crop: Option<bool>,
    pub rotation: Option<u32>,
    pub out_name_suffix: Option<Seq<char>>,
    pub output_name: Option<Seq<char>>,
    pub clarity: Option<bool>,
    pub remove_background: Option<bool>,
    pub background: Option<Seq<char>>,
    pub quality: Option<u32>,
    pub smart_compress: Option<bool>,
    pub brightness: Option<i32>,
    pub optimize_for_web: Option<bool>,
    pub lossless: Option<bool>,
    pub strip_exif: Option<bool>,
    pub hdr: Option<Seq<char>>,
}

impl View for ProcessParams {
    type V = ProcessParamsView;

    open spec fn view(&self) -> ProcessParamsView {
        ProcessParamsView {
            format: opt_str(self.format),
            width: self.width,
            height: self.height,
            crop: self.crop,
            rotation: self.rotation,
            out_name_suffix: opt_str(self.out_name_suffix),
            output_name: opt_str(self.output_name),
            clarity: self.clarity,
            remove_background: self.remove_background,
            background: opt_str(self.background),
            quality: self.quality,
            smart_compress: self.smart_compress,
            brightness: self.brightness,
            optimize_for_web: self.optimize_for_web,
            lossless: self.lossless,
            strip_exif: self.strip_exif,
            hdr: opt_str(self.hdr),
        }
    }
}

/// A parameter set with nothing set: the original image's own settings.
pub open spec fn unset_params() -> ProcessParamsView {
    ProcessParamsView {
        format: None,
        width: None,
        height: None,
        crop: None,
        rotation: None,
        out_name_suffix: None,
        output_name: None,
        clarity: None,
        remove_background: None,
        background: None,
        quality: None,
        smart_compress: None,
        brightness: None,
        optimize_for_web: None,
        lossless: None,
        strip_exif: None,
        hdr: None,
    }
}

impl Default for ProcessParams {
    fn default() -> (r: ProcessParams)
        ensures
            r@ == unset_params(),
    {
        ProcessParams {
            format: None,
            width: None,
            height: None,
            crop: None,
            rotation: None,
            out_name_suffix: None,
            output_name: None,
            clarity: None,
            remove_background: None,
            background: None,
            quality: None,
            smart_compress: None,
            brightness: None,
            optimize_for_web: None,
            lossless: None,
            strip_exif: None,
            hdr: None,
        }
    }
}

impl Clone for ProcessParams {
    fn clone(&self) -> (r: ProcessParams)
        ensures
            r@ == self@,
    {
        ProcessParams {
            format: clone_opt_str(&self.format),
            width: self.width,
            height: self.height,
            crop: self.crop,
            rotation: self.rotation,
            out_name_suffix: clone_opt_str(&self.out_name_suffix),
            output_name: clone_opt_str(&self.output_name),
            clarity: self.clarity,
            remove_background: self.remove_background,
            background: clone_opt_str(&self.background),
            quality: self.quality,
            smart_compress: self.smart_compress,
            brightness: self.brightness,
            optimize_for_web: self.optimize_for_web,
            lossless: self.lossless,
            strip_exif: self.strip_exif,
            hdr: clone_opt_str(&self.hdr),
        }
    }
}

/// `a` when it is set, `b` otherwise (`Option::or`).
pub open spec fn first_set<T>(a: Option<T>, b: Option<T>) -> Option<T> {
    match a {
        Some(x) => Some(x),
        None => b,
    }
}

/// `a` when it is set, `b` otherwise.
pub fn or_else<T>(a: Option<T>, b: Option<T>) -> (r: Option<T>)
    ensures
        r == first_set(a, b),
{
    match a {
        Some(x) => Some(x),
        None => b,
    }
}

/// Prompt-derived `base` under explicit `overrides`: every field the
/// overrides set wins, every other falls back to `base`; the output-name
/// suffix always comes from `base`, since explicit flags never rename variants.
pub open spec fn merged(base: ProcessParamsView, overrides: ProcessParamsView) -> ProcessParamsView {
    ProcessParamsView {
        format: first_set(overrides.format, base.format),
        width: first_set(overrides.width, base.width),
        height: first_set(overrides.height, base.height),
        crop: first_set(overrides.crop, base.crop),
        rotation: first_set(overrides.rotation, base.rotation),
        out_name_suffix: base.out_name_suffix,
        output_name: first_set(overrides.output_name, base.output_name),
        clarity: first_set(overrides.clarity, base.clarity),
        remove_background: first_set(overrides.remove_background, base.remove_background),
        background: first_set(overrides.background, base.background),
        quality: first_set(overrides.quality, base.quality),
        smart_compress: first_set(overrides.smart_compress, base.smart_compress),
        brightness: first_set(overrides.brightness, base.brightness),
        optimize_for_web: first_set(overrides.optimize_for_web, base.optimize_for_web),
        lossless: first_set(overrides.lossless, base.lossless),
        strip_exif: first_set(overrides.strip_exif, base.strip_exif),
        hdr: first_set(overrides.hdr, base.hdr),
    }
}

/// Merge prompt-derived `base` params with explicit `overrides` (see [`merged`]).
pub fn merge_params(base: ProcessParams, overrides: ProcessParams) -> (r: ProcessParams)
    ensures
        r@ == merged(base@, overrides@),
{
    ProcessParams {
        format: or_else(overrides.format, base.format),
        width: or_else(overrides.width, base.width),
        height: or_else(overrides.height, base.height),
        crop: or_else(overrides.crop, base.crop),
        rotation: or_else(overrides.rotation, base.rotation),
        out_name_suffix: base.out_name_suffix,
        output_name: or_else(overrides.output_name, base.output_name),
        clarity: or_else(overrides.clarity, base.clarity),
        remove_background: or_else(overrides.remove_background, base.remove_background),
        background: or_else(overrides.background, base.background),
        strip_exif: or_else(overrides.strip_exif, base.strip_exif),
        hdr: or_else(overrides.hdr, base.hdr),
        quality: or_else(overrides.quality, base.quality),
        smart_compress: or_else(overrides.smart_compress, base.smart_compress),
        brightness: or_else(overrides.brightness, base.brightness),
        optimize_for_web: or_else(overrides.optimize_for_web, base.optimize_for_web),
        lossless: or_else(overrides.lossless, base.lossless),
    }
}

/// `v` when it is set to something other than 0.
pub open spec fn positive(v: Option<u32>) -> Option<u32> {
    match v {
        Some(x) => if x > 0 {
            Some(x)
        } else {
            None
        },
        None => None,
    }
}

/// A boolean as `Display` writes it.
pub open spec fn bool_text(b: bool) -> Seq<char> {
    if b {
        "true"@
    } else {
        "false"@
    }
}

/// One pair carrying a set boolean as text, none when unset.
pub open spec fn bool_entry(key: Seq<char>, v: Option<bool>) -> QueryModel {
    match v {
        Some(b) => seq![(key, bool_text(b))],
        None => seq![],
    }
}

/// The brightness pair: only a set, nonzero value is sent (0 is no change).
pub open spec fn brightness_entry(v: Option<i32>) -> QueryModel {
    match v {
        Some(b) => if b != 0 {
            seq![("brightness"@, signed_decimal(b as int))]
        } else {
            seq![]
        },
        None => seq![],
    }
}

/// Type and geometry: zero width or height is dropped, since the prompt can
/// echo 0 to mean "unspecified" and forwarding it would resize to nothing.
pub open spec fn geometry_section(p: ProcessParamsView) -> QueryModel {
    str_entry("type"@, p.format) + num_entry("width"@, positive(p.width)) + num_entry(
        "height"@,
        positive(p.height),
    ) + bool_entry("crop"@, p.crop) + num_entry("rotate"@, p.rotation)
}

/// Edits and metadata: on/off edits are sent only when on; metadata handling
/// only when explicitly set.
pub open spec fn edit_section(p: ProcessParamsView) -> QueryModel {
    flag_entry("clarity"@, p.clarity == Some(true), "1"@) + flag_entry(
        "removeBackground"@,
        p.remove_background == Some(true),
        "1"@,
    ) + str_entry("background"@, p.background) + bool_entry("stripExif"@, p.strip_exif)
        + str_entry("hdr"@, p.hdr)
}

/// Quality controls: switches are sent only when on, brightness only when nonzero.
pub open spec fn quality_section(p: ProcessParamsView) -> QueryModel {
    num_entry("quality"@, p.quality) + flag_entry(
        "smartCompress"@,
        p.smart_compress == Some(true),
        "1"@,
    ) + brightness_entry(p.brightness) + flag_entry(
        "optimizeForWeb"@,
        p.optimize_for_web == Some(true),
        "1"@,
    ) + flag_entry("lossless"@, p.lossless == Some(true), "1"@)
}

/// The query of an image request.
pub open spec fn spec_squish_query(p: ProcessParamsView) -> QueryModel {
    geometry_section(p) + edit_section(p) + quality_section(p)
}

/// Whether `o` is `Some(true)`.
pub fn is_some_true(o: Option<bool>) -> (r: bool)
    ensures
        r == (o == Some(true)),
{
    match o {
        Some(b) => b,
        None => false,
    }
}

fn keep_positive(v: Option<u32>) -> (r: Option<u32>)
    ensures
        r == positive(v),
{
    match v {
        Some(x) => if x > 0 {
            Some(x)
        } else {
            None
        },
        None => None,
    }
}

fn push_bool(q: &mut Vec<(&'static str, String)>, key: &'static str, v: Option<bool>)
    ensures
        query_view(final(q)@) == query_view(old(q)@) + bool_entry(key@, v),
{
    match v {
        Some(b) => push_pair(q, key, if b { crate::text::owned("true") } else { crate::text::owned("false") }),
        None => {
            assert(query_view(q@) + bool_entry(key@, v) =~= query_view(q@));
        },
    }
}

fn push_geometry(q: &mut Vec<(&'static str, String)>, params: &ProcessParams)
    ensures
        query_view(final(q)@) == query_view(old(q)@) + geometry_section(params@),
{
    let ghost q0 = query_view(q@);
    push_opt_str(q, "type", &params.format);
    push_num(q, "width", keep_positive(params.width));
    push_num(q, "height", keep_positive(params.height));
    push_bool(q, "crop", params.crop);
    push_num(q, "rotate", params.rotation);
    assert(query_view(q@) =~= q0 + geometry_section(params@));
}

fn push_edits(q: &mut Vec<(&'static str, String)>, params: &ProcessParams)
    ensures
        query_view(final(q)@) == query_view(old(q)@) + edit_section(params@),
{
    let ghost q0 = query_view(q@);
    push_flag(q, "clarity", is_some_true(params.clarity), "1");
    push_flag(q, "removeBackground", is_some_true(params.remove_background), "1");
    push_opt_str(q, "background", &params.background);
    push_bool(q, "stripExif", params.strip_exif);
    push_opt_str(q, "hdr", &params.hdr);
    assert(query_view(q@) =~= q0 + edit_section(params@));
}

fn push_quality(q: &mut Vec<(&'static str, String)>, params: &ProcessParams)
    ensures
        query_view(final(q)@) == query_view(old(q)@) + quality_section(params@),
{
    let ghost q0 = query_view(q@);
    push_num(q, "quality", params.quality);
    push_flag(q, "smartCompress", is_some_true(params.smart_compress), "1");
    let ghost q1 = query_view(q@);
    match params.brightness {
        Some(b) => {
            if b != 0 {
                push_pair(q, "brightness", signed_string(b));
            }
        },
        None => {},
    }
    assert(query_view(q@) =~= q1 + brightness_entry(params@.brightness));
    push_flag(q, "optimizeForWeb", is_some_true(params.optimize_for_web), "1");
    push_flag(q, "lossless", is_some_true(params.lossless), "1");
    assert(query_view(q@) =~= q0 + quality_section(params@));
}

/// Build the image request's query (see [`spec_squish_query`]).
pub fn build_squish_query(params: &ProcessParams) -> (q: Vec<(&'static str, String)>)
    ensures
        query_view(q@) == spec_squish_query(params@),
{
    let mut q: Vec<(&'static str, String)> = Vec::new();
    assert(query_view(q@) =~= Seq::empty());
    push_geometry(&mut q, params);
    push_edits(&mut q, params);
    push_quality(&mut q, params);
    assert(query_view(q@) =~= spec_squish_query(params@));
    q
}

/// The size part of a summary: `W × H`, `Ww` or `Hh`, as far as set.
pub open spec fn size_part(w: Option<u32>, h: Option<u32>) -> Seq<Seq<char>> {
    match (w, h) {
        (Some(w), Some(h)) => seq![decimal(w as nat) + " × "@ + decimal(h as nat)],
        (Some(w), None) => seq![decimal(w as nat) + "w"@],
        (None, Some(h)) => seq![decimal(h as nat) + "h"@],
        (None, None) => seq![],
    }
}

/// The type part of a summary.
pub open spec fn format_part(f: Option<Seq<char>>) -> Seq<Seq<char>> {
    match f {
        Some(f) => seq![f],
        None => seq![],
    }
}

/// The rotation part of a summary: a nonzero rotation only.
pub open spec fn rotation_part(r: Option<u32>) -> Seq<Seq<char>> {
    match r {
        Some(r) => part_if(r != 0, "rotate "@ + decimal(r as nat) + "°"@),
        None => seq![],
    }
}

/// The background colour part of a summary.
pub open spec fn background_part(bg: Option<Seq<char>>) -> Seq<Seq<char>> {
    match bg {
        Some(bg) => seq!["bg "@ + bg],
        None => seq![],
    }
}

/// The HDR part of a summary, naming the mode.
pub open spec fn hdr_part(h: Option<Seq<char>>) -> Seq<Seq<char>> {
    match h {
        Some(h) => seq![
            if h == "generate"@ {
                "hdr (generate)"@
            } else {
                "hdr (preserve)"@
            },
        ],
        None => seq![],
    }
}

/// The quality part of a summary.
pub open spec fn quality_part(q: Option<u32>) -> Seq<Seq<char>> {
    match q {
        Some(q) => seq!["quality "@ + decimal(q as nat)],
        None => seq![],
    }
}

/// The brightness part of a summary: a nonzero value, always signed.
pub open spec fn brightness_part(b: Option<i32>) -> Seq<Seq<char>> {
    match b {
        Some(b) => part_if(b != 0, "brightness "@ + plus_signed_decimal(b as int)),
        None => seq![],
    }
}

/// The summary's parts for type and geometry.
pub open spec fn geometry_parts(p: ProcessParamsView) -> Seq<Seq<char>> {
    format_part(p.format) + size_part(p.width, p.height) + part_if(p.crop == Some(true), "crop"@)
        + rotation_part(p.rotation)
}

/// The summary's parts for edits and metadata.
pub open spec fn edit_parts(p: ProcessParamsView) -> Seq<Seq<char>> {
    part_if(p.clarity == Some(true), "clarity"@) + part_if(
        p.remove_background == Some(true),
        "remove bg"@,
    ) + background_part(p.background) + part_if(p.strip_exif == Some(false), "keep metadata"@)
}

/// The first half of a summary's parts: type, size and edits.
pub open spec fn summary_parts_head(p: ProcessParamsView) -> Seq<Seq<char>> {
    geometry_parts(p) + edit_parts(p)
}

/// The second half of a summary's parts: HDR and quality controls.
pub open spec fn summary_parts_tail(p: ProcessParamsView) -> Seq<Seq<char>> {
    hdr_part(p.hdr) + quality_part(p.quality) + part_if(
        p.smart_compress == Some(true),
        "smart compress"@,
    ) + brightness_part(p.brightness) + part_if(
        p.optimize_for_web == Some(true),
        "optimize for web"@,
    ) + part_if(p.lossless == Some(true), "lossless"@)
}

/// What a summary lists, in order.
pub open spec fn summary_parts(p: ProcessParamsView) -> Seq<Seq<char>> {
    summary_parts_head(p) + summary_parts_tail(p)
}

/// The one-line summary of a parameter set: its parts joined by ` · `, or
/// `original settings` when nothing is set.
pub open spec fn spec_params_summary(p: ProcessParamsView) -> Seq<char> {
    if summary_parts(p).len() == 0 {
        "original settings"@
    } else {
        joined(summary_parts(p), " · "@)
    }
}

fn add_format_part(parts: &mut Vec<String>, f: &Option<String>)
    ensures
        strings_view(final(parts)@) == strings_view(old(parts)@) + format_part(opt_str(*f)),
{
    match f {
        Some(x) => add_part(parts, x.clone()),
        None => proof { lemma_append_nothing(strings_view(parts@), format_part(opt_str(*f))); },
    }
}

fn add_background_part(parts: &mut Vec<String>, bg: &Option<String>)
    ensures
        strings_view(final(parts)@) == strings_view(old(parts)@) + background_part(opt_str(*bg)),
{
    match bg {
        Some(x) => {
            let t = owned("bg ").concat(x.as_str());
            add_part(parts, t);
        },
        None => proof { lemma_append_nothing(strings_view(parts@), background_part(opt_str(*bg))); },
    }
}

fn add_size_part(parts: &mut Vec<String>, w: Option<u32>, h: Option<u32>)
    ensures
        strings_view(final(parts)@) == strings_view(old(parts)@) + size_part(w, h),
{
    match (w, h) {
        (Some(w), Some(h)) => {
            let mut t = String::new();
            push_decimal(&mut t, w as u64);
            t.append(" × ");
            push_decimal(&mut t, h as u64);
            assert(t@ =~= decimal(w as nat) + " × "@ + decimal(h as nat));
            add_part(parts, t);
        },
        (Some(w), None) => {
            let mut t = String::new();
            push_decimal(&mut t, w as u64);
            t.append("w");
            assert(t@ =~= decimal(w as nat) + "w"@);
            add_part(parts, t);
        },
        (None, Some(h)) => {
            let mut t = String::new();
            push_decimal(&mut t, h as u64);
            t.append("h");
            assert(t@ =~= decimal(h as nat) + "h"@);
            add_part(parts, t);
        },
        (None, None) => proof { lemma_append_nothing(strings_view(parts@), size_part(w, h)); },
    }
}

fn add_rotation_part(parts: &mut Vec<String>, r: Option<u32>)
    ensures
        strings_view(final(parts)@) == strings_view(old(parts)@) + rotation_part(r),
{
    match r {
        Some(r) => {
            if r != 0 {
                let mut t = owned("rotate ");
                push_decimal(&mut t, r as u64);
                t.append("°");
                add_part(parts, t);
            } else {
                proof { lemma_append_nothing(strings_view(parts@), rotation_part(Some(r))); }
            }
        },
        None => proof { lemma_append_nothing(strings_view(parts@), rotation_part(r)); },
    }
}

fn add_hdr_part(parts: &mut Vec<String>, h: &Option<String>)
    ensures
        strings_view(final(parts)@) == strings_view(old(parts)@) + hdr_part(opt_str(*h)),
{
    match h {
        Some(h) => {
            if str_eq(h.as_str(), "generate") {
                add_part(parts, owned("hdr (generate)"));
            } else {
                add_part(parts, owned("hdr (preserve)"));
            }
        },
        None => proof { lemma_append_nothing(strings_view(parts@), hdr_part(None)); },
    }
}

fn add_quality_part(parts: &mut Vec<String>, q: Option<u32>)
    ensures
        strings_view(final(parts)@) == strings_view(old(parts)@) + quality_part(q),
{
    match q {
        Some(q) => {
            let mut t = owned("quality ");
            push_decimal(&mut t, q as u64);
            add_part(parts, t);
        },
        None => proof { lemma_append_nothing(strings_view(parts@), quality_part(q)); },
    }
}

fn add_brightness_part(parts: &mut Vec<String>, b: Option<i32>)
    ensures
        strings_view(final(parts)@) == strings_view(old(parts)@) + brightness_part(b),
{
    match b {
        Some(b) => {
            if b != 0 {
                let mut t = owned("brightness ");
                push_plus_signed(&mut t, b);
                add_part(parts, t);
            } else {
                proof { lemma_append_nothing(strings_view(parts@), brightness_part(Some(b))); }
            }
        },
        None => proof { lemma_append_nothing(strings_view(parts@), brightness_part(b)); },
    }
}

fn add_geometry_parts(parts: &mut Vec<String>, p: &ProcessParams)
    ensures
        strings_view(final(parts)@) == strings_view(old(parts)@) + geometry_parts(p@),
{
    let ghost s0 = strings_view(parts@);
    add_format_part(parts, &p.format);
    add_size_part(parts, p.width, p.height);
    add_part_if(parts, is_some_true(p.crop), "crop");
    add_rotation_part(parts, p.rotation);
    assert(strings_view(parts@) =~= s0 + geometry_parts(p@));
}

fn add_edit_parts(parts: &mut Vec<String>, p: &ProcessParams)
    ensures
        strings_view(final(parts)@) == strings_view(old(parts)@) + edit_parts(p@),
{
    let ghost s0 = strings_view(parts@);
    add_part_if(parts, is_some_true(p.clarity), "clarity");
    add_part_if(parts, is_some_true(p.remove_background), "remove bg");
    add_background_part(parts, &p.background);
    add_part_if(parts, crate::pdf::is_some_false(p.strip_exif), "keep metadata");
    assert(strings_view(parts@) =~= s0 + edit_parts(p@));
}

fn add_head_parts(parts: &mut Vec<String>, p: &ProcessParams)
    ensures
        strings_view(final(parts)@) == strings_view(old(parts)@) + summary_parts_head(p@),
{
    let ghost s0 = strings_view(parts@);
    add_geometry_parts(parts, p);
    add_edit_parts(parts, p);
    assert(strings_view(parts@) =~= s0 + summary_parts_head(p@));
}

fn add_tail_parts(parts: &mut Vec<String>, p: &ProcessParams)
    ensures
        strings_view(final(parts)@) == strings_view(old(parts)@) + summary_parts_tail(p@),
{
    let ghost s0 = strings_view(parts@);
    add_hdr_part(parts, &p.hdr);
    add_quality_part(parts, p.quality);
    add_part_if(parts, is_some_true(p.smart_compress), "smart compress");
    add_brightness_part(parts, p.brightness);
    add_part_if(parts, is_some_true(p.optimize_for_web), "optimize for web");
    add_part_if(parts, is_some_true(p.lossless), "lossless");
    assert(strings_view(parts@) =~= s0 + summary_parts_tail(p@));
}

/// The one-line summary of a parameter set (see [`spec_params_summary`]).
pub fn format_params_summary(p: &ProcessParams) -> (r: String)
    ensures
        r@ == spec_params_summary(p@),
{
    let mut parts: Vec<String> = Vec::new();
    assert(strings_view(parts@) =~= Seq::empty());
    add_head_parts(&mut parts, p);
    add_tail_parts(&mut parts, p);
    assert(strings_view(parts@) =~= summary_parts(p@));
    if parts.len() == 0 {
        owned("original settings")
    } else {
        join_strings(&parts, " · ")
    }
}

} // verus!
