//! What the natural-language prompt resolves to, and its expansion into one
//! parameter set per requested (size, format) variant.

use vstd::prelude::*;
use crate::error::{clone_opt_str, opt_str};
use crate::params::{ProcessParams, ProcessParamsView, positive};
use crate::text::{decimal, owned, push_char, push_decimal, strings_view};

verus! {

/// One requested output size.
#[derive(Debug, Clone, Copy)]
pub struct SizeEntry {
    pub width: u32,
    pub height: u32,
}

/// What the prompt resolved for one input file.
#[derive(Debug)]
pub struct PromptFileResult {
    pub filename: String,
    pub format: Option<String>,
    pub width: Option<u32>,
    pub height: Option<u32>,
    pub crop: Option<bool>,
    pub rotate: u32,
    pub output_name: Option<String>,
    pub clarity: Option<bool>,
    pub remove_background: Option<bool>,
    /// Composite background colour when the prompt specifies one.
    pub background: Option<String>,
    /// A plain boolean; true means "give me HDR".
    pub hdr: Option<bool>,
    pub quality: Option<u32>,
    pub smart_compress: Option<bool>,
    /// Always present from the prompt, as 0 when no exposure change was asked for.
    pub brightness: Option<i32>,
    pub optimize_for_web: Option<bool>,
    pub lossless: Option<bool>,
    /// Set when the prompt asks for more than one output format.
    pub types: Option<Vec<String>>,
    /// Set when the prompt asks for more than one output size.
    pub sizes: Option<Vec<SizeEntry>>,
}

/// The output formats a file is expanded into: the listed types when there
/// are at least two, otherwise the single type (`jpg` when none was given).
pub open spec fn variant_formats(f: PromptFileResult) -> Seq<Seq<char>> {
    match f.types {
        Some(t) => if t@.len() > 1 {
            strings_view(t@)
        } else {
            seq![
                match f.format {
                    Some(x) => x@,
                    None => "jpg"@,
                },
            ]
        },
        None => seq![
            match f.format {
                Some(x) => x@,
                None => "jpg"@,
            },
        ],
    }
}

/// The output sizes a file is expanded into: the listed sizes when there
/// are at least two, otherwise the single width and height.
pub open spec fn variant_sizes(f: PromptFileResult) -> Seq<(Option<u32>, Option<u32>)> {
    match f.sizes {
        Some(s) => if s@.len() > 1 {
            s@.map_values(|e: SizeEntry| (Some(e.width), Some(e.height)))
        } else {
            seq![(f.width, f.height)]
        },
        None => seq![(f.width, f.height)],
    }
}

/// The name suffix for a size: `_WxH`, `_Ww` or `_Hh`, counting only
/// dimensions above 0; empty when neither is.
pub open spec fn size_suffix(w: Option<u32>, h: Option<u32>) -> Seq<char> {
    match (positive(w), positive(h)) {
        (Some(w), Some(h)) => seq!['_'] + decimal(w as nat) + seq!['x'] + decimal(h as nat),
        (Some(w), None) => seq!['_'] + decimal(w as nat) + seq!['w'],
        (None, Some(h)) => seq!['_'] + decimal(h as nat) + seq!['h'],
        (None, None) => Seq::empty(),
    }
}

/// The output-name suffix of variant (`size`, `format`): jobs with one
/// variant carry none; others carry the size part when there are several
/// sizes and `_format` when there are several formats.
pub open spec fn variant_suffix(
    size: (Option<u32>, Option<u32>),
    format: Seq<char>,
    multi_size: bool,
    multi_format: bool,
) -> Option<Seq<char>> {
    if multi_size || multi_format {
        Some(
            (if multi_size {
                size_suffix(size.0, size.1)
            } else {
                Seq::empty()
            }) + (if multi_format {
                seq!['_'] + format
            } else {
                Seq::empty()
            }),
        )
    } else {
        None
    }
}

/// `v` when it is `Some(true)`; the prompt sends these switches on every
/// file, false far more often than true, so only a true is kept.
pub open spec fn only_true(v: Option<bool>) -> Option<bool> {
    if v == Some(true) {
        Some(true)
    } else {
        None
    }
}

/// The parameters of variant (`size`, `format`) of file `f`.
pub open spec fn spec_variant(
    f: PromptFileResult,
    size: (Option<u32>, Option<u32>),
    format: Seq<char>,
    multi_size: bool,
    multi_format: bool,
) -> ProcessParamsView {
    ProcessParamsView {
        format: Some(format),
        width: size.0,
        height: size.1,
        crop: f.crop,
        rotation: if f.rotate != 0 {
            Some(f.rotate)
        } else {
            None
        },
        out_name_suffix: variant_suffix(size, format, multi_size, multi_format),
        output_name: opt_str(f.output_name),
        clarity: f.clarity,
        remove_background: f.remove_background,
        background: opt_str(f.background),
        strip_exif: None,
        hdr: if f.hdr == Some(true) {
            Some("generate"@)
        } else {
            None
        },
        quality: f.quality,
        smart_compress: only_true(f.smart_compress),
        brightness: match f.brightness {
            Some(b) => if b != 0 {
                Some(b)
            } else {
                None
            },
            None => None,
        },
        optimize_for_web: only_true(f.optimize_for_web),
        lossless: only_true(f.lossless),
    }
}

/// Variant number `k` of file `f`: variants run size by size, and within a
/// size format by format.
pub open spec fn spec_variant_at(f: PromptFileResult, k: int) -> ProcessParamsView {
    let sizes = variant_sizes(f);
    let formats = variant_formats(f);
    spec_variant(
        f,
        sizes[k / formats.len() as int],
        formats[k % formats.len() as int],
        sizes.len() > 1,
        formats.len() > 1,
    )
}

/// The abstract value of a list of parameter sets.
pub open spec fn params_list_view(v: Seq<ProcessParams>) -> Seq<ProcessParamsView> {
    v.map_values(|p: ProcessParams| p@)
}

/// The formats to expand into, as strings.
fn formats_of(f: &PromptFileResult) -> (r: Vec<String>)
    ensures
        strings_view(r@) == variant_formats(*f),
        r@.len() >= 1,
{
    let single = match &f.format {
        Some(x) => x.clone(),
        None => owned("jpg"),
    };
    match &f.types {
        Some(t) => {
            if t.len() > 1 {
                let mut r: Vec<String> = Vec::new();
                let mut i: usize = 0;
                while i < t.len()
                    invariant
                        i <= t@.len(),
                        strings_view(r@) == strings_view(t@).take(i as int),
                    decreases t@.len() - i,
                {
                    let ghost before = r@;
                    let c = t[i].clone();
                    assert(c@ == t@[i as int]@);
                    r.push(c);
                    assert(r@ == before.push(c));
                    assert(strings_view(r@) =~= strings_view(before).push(c@));
                    assert(strings_view(r@) =~= strings_view(t@).take(i + 1));
                    i = i + 1;
                }
                assert(strings_view(t@).take(t@.len() as int) =~= strings_view(t@));
                r
            } else {
                let r = vec![single];
                assert(strings_view(r@) =~= variant_formats(*f));
                r
            }
        },
        None => {
            let r = vec![single];
            assert(strings_view(r@) =~= variant_formats(*f));
            r
        },
    }
}

/// The sizes to expand into.
fn sizes_of(f: &PromptFileResult) -> (r: Vec<(Option<u32>, Option<u32>)>)
    ensures
        r@ == variant_sizes(*f),
        r@.len() >= 1,
{
    match &f.sizes {
        Some(s) => {
            if s.len() > 1 {
                let mut r: Vec<(Option<u32>, Option<u32>)> = Vec::new();
                let mut i: usize = 0;
                while i < s.len()
                    invariant
                        i <= s@.len(),
                        r@ == s@.take(i as int).map_values(
                            |e: SizeEntry| (Some(e.width), Some(e.height)),
                        ),
                    decreases s@.len() - i,
                {
                    let e = s[i];
                    r.push((Some(e.width), Some(e.height)));
                    assert(r@ =~= s@.take(i + 1).map_values(
                        |e: SizeEntry| (Some(e.width), Some(e.height)),
                    ));
                    i = i + 1;
                }
                assert(s@.take(s@.len() as int) =~= s@);
                r
            } else {
                vec![(f.width, f.height)]
            }
        },
        None => vec![(f.width, f.height)],
    }
}

/// The size part of a variant's name suffix.
fn size_suffix_string(w: Option<u32>, h: Option<u32>) -> (r: String)
    ensures
        r@ == size_suffix(w, h),
{
    let pw = match w {
        Some(x) => if x > 0 {
            Some(x)
        } else {
            None
        },
        None => None,
    };
    let ph = match h {
        Some(x) => if x > 0 {
            Some(x)
        } else {
            None
        },
        None => None,
    };
    let mut s = String::new();
    match (pw, ph) {
        (Some(w), Some(h)) => {
            push_char(&mut s, '_');
            push_decimal(&mut s, w as u64);
            push_char(&mut s, 'x');
            push_decimal(&mut s, h as u64);
        },
        (Some(w), None) => {
            push_char(&mut s, '_');
            push_decimal(&mut s, w as u64);
            push_char(&mut s, 'w');
        },
        (None, Some(h)) => {
            push_char(&mut s, '_');
            push_decimal(&mut s, h as u64);
            push_char(&mut s, 'h');
        },
        (None, None) => {},
    }
    assert(s@ =~= size_suffix(w, h));
    s
}

/// The output-name suffix of one variant.
fn suffix_of(
    size: (Option<u32>, Option<u32>),
    format: &String,
    multi_size: bool,
    multi_format: bool,
) -> (r: Option<String>)
    ensures
        opt_str(r) == variant_suffix(size, format@, multi_size, multi_format),
{
    if multi_size || multi_format {
        let mut s = if multi_size {
            size_suffix_string(size.0, size.1)
        } else {
            String::new()
        };
        let ghost first = s@;
        if multi_format {
            push_char(&mut s, '_');
            s.append(format.as_str());
        }
        assert(s@ =~= variant_suffix(size, format@, multi_size, multi_format)->0);
        Some(s)
    } else {
        None
    }
}

fn keep_true(v: Option<bool>) -> (r: Option<bool>)
    ensures
        r == only_true(v),
{
    match v {
        Some(b) => if b {
            Some(true)
        } else {
            None
        },
        None => None,
    }
}

/// The parameters of one variant of `f`.
fn variant_of(
    f: &PromptFileResult,
    size: (Option<u32>, Option<u32>),
    format: &String,
    multi_size: bool,
    multi_format: bool,
) -> (r: ProcessParams)
    ensures
        r@ == spec_variant(*f, size, format@, multi_size, multi_format),
{
    ProcessParams {
        format: Some(format.clone()),
        width: size.0,
        height: size.1,
        crop: f.crop,
        rotation: if f.rotate != 0 {
            Some(f.rotate)
        } else {
            None
        },
        out_name_suffix: suffix_of(size, format, multi_size, multi_format),
        output_name: clone_opt_str(&f.output_name),
        clarity: f.clarity,
        remove_background: f.remove_background,
        background: clone_opt_str(&f.background),
        strip_exif: None,
        hdr: match f.hdr {
            Some(on) => if on {
                Some(owned("generate"))
            } else {
                None
            },
            None => None,
        },
        quality: f.quality,
        smart_compress: keep_true(f.smart_compress),
        brightness: match f.brightness {
            Some(b) => if b != 0 {
                Some(b)
            } else {
                None
            },
            None => None,
        },
        optimize_for_web: keep_true(f.optimize_for_web),
        lossless: keep_true(f.lossless),
    }
}

/// Expand one prompt result into one parameter set per (size × format)
/// variant: `|sizes| * |formats|` of them, size by size, format by format.
pub fn expand_file_variants(f: &PromptFileResult) -> (r: Vec<ProcessParams>)
    ensures
        r@.len() == variant_sizes(*f).len() * variant_formats(*f).len(),
        forall|k: int| 0 <= k < r@.len() ==> #[trigger] r@[k]@ == spec_variant_at(*f, k),
{
    let formats = formats_of(f);
    let sizes = sizes_of(f);
    let ghost fm = strings_view(formats@);
    let m = formats.len();
    let n = sizes.len();
    let multi_format = m > 1;
    let multi_size = n > 1;
    let mut variants: Vec<ProcessParams> = Vec::new();
    let mut i: usize = 0;
    while i < n
        invariant
            n == sizes@.len(),
            m == formats@.len(),
            m >= 1,
            fm == strings_view(formats@),
            fm == variant_formats(*f),
            sizes@ == variant_sizes(*f),
            multi_format == (m > 1),
            multi_size == (n > 1),
            i <= n,
            variants@.len() == i * m,
            forall|k: int| 0 <= k < variants@.len() ==> #[trigger] variants@[k]@ == spec_variant_at(*f, k),
        decreases n - i,
    {
        let mut j: usize = 0;
        while j < m
            invariant
                n == sizes@.len(),
                m == formats@.len(),
                m >= 1,
                fm == strings_view(formats@),
                fm == variant_formats(*f),
                sizes@ == variant_sizes(*f),
                multi_format == (m > 1),
                multi_size == (n > 1),
                i < n,
                j <= m,
                variants@.len() == i * m + j,
                forall|k: int| 0 <= k < variants@.len() ==> #[trigger] variants@[k]@ == spec_variant_at(*f, k),
            decreases m - j,
        {
            let v = variant_of(f, sizes[i], &formats[j], multi_size, multi_format);
            let ghost k = (i * m + j) as int;
            assert(k / (m as int) == i as int && k % (m as int) == j as int) by (nonlinear_arith)
                requires
                    k == i * m + j,
                    0 <= j < m,
                    0 <= i,
            ;
            assert(fm[j as int] == formats@[j as int]@);
            variants.push(v);
            j = j + 1;
        }
        assert((i + 1) * m == i * m + m) by (nonlinear_arith);
        i = i + 1;
    }
    variants
}

} // verus!
