//! Names on disk: sanitising a requested name, telling file kinds apart by
//! extension, and choosing where a result is written.

use vstd::prelude::*;
use crate::error::opt_str;
use crate::params::{ProcessParams, ProcessParamsView};
use crate::pdf::{PdfParams, pdf_output_name, spec_pdf_output_base, spec_pdf_output_ext};
use crate::text::{
    ascii_lower, decimal, is_white_space, lemma_trimmed_has_no_surrounding_space, owned, push_char, push_decimal, str_eq, str_trimmed, trim_str,
};

verus! {

/// What `Path::extension` yields for this path, as text.
pub uninterp spec fn path_extension(path: Seq<char>) -> Option<Seq<char>>;

/// `std::path::Path::extension` of `path`, as a string: the part of the file
/// name after its last `.`, if any. How a path splits into components is
/// platform-specific and left unsaid; the result is only named.
#[verifier::external_body]
pub(crate) fn extension_of(path: &str) -> (r: Option<String>)
    ensures
        opt_str(r) == path_extension(path@),
{
    std::path::Path::new(path).extension().and_then(|e| e.to_str()).map(String::from)
}

/// What `Path::parent` yields for this path, as text.
pub uninterp spec fn path_parent(path: Seq<char>) -> Option<Seq<char>>;

/// `std::path::Path::parent` of `path`, as a string: the path without its
/// last component, if it has one. How a path splits into components is
/// platform-specific and left unsaid; the result is only named.
#[verifier::external_body]
pub(crate) fn parent_of(path: &str) -> (r: Option<String>)
    ensures
        opt_str(r) == path_parent(path@),
{
    std::path::Path::new(path).parent().and_then(|p| p.to_str()).map(String::from)
}

/// What `Path::file_stem` yields for this path, as text.
pub uninterp spec fn path_stem(path: Seq<char>) -> Option<Seq<char>>;

/// `std::path::Path::file_stem` of `path`, as a string: the file name
/// without its extension, if the path has a file name. How a path splits
/// into components is platform-specific and left unsaid; the result is only
/// named.
#[verifier::external_body]
pub(crate) fn stem_of(path: &str) -> (r: Option<String>)
    ensures
        opt_str(r) == path_stem(path@),
{
    std::path::Path::new(path).file_stem().and_then(|s| s.to_str()).map(String::from)
}

/// What `Path::file_name` yields for this path, as text.
pub uninterp spec fn path_file_name(path: Seq<char>) -> Option<Seq<char>>;

/// `std::path::Path::file_name` of `path`, as a string: its last component,
/// if that is a normal one. How a path splits into components is
/// platform-specific and left unsaid; the result is only named.
#[verifier::external_body]
pub(crate) fn file_name_of(path: &str) -> (r: Option<String>)
    ensures
        opt_str(r) == path_file_name(path@),
{
    std::path::Path::new(path).file_name().and_then(|s| s.to_str()).map(String::from)
}

/// The name an input is shown and looked up under: its file name, or
/// nothing when the path has none.
pub open spec fn display_of(path: Seq<char>) -> Seq<char> {
    match path_file_name(path) {
        Some(n) => n,
        None => Seq::empty(),
    }
}

/// The name an input is shown and looked up under (see [`display_of`]).
pub fn display_name(path: &str) -> (r: String)
    ensures
        r@ == display_of(path@),
{
    match file_name_of(path) {
        Some(n) => n,
        None => String::new(),
    }
}

/// The names of a list of inputs (see [`display_of`]).
pub fn display_names(paths: &Vec<String>) -> (r: Vec<String>)
    ensures
        r@.len() == paths@.len(),
        forall|i: int| 0 <= i < r@.len() ==> (#[trigger] r@[i])@ == display_of(paths@[i]@),
{
    let mut r: Vec<String> = Vec::new();
    let mut i: usize = 0;
    while i < paths.len()
        invariant
            i <= paths@.len(),
            r@.len() == i,
            forall|k: int| 0 <= k < i ==> (#[trigger] r@[k])@ == display_of(paths@[k]@),
        decreases paths@.len() - i,
    {
        r.push(display_name(paths[i].as_str()));
        i = i + 1;
    }
    r
}

/// The directory a result is written to: the one asked for, else the
/// input's parent `parent`, else the current directory.
pub open spec fn out_dir_from(asked: Option<Seq<char>>, parent: Option<Seq<char>>) -> Seq<char> {
    match asked {
        Some(d) => d,
        None => match parent {
            Some(p) => p,
            None => "."@,
        },
    }
}

/// The directory a result is written to, given the input's parent (see
/// [`out_dir_from`]).
pub fn output_dir_for(asked: &Option<String>, parent: Option<String>) -> (r: String)
    ensures
        r@ == out_dir_from(opt_str(*asked), opt_str(parent)),
{
    match asked {
        Some(d) => d.clone(),
        None => match parent {
            Some(p) => p,
            None => owned("."),
        },
    }
}

/// The directory the result for input `input` is written to: the one asked
/// for, else the input's own directory.
pub fn output_dir(asked: &Option<String>, input: &str) -> (r: String)
    ensures
        r@ == out_dir_from(opt_str(*asked), path_parent(input@)),
{
    match asked {
        Some(d) => d.clone(),
        None => output_dir_for(asked, parent_of(input)),
    }
}

/// An image result would land on its input when it goes to the input's own
/// directory with the input's own extension: then the stem alone would
/// overwrite it.
pub open spec fn lands_on(same_dir: bool, ext: Seq<char>, input_ext: Option<Seq<char>>) -> bool {
    same_dir && input_ext == Some(ext)
}

/// Whether a result saved as `<stem>.<ext>` would land on its input, given
/// the input's extension (see [`lands_on`]).
pub fn lands_on_input_ext(same_dir: bool, ext: &str, input_ext: &Option<String>) -> (r: bool)
    ensures
        r == lands_on(same_dir, ext@, opt_str(*input_ext)),
{
    same_dir && match input_ext {
        Some(e) => str_eq(e.as_str(), ext),
        None => false,
    }
}

/// Whether a result saved as `<stem>.<ext>` would land on input `input`;
/// `same_dir` says whether the output directory is the input's own.
pub fn lands_on_input(same_dir: bool, ext: &str, input: &str) -> (r: bool)
    ensures
        r == lands_on(same_dir, ext@, path_extension(input@)),
{
    lands_on_input_ext(same_dir, ext, &extension_of(input))
}

/// The characters a file name may not contain.
pub open spec fn invalid_name_char(c: char) -> bool {
    c == '/' || c == '\\' || c == ':' || c == '*' || c == '?' || c == '"' || c == '<' || c == '>'
        || c == '|' || c == '\n' || c == '\r' || c == '\t'
}

/// `name` without the characters a file name may not contain.
pub open spec fn without_invalid_chars(name: Seq<char>) -> Seq<char> {
    name.filter(|c: char| !invalid_name_char(c))
}

/// A requested output name made safe: invalid characters removed, then
/// surrounding whitespace trimmed.
pub open spec fn spec_sanitized(name: Seq<char>) -> Seq<char> {
    str_trimmed(without_invalid_chars(name))
}

fn is_invalid_name_char(c: char) -> (r: bool)
    ensures
        r == invalid_name_char(c),
{
    c == '/' || c == '\\' || c == ':' || c == '*' || c == '?' || c == '"' || c == '<' || c == '>'
        || c == '|' || c == '\n' || c == '\r' || c == '\t'
}

/// `name` with the characters a file name may not contain removed.
pub fn strip_invalid_chars(name: &str) -> (r: String)
    ensures
        r@ == without_invalid_chars(name@),
        forall|k: int| 0 <= k < r@.len() ==> !invalid_name_char(#[trigger] r@[k]),
{
    let n = name.unicode_len();
    let mut kept = String::new();
    let mut i: usize = 0;
    while i < n
        invariant
            n == name@.len(),
            i <= n,
            kept@ == without_invalid_chars(name@.take(i as int)),
        decreases n - i,
    {
        let c = name.get_char(i);
        proof {
            reveal(Seq::filter);
            assert(name@.take(i + 1).drop_last() =~= name@.take(i as int));
        }
        if !is_invalid_name_char(c) {
            push_char(&mut kept, c);
        }
        i = i + 1;
    }
    assert(name@.take(n as int) =~= name@);
    let ghost f = kept@;
    assert forall|k: int| 0 <= k < f.len() implies !invalid_name_char(#[trigger] f[k]) by {
        name@.lemma_filter_pred(|c: char| !invalid_name_char(c), k);
    }
    kept
}

/// Strip characters invalid in file names and trim surrounding whitespace.
pub fn sanitize_output_name(name: &str) -> (r: String)
    ensures
        r@ == spec_sanitized(name@),
        forall|k: int| 0 <= k < r@.len() ==> !invalid_name_char(#[trigger] r@[k]),
        r@.len() > 0 ==> !is_white_space(r@[0]) && !is_white_space(r@.last()),
{
    proof {
        lemma_trimmed_has_no_surrounding_space(without_invalid_chars(name@));
    }
    let kept = strip_invalid_chars(name);
    let ghost f = kept@;
    let t = trim_str(kept.as_str());
    assert forall|k: int| 0 <= k < t@.len() implies !invalid_name_char(#[trigger] t@[k]) by {
        let (a, b) = choose|a: int, b: int|
            0 <= a <= b <= f.len() && t@ == #[trigger] f.subrange(a, b);
        assert(t@[k] == f[a + k]);
    }
    owned(t)
}

/// Two strings are equal up to ASCII case (`str::eq_ignore_ascii_case`).
pub open spec fn eq_ignore_ascii_case(a: Seq<char>, b: Seq<char>) -> bool {
    a.len() == b.len() && forall|i: int| 0 <= i < a.len() ==> ascii_lower(#[trigger] a[i]) == ascii_lower(b[i])
}

fn lower_ascii_char(c: char) -> (r: char)
    ensures
        r == ascii_lower(c),
{
    if 'A' <= c && c <= 'Z' {
        (((c as u32) + 32) as u8) as char
    } else {
        c
    }
}

/// Whether two strings are equal up to ASCII case.
pub fn ascii_eq_ignore_case(a: &str, b: &str) -> (r: bool)
    ensures
        r == eq_ignore_ascii_case(a@, b@),
{
    let n = a.unicode_len();
    if n != b.unicode_len() {
        return false;
    }
    let mut i: usize = 0;
    while i < n
        invariant
            n == a@.len(),
            n == b@.len(),
            i <= n,
            forall|k: int| 0 <= k < i ==> ascii_lower(#[trigger] a@[k]) == ascii_lower(b@[k]),
        decreases n - i,
    {
        if lower_ascii_char(a.get_char(i)) != lower_ascii_char(b.get_char(i)) {
            return false;
        }
        i = i + 1;
    }
    true
}

/// An extension marks a PDF when it is `pdf` in any ASCII case.
pub open spec fn is_pdf_ext(ext: Option<Seq<char>>) -> bool {
    match ext {
        Some(e) => eq_ignore_ascii_case(e, "pdf"@),
        None => false,
    }
}

/// A path is a PDF when its extension is `pdf` in any ASCII case.
pub open spec fn spec_is_pdf(path: Seq<char>) -> bool {
    is_pdf_ext(path_extension(path))
}

/// Whether a path with extension `ext` names a PDF (see [`is_pdf_ext`]).
pub fn is_pdf_extension(ext: &Option<String>) -> (r: bool)
    ensures
        r == is_pdf_ext(opt_str(*ext)),
{
    match ext {
        Some(e) => ascii_eq_ignore_case(e.as_str(), "pdf"),
        None => false,
    }
}

/// Whether `path` names a PDF, by extension.
pub fn is_pdf(path: &str) -> (r: bool)
    ensures
        r == spec_is_pdf(path@),
{
    is_pdf_extension(&extension_of(path))
}

/// Content type of an image upload, by its (case-sensitive) extension.
pub open spec fn mime_for_extension(ext: Option<Seq<char>>) -> Seq<char> {
    match ext {
        Some(e) => if e == "jpg"@ || e == "jpeg"@ {
            "image/jpeg"@
        } else if e == "png"@ {
            "image/png"@
        } else if e == "webp"@ {
            "image/webp"@
        } else if e == "avif"@ {
            "image/avif"@
        } else if e == "jxl"@ {
            "image/jxl"@
        } else if e == "gif"@ {
            "image/gif"@
        } else if e == "heic"@ || e == "heif"@ {
            "image/heic"@
        } else {
            "application/octet-stream"@
        },
        None => "application/octet-stream"@,
    }
}

/// Content type for an image upload with extension `ext` (see
/// [`mime_for_extension`]).
pub fn mime_for_ext(ext: &Option<String>) -> (r: &'static str)
    ensures
        r@ == mime_for_extension(opt_str(*ext)),
{
    match ext {
        Some(e) => {
            let e = e.as_str();
            if str_eq(e, "jpg") || str_eq(e, "jpeg") {
                "image/jpeg"
            } else if str_eq(e, "png") {
                "image/png"
            } else if str_eq(e, "webp") {
                "image/webp"
            } else if str_eq(e, "avif") {
                "image/avif"
            } else if str_eq(e, "jxl") {
                "image/jxl"
            } else if str_eq(e, "gif") {
                "image/gif"
            } else if str_eq(e, "heic") || str_eq(e, "heif") {
                "image/heic"
            } else {
                "application/octet-stream"
            }
        },
        None => "application/octet-stream",
    }
}

/// Content type for an image upload, by extension.
pub fn image_mime(path: &str) -> (r: &'static str)
    ensures
        r@ == mime_for_extension(path_extension(path@)),
{
    mime_for_ext(&extension_of(path))
}

/// The extension an image result is saved with, given the extension `ext`
/// of its input: the requested type, else `ext`, else `jpg`.
pub open spec fn squish_ext_from(format: Option<Seq<char>>, ext: Option<Seq<char>>) -> Seq<char> {
    match format {
        Some(f) => f,
        None => match ext {
            Some(e) => e,
            None => "jpg"@,
        },
    }
}

/// The extension an image result is saved with: the requested type, else
/// the input's own extension, else `jpg`.
pub open spec fn spec_squish_ext(format: Option<Seq<char>>, path: Seq<char>) -> Seq<char> {
    squish_ext_from(format, path_extension(path))
}

/// The extension an image result is saved with, given its input's extension
/// `ext` (see [`squish_ext_from`]).
pub fn squish_ext_for(format: &Option<String>, ext: Option<String>) -> (r: String)
    ensures
        r@ == squish_ext_from(opt_str(*format), opt_str(ext)),
{
    match format {
        Some(f) => f.clone(),
        None => match ext {
            Some(e) => e,
            None => owned("jpg"),
        },
    }
}

/// The extension an image result is saved with (see [`spec_squish_ext`]).
pub fn squish_output_ext(format: &Option<String>, path: &str) -> (r: String)
    ensures
        r@ == spec_squish_ext(opt_str(*format), path@),
{
    match format {
        Some(f) => f.clone(),
        None => squish_ext_for(format, extension_of(path)),
    }
}

/// The stem an image result is saved under. Multi-variant jobs carry an
/// explicit suffix after the base name (the sanitised requested name, else
/// the input's stem); a single-variant job with no requested name that would
/// land on its own input gets `_mochified`; otherwise the base name.
pub open spec fn spec_squish_stem(stem: Seq<char>, p: ProcessParamsView, lands_on_input: bool) -> Seq<
    char,
> {
    let base = match p.output_name {
        Some(n) => spec_sanitized(n),
        None => stem,
    };
    match p.out_name_suffix {
        Some(suffix) => base + suffix,
        None => if p.output_name is None && lands_on_input {
            stem + "_mochified"@
        } else {
            base
        },
    }
}

/// The stem an image result is saved under (see [`spec_squish_stem`]).
/// `lands_on_input` says whether `<out_dir>/<stem>.<ext>` is the input itself.
pub fn squish_output_stem(stem: &str, params: &ProcessParams, lands_on_input: bool) -> (r: String)
    ensures
        r@ == spec_squish_stem(stem@, params@, lands_on_input),
{
    let base = match &params.output_name {
        Some(n) => sanitize_output_name(n.as_str()),
        None => owned(stem),
    };
    match &params.out_name_suffix {
        Some(suffix) => base.concat(suffix.as_str()),
        None => {
            if params.output_name.is_none() && lands_on_input {
                owned(stem).concat("_mochified")
            } else {
                base
            }
        },
    }
}

/// The stem a built PDF is saved under: the sanitised requested name, else
/// the first image's stem.
pub fn pdf_create_stem(output_name: Option<&str>, first_stem: &str) -> (r: String)
    ensures
        r@ == match output_name {
            Some(n) => spec_sanitized(n@),
            None => first_stem@,
        },
{
    match output_name {
        Some(n) => sanitize_output_name(n),
        None => owned(first_stem),
    }
}

/// The stem and extension an image result for input `path` is saved
/// under, `same_dir` saying whether it goes to the input's own directory;
/// nothing when the input has no file stem.
pub open spec fn spec_squish_base(path: Seq<char>, p: ProcessParamsView, same_dir: bool) -> Option<
    (Seq<char>, Seq<char>),
> {
    match path_stem(path) {
        None => None,
        Some(stem) => {
            let ext = spec_squish_ext(p.format, path);
            Some((spec_squish_stem(stem, p, lands_on(same_dir, ext, path_extension(path))), ext))
        },
    }
}

/// The stem and extension an image result is saved under (see
/// [`spec_squish_base`]).
pub fn squish_output_base(path: &str, params: &ProcessParams, same_dir: bool) -> (r: Option<
    (String, String),
>)
    ensures
        r is None <==> path_stem(path@) is None,
        r matches Some(x) ==> spec_squish_base(path@, params@, same_dir) == Some((x.0@, x.1@)),
{
    match stem_of(path) {
        None => None,
        Some(stem) => {
            let ext = squish_output_ext(&params.format, path);
            let lands = lands_on_input(same_dir, ext.as_str(), path);
            let base = squish_output_stem(stem.as_str(), params, lands);
            Some((base, ext))
        },
    }
}

/// The base name and extension a PDF result for input `path` is saved
/// under; nothing when the input has no file stem.
pub fn pdf_output_base(path: &str, params: &PdfParams) -> (r: Option<(String, &'static str)>)
    ensures
        r is None <==> path_stem(path@) is None,
        r matches Some(x) ==> x.0@ == spec_pdf_output_base(
            params.op@,
            path_stem(path@)->0,
            params.combine,
        ) && x.1@ == spec_pdf_output_ext(params.op@, params.combine),
{
    match stem_of(path) {
        None => None,
        Some(stem) => Some(pdf_output_name(params.op.as_str(), stem.as_str(), params.combine)),
    }
}

/// The stem a built PDF takes: the sanitised requested name, else the
/// first image's stem (nothing when it has none).
pub open spec fn spec_create_stem(output_name: Option<Seq<char>>, first: Seq<char>) -> Option<Seq<char>> {
    match output_name {
        Some(n) => Some(spec_sanitized(n)),
        None => path_stem(first),
    }
}

/// The base name and extension a PDF built from images is saved under,
/// `first` being the first image; nothing when no name was requested and
/// the first image has no file stem.
pub fn pdf_create_base(output_name: Option<&str>, first: &str, params: &PdfParams) -> (r: Option<
    (String, &'static str),
>)
    ensures
        r is None <==> spec_create_stem(
            match output_name {
                Some(n) => Some(n@),
                None => None,
            },
            first@,
        ) is None,
        r matches Some(x) ==> x.0@ == spec_pdf_output_base(
            params.op@,
            spec_create_stem(
                match output_name {
                    Some(n) => Some(n@),
                    None => None,
                },
                first@,
            )->0,
            params.combine,
        ) && x.1@ == spec_pdf_output_ext(params.op@, params.combine),
{
    let stem = match output_name {
        Some(n) => sanitize_output_name(n),
        None => match stem_of(first) {
            Some(s) => s,
            None => {
                return None;
            },
        },
    };
    Some(pdf_output_name(params.op.as_str(), stem.as_str(), params.combine))
}

/// Candidate `n` for a file name: `base.ext` first, then `base_1.ext`,
/// `base_2.ext`, … while the earlier ones are taken.
pub open spec fn spec_numbered_name(base: Seq<char>, ext: Seq<char>, n: nat) -> Seq<char> {
    if n == 0 {
        base + seq!['.'] + ext
    } else {
        base + seq!['_'] + decimal(n) + seq!['.'] + ext
    }
}

/// Candidate `n` for a file name (see [`spec_numbered_name`]).
pub fn numbered_name(base: &str, ext: &str, n: u32) -> (r: String)
    ensures
        r@ == spec_numbered_name(base@, ext@, n as nat),
{
    let mut s = owned(base);
    if n != 0 {
        push_char(&mut s, '_');
        push_decimal(&mut s, n as u64);
    }
    push_char(&mut s, '.');
    s.append(ext);
    assert(s@ =~= spec_numbered_name(base@, ext@, n as nat));
    s
}

/// The next step of the search for a free file name.
#[derive(Debug, Clone, Copy, PartialEq, Eq)]
pub enum NameStep {
    /// The candidate just tried is free: write there.
    Use,
    /// It is taken: try this candidate number next.
    Try(u32),
}

/// One step of the search for a free name: candidates are tried in order
/// `0, 1, 2, …` (see [`spec_numbered_name`]) and the first free one is used.
pub fn name_search_step(n: u32, taken: bool) -> (r: NameStep)
    requires
        taken ==> n < u32::MAX,
    ensures
        !taken ==> r == NameStep::Use,
        taken ==> r == NameStep::Try((n + 1) as u32),
{
    if taken {
        NameStep::Try(n + 1)
    } else {
        NameStep::Use
    }
}

} // verus!
