//! Character-level string helpers and the trusted interface to the few
//! `str`/`String` operations of std that vstd leaves unspecified.

use vstd::prelude::*;

verus! {

/// Unicode `White_Space`, the characters `str::trim` counts as whitespace:
/// U+0009..U+000D, U+0020, U+0085, U+00A0, U+1680, U+2000..U+200A, U+2028,
/// U+2029, U+202F, U+205F and U+3000.
pub open spec fn is_white_space(c: char) -> bool {
    ||| '\t' <= c && c <= '\r'
    ||| c == ' '
    ||| c == '\u{85}'
    ||| c == '\u{a0}'
    ||| c == '\u{1680}'
    ||| '\u{2000}' <= c && c <= '\u{200a}'
    ||| c == '\u{2028}'
    ||| c == '\u{2029}'
    ||| c == '\u{202f}'
    ||| c == '\u{205f}'
    ||| c == '\u{3000}'
}

/// `s` without its leading whitespace.
pub open spec fn trim_start(s: Seq<char>) -> Seq<char>
    decreases s.len(),
{
    if s.len() > 0 && is_white_space(s[0]) {
        trim_start(s.subrange(1, s.len() as int))
    } else {
        s
    }
}

/// `s` without its trailing whitespace.
pub open spec fn trim_end(s: Seq<char>) -> Seq<char>
    decreases s.len(),
{
    if s.len() > 0 && is_white_space(s.last()) {
        trim_end(s.drop_last())
    } else {
        s
    }
}

/// What `str::trim` returns: the string with leading and trailing
/// whitespace removed.
pub open spec fn str_trimmed(s: Seq<char>) -> Seq<char> {
    trim_end(trim_start(s))
}

proof fn lemma_trim_start_ends(s: Seq<char>)
    ensures
        trim_start(s).len() > 0 ==> !is_white_space(trim_start(s)[0]),
    decreases s.len(),
{
    if s.len() > 0 && is_white_space(s[0]) {
        lemma_trim_start_ends(s.subrange(1, s.len() as int));
    }
}

proof fn lemma_trim_end_ends(s: Seq<char>)
    ensures
        trim_end(s).len() <= s.len(),
        trim_end(s) == s.subrange(0, trim_end(s).len() as int),
        trim_end(s).len() > 0 ==> !is_white_space(trim_end(s).last()),
    decreases s.len(),
{
    if s.len() > 0 && is_white_space(s.last()) {
        lemma_trim_end_ends(s.drop_last());
        assert(s.drop_last().subrange(0, trim_end(s).len() as int) =~= s.subrange(
            0,
            trim_end(s).len() as int,
        ));
    } else {
        assert(s.subrange(0, s.len() as int) =~= s);
    }
}

/// A trimmed string neither starts nor ends with whitespace.
pub proof fn lemma_trimmed_has_no_surrounding_space(s: Seq<char>)
    ensures
        str_trimmed(s).len() > 0 ==> !is_white_space(str_trimmed(s)[0]) && !is_white_space(
            str_trimmed(s).last(),
        ),
{
    lemma_trim_start_ends(s);
    lemma_trim_end_ends(trim_start(s));
    let u = trim_start(s);
    let t = trim_end(u);
    if t.len() > 0 {
        assert(t[0] == u.subrange(0, t.len() as int)[0]);
    }
}

/// ASCII lowercase of one character; every other character is unchanged.
pub open spec fn ascii_lower(c: char) -> char {
    if 'A' <= c && c <= 'Z' {
        ((c as u32) + 32) as char
    } else {
        c
    }
}

/// ASCII uppercase of one character; every other character is unchanged.
pub open spec fn ascii_upper(c: char) -> char {
    if 'a' <= c && c <= 'z' {
        ((c as u32) - 32) as char
    } else {
        c
    }
}

/// Every character of `s` is ASCII.
pub open spec fn all_ascii(s: Seq<char>) -> bool {
    forall|i: int| 0 <= i < s.len() ==> (#[trigger] s[i] as u32) < 128
}

/// The Unicode lowercase mapping that `str::to_lowercase` applies.
pub uninterp spec fn unicode_lowercase(s: Seq<char>) -> Seq<char>;

/// The Unicode uppercase mapping that `str::to_uppercase` applies.
pub uninterp spec fn unicode_uppercase(s: Seq<char>) -> Seq<char>;

/// What `str::to_lowercase` returns: on an ASCII string, each letter A-Z
/// lowercased and everything else unchanged; otherwise the Unicode mapping.
pub open spec fn str_lowercased(s: Seq<char>) -> Seq<char> {
    if all_ascii(s) {
        s.map_values(|c: char| ascii_lower(c))
    } else {
        unicode_lowercase(s)
    }
}

/// What `str::to_uppercase` returns: on an ASCII string, each letter a-z
/// uppercased and everything else unchanged; otherwise the Unicode mapping.
pub open spec fn str_uppercased(s: Seq<char>) -> Seq<char> {
    if all_ascii(s) {
        s.map_values(|c: char| ascii_upper(c))
    } else {
        unicode_uppercase(s)
    }
}

/// `piece` is a contiguous run of characters of `whole`.
pub open spec fn is_piece_of(piece: Seq<char>, whole: Seq<char>) -> bool {
    exists|i: int, j: int| 0 <= i <= j <= whole.len() && piece == #[trigger] whole.subrange(i, j)
}

/// Whether `c` is Unicode `White_Space` (see [`is_white_space`]).
fn white_space_char(c: char) -> (r: bool)
    ensures
        r == is_white_space(c),
{
    ('\t' <= c && c <= '\r') || c == ' ' || c == '\u{85}' || c == '\u{a0}' || c == '\u{1680}'
        || ('\u{2000}' <= c && c <= '\u{200a}') || c == '\u{2028}' || c == '\u{2029}' || c
        == '\u{202f}' || c == '\u{205f}' || c == '\u{3000}'
}

/// `s` with leading and trailing whitespace (Unicode `White_Space`)
/// removed, as `str::trim` does: a sub-slice of the input.
pub fn trim_str(s: &str) -> (r: &str)
    ensures
        r@ == str_trimmed(s@),
        is_piece_of(r@, s@),
{
    let n = s.unicode_len();
    let mut i: usize = 0;
    assert(s@.subrange(0, n as int) =~= s@);
    while i < n && white_space_char(s.get_char(i))
        invariant
            n == s@.len(),
            i <= n,
            trim_start(s@) == trim_start(s@.subrange(i as int, n as int)),
        decreases n - i,
    {
        assert(s@.subrange(i as int, n as int).subrange(1, (n - i) as int) =~= s@.subrange(
            i + 1,
            n as int,
        ));
        i = i + 1;
    }
    let ghost u = s@.subrange(i as int, n as int);
    assert(trim_start(s@) == u);
    let mut j: usize = n;
    while j > i && white_space_char(s.get_char(j - 1))
        invariant
            n == s@.len(),
            i <= j <= n,
            u == s@.subrange(i as int, n as int),
            trim_start(s@) == u,
            trim_end(u) == trim_end(s@.subrange(i as int, j as int)),
        decreases j - i,
    {
        assert(s@.subrange(i as int, j as int).drop_last() =~= s@.subrange(i as int, j - 1));
        j = j - 1;
    }
    let r = s.substring_char(i, j);
    assert(r@ == s@.subrange(i as int, j as int));
    r
}

/// `str::to_lowercase`: the Unicode lowercase mapping of the string, which
/// on ASCII text lowercases A-Z and leaves everything else. Beyond ASCII the
/// mapping is only named.
#[verifier::external_body]
pub(crate) fn lowercase_str(s: &str) -> (r: String)
    ensures
        r@ == str_lowercased(s@),
        !all_ascii(s@) ==> r@ == unicode_lowercase(s@),
{
    s.to_lowercase()
}

/// `str::to_uppercase`: the Unicode uppercase mapping of the string, which
/// on ASCII text uppercases a-z and leaves everything else. Beyond ASCII the
/// mapping is only named.
#[verifier::external_body]
pub(crate) fn uppercase_str(s: &str) -> (r: String)
    ensures
        r@ == str_uppercased(s@),
        !all_ascii(s@) ==> r@ == unicode_uppercase(s@),
{
    s.to_uppercase()
}

/// `String::push`: appends one character.
#[verifier::external_body]
pub(crate) fn push_char(s: &mut String, c: char)
    ensures
        final(s)@ == old(s)@.push(c),
{
    s.push(c)
}

/// The token a user typed, as the service compares it: trimmed, then lowercased.
pub open spec fn normalized(s: Seq<char>) -> Seq<char> {
    str_lowercased(str_trimmed(s))
}

/// Trims and lowercases `s`.
pub fn normalize_token(s: &str) -> (r: String)
    ensures
        r@ == normalized(s@),
{
    lowercase_str(trim_str(s))
}

/// Character-by-character equality of two strings.
pub fn str_eq(a: &str, b: &str) -> (r: bool)
    ensures
        r == (a@ == b@),
{
    let n = a.unicode_len();
    let m = b.unicode_len();
    if n != m {
        return false;
    }
    let mut i: usize = 0;
    while i < n
        invariant
            n == a@.len(),
            m == b@.len(),
            n == m,
            i <= n,
            forall|k: int| 0 <= k < i ==> a@[k] == b@[k],
        decreases n - i,
    {
        if a.get_char(i) != b.get_char(i) {
            return false;
        }
        i = i + 1;
    }
    assert(a@ =~= b@);
    true
}

/// A copy of `s` as an owned `String`.
pub fn owned(s: &str) -> (r: String)
    ensures
        r@ == s@,
{
    String::from_str(s)
}

/// The character of decimal digit `d` (`0 <= d < 10`).
pub open spec fn digit_char(d: int) -> char {
    (48 + d) as char
}

/// The decimal representation of `n`, most significant digit first, as
/// `Display` writes an unsigned integer.
pub open spec fn decimal(n: nat) -> Seq<char>
    decreases n,
{
    if n < 10 {
        seq![digit_char(n as int)]
    } else {
        decimal(n / 10).push(digit_char((n % 10) as int))
    }
}

/// A signed integer as `Display` writes it: a leading `-` for negatives only.
pub open spec fn signed_decimal(v: int) -> Seq<char> {
    if v < 0 {
        seq!['-'] + decimal((-v) as nat)
    } else {
        decimal(v as nat)
    }
}

/// A signed integer as the `{:+}` format writes it: always with a sign.
pub open spec fn plus_signed_decimal(v: int) -> Seq<char> {
    if v < 0 {
        seq!['-'] + decimal((-v) as nat)
    } else {
        seq!['+'] + decimal(v as nat)
    }
}

/// Appends the decimal representation of `n` to `s`.
pub fn push_decimal(s: &mut String, n: u64)
    ensures
        final(s)@ == old(s)@ + decimal(n as nat),
    decreases n,
{
    let ghost start = s@;
    if n >= 10 {
        push_decimal(s, n / 10);
    }
    let d: u8 = (n % 10) as u8;
    let c: char = (48u8 + d) as char;
    push_char(s, c);
    assert(s@ =~= start + decimal(n as nat));
}

/// The decimal representation of `n` as a new string.
pub fn decimal_string(n: u64) -> (r: String)
    ensures
        r@ == decimal(n as nat),
{
    let mut s = String::new();
    push_decimal(&mut s, n);
    assert(s@ =~= decimal(n as nat));
    s
}

/// Appends `v` as `Display` writes a signed integer.
pub fn push_signed(s: &mut String, v: i32)
    ensures
        final(s)@ == old(s)@ + signed_decimal(v as int),
{
    let ghost start = s@;
    let wide: i64 = v as i64;
    if wide < 0 {
        push_char(s, '-');
        push_decimal(s, (-wide) as u64);
        assert(s@ =~= start + signed_decimal(v as int));
    } else {
        push_decimal(s, wide as u64);
        assert(s@ =~= start + signed_decimal(v as int));
    }
}

/// Appends `v` as the `{:+}` format writes it.
pub fn push_plus_signed(s: &mut String, v: i32)
    ensures
        final(s)@ == old(s)@ + plus_signed_decimal(v as int),
{
    let ghost start = s@;
    let wide: i64 = v as i64;
    if wide < 0 {
        push_char(s, '-');
        push_decimal(s, (-wide) as u64);
        assert(s@ =~= start + plus_signed_decimal(v as int));
    } else {
        push_char(s, '+');
        push_decimal(s, wide as u64);
        assert(s@ =~= start + plus_signed_decimal(v as int));
    }
}

/// The strings of `list`, in order, with `sep` between neighbours.
pub open spec fn joined(list: Seq<Seq<char>>, sep: Seq<char>) -> Seq<char>
    decreases list.len(),
{
    if list.len() == 0 {
        Seq::empty()
    } else if list.len() == 1 {
        list[0]
    } else {
        joined(list.drop_last(), sep) + sep + list.last()
    }
}

/// The abstract value of a list of strings.
pub open spec fn strings_view(v: Seq<String>) -> Seq<Seq<char>> {
    v.map_values(|s: String| s@)
}

/// Joins `list` with `sep`, as `[String]::join` does.
pub fn join_strings(list: &Vec<String>, sep: &str) -> (r: String)
    ensures
        r@ == joined(strings_view(list@), sep@),
{
    let mut res = String::new();
    let ghost all = strings_view(list@);
    let n = list.len();
    let mut i: usize = 0;
    while i < n
        invariant
            n == list@.len(),
            all == strings_view(list@),
            i <= n,
            res@ == joined(all.take(i as int), sep@),
        decreases n - i,
    {
        assert(all.take((i + 1) as int).drop_last() =~= all.take(i as int));
        if i != 0 {
            res.append(sep);
        }
        res.append(list[i].as_str());
        i = i + 1;
    }
    assert(all.take(n as int) =~= all);
    res
}

/// A list of summary parts: `s` when `cond` holds, nothing otherwise.
pub open spec fn part_if(cond: bool, s: Seq<char>) -> Seq<Seq<char>> {
    if cond {
        seq![s]
    } else {
        seq![]
    }
}


/// Appends one part to a list of parts.
pub fn add_part(parts: &mut Vec<String>, s: String)
    ensures
        strings_view(final(parts)@) == strings_view(old(parts)@) + seq![s@],
{
    let ghost before = parts@;
    parts.push(s);
    assert(strings_view(parts@) =~= strings_view(before) + seq![s@]);
}

/// Appending an empty list changes nothing.
pub proof fn lemma_append_nothing(v: Seq<Seq<char>>, extra: Seq<Seq<char>>)
    requires
        extra.len() == 0,
    ensures
        v + extra == v,
{
    assert(v + extra =~= v);
}

/// Appends `s` to a list of parts when `cond` holds.
pub fn add_part_if(parts: &mut Vec<String>, cond: bool, s: &str)
    ensures
        strings_view(final(parts)@) == strings_view(old(parts)@) + part_if(cond, s@),
{
    if cond {
        add_part(parts, owned(s));
    } else {
        proof { lemma_append_nothing(strings_view(parts@), part_if(cond, s@)); }
    }
}

/// The part `prefix` + value + `suffix` when the value is set, nothing otherwise.
pub open spec fn wrapped_part(prefix: Seq<char>, v: Option<Seq<char>>, suffix: Seq<char>) -> Seq<Seq<char>> {
    match v {
        Some(x) => seq![prefix + x + suffix],
        None => seq![],
    }
}

/// Appends `prefix` + value + `suffix` when the value is set.
pub fn add_wrapped(parts: &mut Vec<String>, prefix: &str, v: &Option<String>, suffix: &str)
    ensures
        strings_view(final(parts)@) == strings_view(old(parts)@) + wrapped_part(
            prefix@,
            crate::error::opt_str(*v),
            suffix@,
        ),
{
    match v {
        Some(x) => {
            let t = owned(prefix).concat(x.as_str()).concat(suffix);
            add_part(parts, t);
        },
        None => {
            proof {
                lemma_append_nothing(strings_view(parts@), wrapped_part(prefix@, None, suffix@));
            }
        },
    }
}

} // verus!
