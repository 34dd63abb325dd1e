//! Signing in through the browser: the state token, the URLs, how each
//! poll of the sign-in endpoint is answered, and how a saved key is shown.

use vstd::prelude::*;
use crate::error::{ErrorView, MochifyError};
use crate::meta::UsageInfo;
use crate::text::{owned, push_char, signed_decimal, push_signed, strings_view};

verus! {

/// The page that signs the command line in.
pub const AUTH_URL: &'static str = "https://mochify.app/auth/cli";

/// The host of the processing endpoints.
pub const BASE_URL: &'static str = "https://api.mochify.app";

/// The host of the sign-in poll and usage endpoints.
pub const WORKER_URL: &'static str = "https://id.mochify.app";

/// The lowercase hexadecimal digit of `d` (`0 <= d < 16`).
pub open spec fn hex_digit(d: int) -> char {
    if d < 10 {
        (48 + d) as char
    } else {
        (87 + d) as char
    }
}

/// Bytes as lowercase hexadecimal, two digits per byte (`{:02x}`).
pub open spec fn hex_lower(bytes: Seq<u8>) -> Seq<char>
    decreases bytes.len(),
{
    if bytes.len() == 0 {
        Seq::empty()
    } else {
        hex_lower(bytes.drop_last()) + seq![
            hex_digit(bytes.last() as int / 16),
            hex_digit(bytes.last() as int % 16),
        ]
    }
}

fn hex_char(d: u8) -> (r: char)
    requires
        d < 16,
    ensures
        r == hex_digit(d as int),
{
    if d < 10 {
        (48u8 + d) as char
    } else {
        (87u8 + d) as char
    }
}

/// The state token of a sign-in: the random bytes in lowercase hexadecimal.
pub fn auth_state(bytes: &[u8]) -> (r: String)
    ensures
        r@ == hex_lower(bytes@),
{
    let mut s = String::new();
    let mut i: usize = 0;
    while i < bytes.len()
        invariant
            i <= bytes@.len(),
            s@ == hex_lower(bytes@.take(i as int)),
        decreases bytes@.len() - i,
    {
        let b = bytes[i];
        push_char(&mut s, hex_char(b / 16));
        push_char(&mut s, hex_char(b % 16));
        assert(bytes@.take(i + 1).drop_last() =~= bytes@.take(i as int));
        assert(s@ =~= hex_lower(bytes@.take(i + 1)));
        i = i + 1;
    }
    assert(bytes@.take(bytes@.len() as int) =~= bytes@);
    s
}

/// The page a user signs in on, carrying the state token.
pub fn auth_url(state: &str) -> (r: String)
    ensures
        r@ == AUTH_URL@ + "?state="@ + state@,
{
    owned(AUTH_URL).concat("?state=").concat(state)
}

/// The endpoint polled for the outcome of the sign-in with this state token.
pub fn poll_url(state: &str) -> (r: String)
    ensures
        r@ == WORKER_URL@ + "/v1/cli/poll/"@ + state@,
{
    owned(WORKER_URL).concat("/v1/cli/poll/").concat(state)
}

/// The endpoint of the account's usage.
pub fn usage_url() -> (r: String)
    ensures
        r@ == WORKER_URL@ + "/v1/usage"@,
{
    owned(WORKER_URL).concat("/v1/usage")
}

/// What the sign-in loop does next.
#[derive(Debug, Clone, Copy, PartialEq, Eq)]
pub enum PollAction {
    /// Give up: the sign-in was not completed in time.
    TimedOut,
    /// Wait and poll again.
    Wait,
    /// Read the key from the response and save it.
    Authorized,
}

/// One step of the sign-in loop: past the deadline it gives up; otherwise a
/// 200 carries the key, and anything else (404 while pending, another
/// status, or no response at all) means poll again.
pub open spec fn spec_poll_action(deadline_passed: bool, status: Option<u16>) -> PollAction {
    if deadline_passed {
        PollAction::TimedOut
    } else if status == Some(200u16) {
        PollAction::Authorized
    } else {
        PollAction::Wait
    }
}

/// Decide one step of the sign-in loop (see [`spec_poll_action`]).
pub fn poll_action(deadline_passed: bool, status: Option<u16>) -> (r: PollAction)
    ensures
        r == spec_poll_action(deadline_passed, status),
{
    if deadline_passed {
        PollAction::TimedOut
    } else {
        match status {
            Some(s) => if s == 200 {
                PollAction::Authorized
            } else {
                PollAction::Wait
            },
            None => PollAction::Wait,
        }
    }
}

/// The number of bytes UTF-8 uses for `c`.
pub open spec fn utf8_len(c: char) -> nat {
    if (c as u32) < 0x80 {
        1
    } else if (c as u32) < 0x800 {
        2
    } else if (c as u32) < 0x10000 {
        3
    } else {
        4
    }
}

/// The number of bytes UTF-8 uses for `s`.
pub open spec fn utf8_bytes(s: Seq<char>) -> nat
    decreases s.len(),
{
    if s.len() == 0 {
        0
    } else {
        utf8_bytes(s.drop_last()) + utf8_len(s.last())
    }
}

/// The first `min(8, byte length)` bytes of `key` end on a character
/// boundary: some prefix of whole characters has exactly that many bytes.
pub open spec fn preview_on_boundary(key: Seq<char>) -> bool {
    let limit = if utf8_bytes(key) < 8 {
        utf8_bytes(key)
    } else {
        8
    };
    exists|k: int| 0 <= k <= key.len() && #[trigger] utf8_bytes(key.take(k)) == limit
}

fn char_utf8_len(c: char) -> (r: usize)
    ensures
        r == utf8_len(c),
{
    let v = c as u32;
    if v < 0x80 {
        1
    } else if v < 0x800 {
        2
    } else if v < 0x10000 {
        3
    } else {
        4
    }
}

proof fn lemma_utf8_bytes_monotone(s: Seq<char>, i: int, j: int)
    requires
        0 <= i <= j <= s.len(),
    ensures
        utf8_bytes(s.take(i)) <= utf8_bytes(s.take(j)),
        i < j ==> utf8_bytes(s.take(i)) < utf8_bytes(s.take(j)),
    decreases j - i,
{
    if i < j {
        assert(s.take(j).drop_last() =~= s.take(j - 1));
        lemma_utf8_bytes_monotone(s, i, j - 1);
    }
}

/// How a saved key is shown: its first eight bytes (all of it when shorter),
/// which must end on a character boundary.
pub fn key_preview(key: &str) -> (r: String)
    requires
        preview_on_boundary(key@),
    ensures
        exists|k: int| 0 <= k <= key@.len() && r@ == key@.take(k) && utf8_bytes(key@.take(k)) == (
        if utf8_bytes(key@) < 8 {
            utf8_bytes(key@)
        } else {
            8
        }),
{
    let n = key.unicode_len();
    let ghost limit: nat = if utf8_bytes(key@) < 8 {
        utf8_bytes(key@)
    } else {
        8
    };
    let ghost kb = choose|k: int| 0 <= k <= key@.len() && #[trigger] utf8_bytes(key@.take(k)) == limit;
    let mut s = String::new();
    let mut bytes: usize = 0;
    let mut i: usize = 0;
    assert(key@.take(0) =~= Seq::<char>::empty());
    while i < n && bytes < 8
        invariant
            n == key@.len(),
            i <= n,
            i <= kb,
            0 <= kb <= n,
            utf8_bytes(key@.take(kb)) == limit,
            bytes == utf8_bytes(key@.take(i as int)),
            bytes <= limit,
            s@ == key@.take(i as int),
            limit <= 8,
            limit == (if utf8_bytes(key@) < 8 { utf8_bytes(key@) } else { 8 }),
        decreases n - i,
    {
        let c = key.get_char(i);
        proof {
            assert(key@.take(i + 1).drop_last() =~= key@.take(i as int));
            if i as int == kb {
                assert(key@.take(n as int) =~= key@);
                lemma_utf8_bytes_monotone(key@, i as int, n as int);
            }
            lemma_utf8_bytes_monotone(key@, i + 1, kb);
        }
        bytes = bytes + char_utf8_len(c);
        push_char(&mut s, c);
        assert(s@ =~= key@.take(i + 1));
        i = i + 1;
    }
    proof {
        if i == n {
            assert(key@.take(n as int) =~= key@);
        }
        if (i as int) < kb {
            lemma_utf8_bytes_monotone(key@, i as int, kb);
        }
    }
    s
}

/// What `usage` prints: the plan when known, the remaining count (out of
/// the quota when there is one), and whether anything is available.
pub open spec fn spec_usage_lines(u: UsageInfo) -> Seq<Seq<char>> {
    (if u.plan@.len() == 0 {
        seq![]
    } else {
        seq!["Plan: "@ + u.plan@]
    }) + seq![
        if u.quota > 0 {
            "Remaining: "@ + signed_decimal(u.remaining as int) + " / "@ + signed_decimal(u.quota as int)
        } else {
            "Remaining: "@ + signed_decimal(u.remaining as int)
        },
        "Available: "@ + if u.available {
            "true"@
        } else {
            "false"@
        },
    ]
}

/// The lines `usage` prints (see [`spec_usage_lines`]).
pub fn usage_lines(u: &UsageInfo) -> (r: Vec<String>)
    ensures
        strings_view(r@) == spec_usage_lines(*u),
{
    let mut lines: Vec<String> = Vec::new();
    if u.plan.unicode_len() != 0 {
        lines.push(owned("Plan: ").concat(u.plan.as_str()));
    }
    let mut rem = owned("Remaining: ");
    push_signed(&mut rem, u.remaining);
    if u.quota > 0 {
        rem.append(" / ");
        push_signed(&mut rem, u.quota);
    }
    lines.push(rem);
    lines.push(owned("Available: ").concat(if u.available { "true" } else { "false" }));
    assert(strings_view(lines@) =~= spec_usage_lines(*u));
    lines
}

/// The image processing endpoint.
pub fn squish_url() -> (r: String)
    ensures
        r@ == BASE_URL@ + "/v1/squish"@,
{
    owned(BASE_URL).concat("/v1/squish")
}

/// The PDF processing endpoint.
pub fn pdf_url() -> (r: String)
    ensures
        r@ == BASE_URL@ + "/v1/pdf"@,
{
    owned(BASE_URL).concat("/v1/pdf")
}

/// The natural-language prompt endpoint.
pub fn prompt_url() -> (r: String)
    ensures
        r@ == WORKER_URL@ + "/v1/prompt"@,
{
    owned(WORKER_URL).concat("/v1/prompt")
}

/// The key usage is asked with. Usage reports an account's own quota, so
/// without a key it is refused here rather than answered with the anonymous
/// allowance.
pub fn usage_key(api_key: &Option<String>) -> (r: Result<&String, MochifyError>)
    ensures
        match r {
            Ok(k) => *api_key == Some(*k),
            Err(e) => api_key is None && e@ == ErrorView::UsageNeedsAuth,
        },
{
    match api_key {
        Some(k) => Ok(k),
        None => Err(MochifyError::UsageNeedsAuth),
    }
}

} // verus!
