//! What a download sends back besides the bytes: a file name that is safe to place
//! in a `Content-Disposition` header.

use vstd::prelude::*;
use vstd::std_specs::iter::IteratorSpec;

verus! {

/// The longest file name, in characters, that a download header carries.
pub const MAX_FILENAME_CHARS: usize = 255;

/// Unicode control characters (general category Cc): U+0000..=U+001F and U+007F..=U+009F.
pub open spec fn is_control(c: char) -> bool {
    c <= '\u{1f}' || ('\u{7f}' <= c && c <= '\u{9f}')
}

/// What one character of a stored name becomes in a header: dropped when it is a
/// control character, a backslash or a double quote, `_` when it lies outside ASCII,
/// and itself otherwise.
pub open spec fn header_char(c: char) -> Option<char> {
    if is_control(c) || c == '\\' || c == '"' {
        None
    } else if c >= '\u{80}' {
        Some('_')
    } else {
        Some(c)
    }
}

/// The characters of `s` that survive, each mapped as `header_char` says, in order.
pub open spec fn header_chars(s: Seq<char>) -> Seq<char>
    decreases s.len(),
{
    if s.len() == 0 {
        Seq::empty()
    } else {
        let rest = header_chars(s.drop_last());
        match header_char(s.last()) {
            Some(c) => rest.push(c),
            None => rest,
        }
    }
}

/// At most the first `n` characters of `s`.
pub open spec fn truncated(s: Seq<char>, n: nat) -> Seq<char> {
    if s.len() > n {
        s.take(n as int)
    } else {
        s
    }
}

/// The header-safe form of a stored file name.
pub open spec fn safe_filename(name: Seq<char>) -> Seq<char> {
    truncated(header_chars(name), MAX_FILENAME_CHARS as nat)
}

/// Every character of a header-safe name is printable ASCII, so it can stand in a
/// quoted header parameter.
pub open spec fn printable_ascii(s: Seq<char>) -> bool {
    forall|i: int| 0 <= i < s.len() ==> ' ' <= #[trigger] s[i] && s[i] <= '~'
}

fn control_char(c: char) -> (r: bool)
    ensures
        r == is_control(c),
{
    c <= '\u{1f}' || ('\u{7f}' <= c && c <= '\u{9f}')
}

proof fn lemma_header_chars_printable(s: Seq<char>)
    ensures
        printable_ascii(header_chars(s)),
    decreases s.len(),
{
    if s.len() > 0 {
        lemma_header_chars_printable(s.drop_last());
        let rest = header_chars(s.drop_last());
        match header_char(s.last()) {
            Some(c) => {
                assert forall|i: int| 0 <= i < rest.len() + 1 implies ' ' <= #[trigger] rest.push(
                    c,
                )[i] && rest.push(c)[i] <= '~' by {
                    if i < rest.len() {
                        assert(rest.push(c)[i] == rest[i]);
                    }
                }
            },
            None => {},
        }
    }
}

/// Sanitizes a stored file name for a download header: control characters, double
/// quotes and backslashes are removed, non-ASCII characters become `_`, and the
/// result is cut to `MAX_FILENAME_CHARS` characters.
pub fn sanitize_filename(filename: &str) -> (r: String)
    ensures
        r@ == safe_filename(filename@),
        printable_ascii(r@),
{
    let mut out = String::new();
    let mut kept: usize = 0;
    for c in it: filename.chars()
        invariant
            it.seq() == filename@,
            out@ == truncated(header_chars(it.seq().take(it.index())), MAX_FILENAME_CHARS as nat),
            kept == out@.len(),
    {
        proof {
            let seen = it.seq().take(it.index());
            assert(it.seq().take(it.index() + 1).drop_last() =~= seen);
            assert(it.seq().take(it.index() + 1).last() == c);
        }
        if kept < MAX_FILENAME_CHARS {
            if control_char(c) || c == '\\' || c == '"' {
            } else if c >= '\u{80}' {
                out.push('_');
                kept = kept + 1;
            } else {
                out.push(c);
                kept = kept + 1;
            }
        }
    }
    proof {
        assert(filename@.take(filename@.len() as int) =~= filename@);
        lemma_header_chars_printable(filename@);
    }
    out
}

/// The `Content-Disposition` value of a download: an attachment under the
/// sanitized name.
pub fn content_disposition(filename: &str) -> (r: String)
    ensures
        r@ == "attachment; filename=\""@ + safe_filename(filename@) + "\""@,
        printable_ascii(r@),
{
    let mut out = String::from_str("attachment; filename=\"");
    let safe = sanitize_filename(filename);
    out.append(safe.as_str());
    out.append("\"");
    proof {
        reveal_strlit("attachment; filename=\"");
        reveal_strlit("\"");
        let head = "attachment; filename=\""@;
        let body = safe@;
        assert forall|i: int| 0 <= i < out@.len() implies ' ' <= #[trigger] out@[i] && out@[i]
            <= '~' by {
            if i < head.len() {
                assert(out@[i] == head[i]);
            } else if i < head.len() + body.len() {
                assert(out@[i] == body[i - head.len()]);
            } else {
                assert(out@[i] == '"');
            }
        }
    }
    out
}

} // verus!
