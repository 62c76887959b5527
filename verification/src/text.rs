//! Verified text helpers: placeholder substitution for message templates,
//! whitespace tokenizing and number parsing for the textual captcha format,
//! and decimal rendering of small numbers.

use vstd::prelude::*;

verus! {

/// Relies on String::push: it appends exactly the given character.
#[verifier::external_body]
pub(crate) fn push_char(s: &mut String, c: char)
    ensures
        final(s)@ == old(s)@.push(c),
{
    s.push(c);
}

/// Whether two string slices hold the same characters.
pub fn str_eq(a: &str, b: &str) -> (r: bool)
    ensures
        r == (a@ == b@),
{
    let n = a.unicode_len();
    if n != b.unicode_len() {
        return false;
    }
    let mut i: usize = 0;
    while i < n
        invariant
            0 <= i <= n,
            n == a@.len(),
            n == b@.len(),
            forall|j: int| 0 <= j < i ==> a@[j] == b@[j],
        decreases n - i,
    {
        if a.get_char(i) != b.get_char(i) {
            proof {
                assert(a@[i as int] != b@[i as int]);
            }
            return false;
        }
        i += 1;
    }
    proof {
        assert(a@ =~= b@);
    }
    true
}

/// The lower-case form of a character, folding ASCII letters only.
pub open spec fn spec_lower_char(c: char) -> char {
    if 'A' <= c && c <= 'Z' {
        ((c as u32) + 32) as char
    } else {
        c
    }
}

/// The ASCII-lower-case form of a character sequence.
pub open spec fn spec_lower(s: Seq<char>) -> Seq<char> {
    s.map_values(|c: char| spec_lower_char(c))
}

/// A copy of `s` with every ASCII upper-case letter folded to lower case.
pub fn lower_ascii(s: &str) -> (r: String)
    ensures
        r@ == spec_lower(s@),
{
    let n = s.unicode_len();
    let mut out = String::new();
    let mut i: usize = 0;
    while i < n
        invariant
            0 <= i <= n,
            n == s@.len(),
            out@ == spec_lower(s@.subrange(0, i as int)),
        decreases n - i,
    {
        let c = s.get_char(i);
        let low = if 'A' <= c && c <= 'Z' {
            (((c as u32) + 32) as u8) as char
        } else {
            c
        };
        push_char(&mut out, low);
        proof {
            assert(spec_lower(s@.subrange(0, i + 1)) =~= spec_lower(
                s@.subrange(0, i as int),
            ).push(spec_lower_char(s@[i as int])));
        }
        i += 1;
    }
    proof {
        assert(s@.subrange(0, n as int) =~= s@);
    }
    out
}

/// The result of replacing, left to right and without overlap, every
/// occurrence of `pat` in `s` by `to` — the meaning of str::replace.
pub open spec fn spec_replace(s: Seq<char>, pat: Seq<char>, to: Seq<char>) -> Seq<char>
    decreases s.len(),
{
    if pat.len() == 0 || s.len() < pat.len() {
        s
    } else if s.subrange(0, pat.len() as int) == pat {
        to + spec_replace(s.skip(pat.len() as int), pat, to)
    } else {
        seq![s[0]] + spec_replace(s.skip(1), pat, to)
    }
}

/// Whether `pat` occurs in `s` starting at position `i`.
fn match_at(s: &str, pat: &str, i: usize) -> (b: bool)
    requires
        i + pat@.len() <= s@.len(),
    ensures
        b == (s@.subrange(i as int, i as int + pat@.len() as int) == pat@),
{
    let sn = s.unicode_len();
    let m = pat.unicode_len();
    let mut j: usize = 0;
    while j < m
        invariant
            0 <= j <= m,
            m == pat@.len(),
            sn == s@.len(),
            i + m <= sn,
            forall|k: int| 0 <= k < j ==> s@[i + k] == pat@[k],
        decreases m - j,
    {
        if s.get_char(i + j) != pat.get_char(j) {
            proof {
                assert(s@.subrange(i as int, i as int + m as int)[j as int] != pat@[j as int]);
            }
            return false;
        }
        j += 1;
    }
    proof {
        assert(s@.subrange(i as int, i as int + m as int) =~= pat@);
    }
    true
}

/// Replace every occurrence of `pat` in `s` by `to`, left to right, without
/// overlap.
pub fn replace_all(s: &str, pat: &str, to: &str) -> (r: String)
    requires
        pat@.len() >= 1,
    ensures
        r@ == spec_replace(s@, pat@, to@),
{
    let n = s.unicode_len();
    let m = pat.unicode_len();
    let mut out = String::new();
    let mut i: usize = 0;
    proof {
        assert(s@.skip(0) =~= s@);
        assert(out@ + spec_replace(s@, pat@, to@) =~= spec_replace(s@, pat@, to@));
    }
    while n - i >= m
        invariant
            0 <= i <= n,
            n == s@.len(),
            m == pat@.len(),
            1 <= m,
            out@ + spec_replace(s@.skip(i as int), pat@, to@) == spec_replace(s@, pat@, to@),
        decreases n - i,
    {
        let ghost rest = s@.skip(i as int);
        proof {
            assert(rest.subrange(0, m as int) =~= s@.subrange(i as int, i as int + m as int));
        }
        if match_at(s, pat, i) {
            out.append(to);
            proof {
                assert(rest.skip(m as int) =~= s@.skip(i + m));
                assert(spec_replace(rest, pat@, to@) == to@ + spec_replace(
                    s@.skip(i + m),
                    pat@,
                    to@,
                ));
                assert(out@ + spec_replace(s@.skip(i + m), pat@, to@) =~= spec_replace(
                    s@,
                    pat@,
                    to@,
                ));
            }
            i = i + m;
        } else {
            let c = s.get_char(i);
            push_char(&mut out, c);
            proof {
                assert(rest.skip(1) =~= s@.skip(i + 1));
                assert(rest[0] == s@[i as int]);
                assert(spec_replace(rest, pat@, to@) == seq![s@[i as int]] + spec_replace(
                    s@.skip(i + 1),
                    pat@,
                    to@,
                ));
                assert(out@ + spec_replace(s@.skip(i + 1), pat@, to@) =~= spec_replace(
                    s@,
                    pat@,
                    to@,
                ));
            }
            i = i + 1;
        }
    }
    let tail = s.substring_char(i, n);
    out.append(tail);
    proof {
        assert(s@.skip(i as int) =~= s@.subrange(i as int, n as int));
        assert(spec_replace(s@.skip(i as int), pat@, to@) == s@.skip(i as int));
        assert(out@ =~= spec_replace(s@, pat@, to@));
    }
    out
}

/// What a character becomes under HTML escaping: the three characters that
/// HTML text may not hold verbatim turn into their entities.
pub open spec fn spec_escape_char(c: char) -> Seq<char> {
    if c == '&' {
        seq!['&', 'a', 'm', 'p', ';']
    } else if c == '<' {
        seq!['&', 'l', 't', ';']
    } else if c == '>' {
        seq!['&', 'g', 't', ';']
    } else {
        seq![c]
    }
}

/// The HTML-escaped form of a character sequence.
pub open spec fn spec_html_escape(s: Seq<char>) -> Seq<char>
    decreases s.len(),
{
    if s.len() == 0 {
        Seq::empty()
    } else {
        spec_html_escape(s.drop_last()) + spec_escape_char(s.last())
    }
}

/// Escape `s` for embedding in HTML text: ampersands and angle brackets
/// become entities, everything else stays.
pub fn html_escape(s: &str) -> (r: String)
    ensures
        r@ == spec_html_escape(s@),
{
    let n = s.unicode_len();
    let mut out = String::new();
    let mut i: usize = 0;
    while i < n
        invariant
            0 <= i <= n,
            n == s@.len(),
            out@ == spec_html_escape(s@.subrange(0, i as int)),
        decreases n - i,
    {
        let c = s.get_char(i);
        proof {
            assert(s@.subrange(0, i + 1).drop_last() =~= s@.subrange(0, i as int));
            assert(s@.subrange(0, i + 1).last() == s@[i as int]);
        }
        if c == '&' {
            out.append("&amp;");
            proof {
                reveal_strlit("&amp;");
                assert("&amp;"@ =~= seq!['&', 'a', 'm', 'p', ';']);
            }
        } else if c == '<' {
            out.append("&lt;");
            proof {
                reveal_strlit("&lt;");
                assert("&lt;"@ =~= seq!['&', 'l', 't', ';']);
            }
        } else if c == '>' {
            out.append("&gt;");
            proof {
                reveal_strlit("&gt;");
                assert("&gt;"@ =~= seq!['&', 'g', 't', ';']);
            }
        } else {
            push_char(&mut out, c);
        }
        proof {
            assert(out@ =~= spec_html_escape(s@.subrange(0, i + 1)));
        }
        i += 1;
    }
    proof {
        assert(s@.subrange(0, n as int) =~= s@);
    }
    out
}

/// Whitespace, as far as the textual captcha format uses it.
pub open spec fn is_space(c: char) -> bool {
    c == ' ' || c == '\t' || c == '\n' || c == '\r' || c == '\u{b}' || c == '\u{c}'
}

/// Whether `c` is whitespace.
pub fn is_space_char(c: char) -> (r: bool)
    ensures
        r == is_space(c),
{
    c == ' ' || c == '\t' || c == '\n' || c == '\r' || c == '\u{b}' || c == '\u{c}'
}

/// The state of a left-to-right whitespace split of `s`: the tokens finished
/// so far, and the token still being read.
pub open spec fn split_state(s: Seq<char>) -> (Seq<Seq<char>>, Seq<char>)
    decreases s.len(),
{
    if s.len() == 0 {
        (Seq::empty(), Seq::empty())
    } else {
        let prev = split_state(s.drop_last());
        let c = s.last();
        if is_space(c) {
            if prev.1.len() == 0 {
                (prev.0, Seq::<char>::empty())
            } else {
                (prev.0.push(prev.1), Seq::<char>::empty())
            }
        } else {
            (prev.0, prev.1.push(c))
        }
    }
}

/// The maximal whitespace-free runs of `s`, in order — the meaning of
/// str::split_whitespace.
pub open spec fn spec_tokens(s: Seq<char>) -> Seq<Seq<char>> {
    let st = split_state(s);
    if st.1.len() == 0 {
        st.0
    } else {
        st.0.push(st.1)
    }
}

/// Split `s` at whitespace into its maximal whitespace-free runs.
#[verifier::loop_isolation(false)]
pub fn split_whitespace_tokens(s: &str) -> (r: Vec<String>)
    ensures
        r@.map_values(|t: String| t@) == spec_tokens(s@),
{
    let n = s.unicode_len();
    let mut done: Vec<String> = Vec::new();
    let mut cur = String::new();
    let mut i: usize = 0;
    while i < n
        invariant
            0 <= i <= n,
            done@.map_values(|t: String| t@) == split_state(s@.subrange(0, i as int)).0,
            cur@ == split_state(s@.subrange(0, i as int)).1,
        decreases n - i,
    {
        let c = s.get_char(i);
        proof {
            assert(s@.subrange(0, i + 1).drop_last() =~= s@.subrange(0, i as int));
            assert(s@.subrange(0, i + 1).last() == s@[i as int]);
        }
        if is_space_char(c) {
            if cur.as_str().unicode_len() > 0 {
                let ghost old_done = done@;
                done.push(cur);
                cur = String::new();
                proof {
                    assert(done@.map_values(|t: String| t@) =~= old_done.map_values(
                        |t: String| t@,
                    ).push(split_state(s@.subrange(0, i as int)).1));
                }
            }
        } else {
            push_char(&mut cur, c);
        }
        i += 1;
    }
    proof {
        assert(s@.subrange(0, n as int) =~= s@);
    }
    if cur.as_str().unicode_len() > 0 {
        let ghost old_done = done@;
        let ghost last_tok = cur@;
        done.push(cur);
        proof {
            assert(done@.map_values(|t: String| t@) =~= old_done.map_values(
                |t: String| t@,
            ).push(last_tok));
        }
    }
    done
}

/// The decimal digit character for `d`.
pub open spec fn spec_digit_char(d: int) -> char {
    (('0' as u32) + d) as char
}

/// The decimal rendering of a number below 1000, without sign or padding.
pub open spec fn spec_u8_string(x: int) -> Seq<char> {
    if x < 10 {
        seq![spec_digit_char(x)]
    } else if x < 100 {
        seq![spec_digit_char(x / 10), spec_digit_char(x % 10)]
    } else {
        seq![spec_digit_char(x / 100), spec_digit_char((x / 10) % 10), spec_digit_char(x % 10)]
    }
}

/// The decimal digit character for `d`.
fn digit_char(d: u8) -> (r: char)
    requires
        d < 10,
    ensures
        r == spec_digit_char(d as int),
{
    (('0' as u8) + d) as char
}

/// Render a small number in decimal.
pub fn u8_to_string(x: u8) -> (r: String)
    ensures
        r@ == spec_u8_string(x as int),
{
    let mut out = String::new();
    if x >= 100 {
        push_char(&mut out, digit_char(x / 100));
    }
    if x >= 10 {
        push_char(&mut out, digit_char((x / 10) % 10));
    }
    push_char(&mut out, digit_char(x % 10));
    proof {
        assert(out@ =~= spec_u8_string(x as int));
    }
    out
}

/// The decimal rendering of a number, without sign or padding.
pub open spec fn spec_u64_string(x: int) -> Seq<char>
    decreases x,
{
    if x < 10 {
        seq![spec_digit_char(x)]
    } else {
        spec_u64_string(x / 10).push(spec_digit_char(x % 10))
    }
}

/// Render a number in decimal.
#[verifier::loop_isolation(false)]
pub fn u64_to_string(x: u64) -> (r: String)
    ensures
        r@ == spec_u64_string(x as int),
{
    let mut digits: Vec<char> = Vec::new();
    let mut v = x;
    let ghost mut suffix = Seq::<char>::empty();
    proof {
        assert(spec_u64_string(v as int) + suffix =~= spec_u64_string(x as int));
    }
    while v >= 10
        invariant
            spec_u64_string(v as int) + suffix == spec_u64_string(x as int),
            digits@.len() == suffix.len(),
            forall|k: int| 0 <= k < digits@.len() ==> digits@[k] == suffix[suffix.len() - 1 - k],
        decreases v,
    {
        digits.push(digit_char((v % 10) as u8));
        proof {
            let c = spec_digit_char(v as int % 10);
            assert(spec_u64_string(v as int) == spec_u64_string(v as int / 10).push(c));
            assert(spec_u64_string(v as int / 10) + (seq![c] + suffix) =~= spec_u64_string(
                v as int,
            ) + suffix);
            suffix = seq![c] + suffix;
        }
        v = v / 10;
    }
    digits.push(digit_char(v as u8));
    proof {
        suffix = seq![spec_digit_char(v as int)] + suffix;
        assert(spec_u64_string(x as int) =~= suffix);
    }
    let mut out = String::new();
    let n = digits.len();
    let mut i: usize = 0;
    while i < n
        invariant
            0 <= i <= n,
            out@ == suffix.subrange(0, i as int),
        decreases n - i,
    {
        push_char(&mut out, digits[n - 1 - i]);
        proof {
            assert(out@ =~= suffix.subrange(0, i + 1));
        }
        i += 1;
    }
    proof {
        assert(out@ =~= suffix);
    }
    out
}

/// Whether `c` is a decimal digit.
pub open spec fn is_digit(c: char) -> bool {
    '0' <= c && c <= '9'
}

/// The value of a digit character.
pub open spec fn digit_val(c: char) -> int {
    c as int - '0' as int
}

/// Whether every character of `s` is a decimal digit.
pub open spec fn all_digits(s: Seq<char>) -> bool {
    forall|i: int| 0 <= i < s.len() ==> is_digit(#[trigger] s[i])
}

/// The number the digit string `s` denotes.
pub open spec fn digits_val(s: Seq<char>) -> int
    decreases s.len(),
{
    if s.len() == 0 {
        0
    } else {
        digits_val(s.drop_last()) * 10 + digit_val(s.last())
    }
}

/// What parsing `s` as a `u8` yields — the meaning of str::parse::<u8>: an
/// optional leading plus sign, then at least one digit and nothing else,
/// denoting a value that fits.
pub open spec fn spec_parse_u8(s: Seq<char>) -> Option<u8> {
    let t = if s.len() > 0 && s[0] == '+' {
        s.skip(1)
    } else {
        s
    };
    if t.len() == 0 || !all_digits(t) {
        None
    } else if digits_val(t) > 255 {
        None
    } else {
        Some(digits_val(t) as u8)
    }
}

/// Parse `tok` as a `u8`.
#[verifier::loop_isolation(false)]
pub fn parse_u8(tok: &str) -> (r: Option<u8>)
    ensures
        r == spec_parse_u8(tok@),
{
    let n = tok.unicode_len();
    let start: usize = if n > 0 && tok.get_char(0) == '+' {
        1
    } else {
        0
    };
    let ghost t = if start == 1 {
        tok@.skip(1)
    } else {
        tok@
    };
    if n == start {
        return None;
    }
    let mut acc: u16 = 0;
    let mut over = false;
    let mut i: usize = start;
    while i < n
        invariant
            start <= i <= n,
            forall|j: int| start <= j < i ==> is_digit(#[trigger] tok@[j]),
            !over ==> acc == digits_val(tok@.subrange(start as int, i as int)) && acc <= 255,
            over ==> digits_val(tok@.subrange(start as int, i as int)) > 255,
        decreases n - i,
    {
        let c = tok.get_char(i);
        if !('0' <= c && c <= '9') {
            proof {
                assert(t[i - start] == tok@[i as int]);
                assert(!all_digits(t));
            }
            return None;
        }
        let d = ((c as u32) - ('0' as u32)) as u16;
        proof {
            let prefix = tok@.subrange(start as int, i as int);
            let prefix1 = tok@.subrange(start as int, i + 1);
            assert(prefix1.drop_last() =~= prefix);
            assert(prefix1.last() == tok@[i as int]);
        }
        if over {
            // Ten times a value above 255 stays above 255.
        } else {
            acc = acc * 10 + d;
            if acc > 255 {
                over = true;
            }
        }
        i += 1;
    }
    proof {
        assert(t =~= tok@.subrange(start as int, n as int));
    }
    if over {
        None
    } else {
        Some(acc as u8)
    }
}

} // verus!

