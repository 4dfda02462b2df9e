//! Character-level text helpers: decimal rendering and parsing, trimming,
//! and ASCII case-insensitive matching. Header values and URLs are parsed
//! with these.

use vstd::prelude::*;

verus! {

/// The decimal digit character for a value below ten.
pub open spec fn spec_digit(d: int) -> char {
    ((d + 48) as u8) as char
}

/// The decimal rendering of a non-negative integer, most significant digit
/// first, without sign or padding.
pub open spec fn spec_dec(n: int) -> Seq<char>
    recommends
        n >= 0,
    decreases n,
{
    if n < 10 {
        seq![spec_digit(n)]
    } else {
        spec_dec(n / 10).push(spec_digit(n % 10))
    }
}

/// The one-character string for a decimal digit.
fn digit_str(d: u64) -> (s: &'static str)
    requires
        d < 10,
    ensures
        s@ == seq![spec_digit(d as int)],
{
    proof {
        reveal_strlit("0");
        reveal_strlit("1");
        reveal_strlit("2");
        reveal_strlit("3");
        reveal_strlit("4");
        reveal_strlit("5");
        reveal_strlit("6");
        reveal_strlit("7");
        reveal_strlit("8");
        reveal_strlit("9");
    }
    match d {
        0 => "0",
        1 => "1",
        2 => "2",
        3 => "3",
        4 => "4",
        5 => "5",
        6 => "6",
        7 => "7",
        8 => "8",
        _ => "9",
    }
}

/// Render a number in decimal.
pub fn u64_to_dec(n: u64) -> (s: String)
    ensures
        s@ == spec_dec(n as int),
    decreases n,
{
    if n < 10 {
        digit_str(n).to_owned()
    } else {
        let s = u64_to_dec(n / 10);
        let r = s.concat(digit_str(n % 10));
        proof {
            assert(r@ =~= spec_dec((n / 10) as int).push(spec_digit((n % 10) as int)));
        }
        r
    }
}

/// A decimal digit character.
pub open spec fn spec_is_digit(c: char) -> bool {
    '0' <= c && c <= '9'
}

/// The value of a decimal digit character.
pub open spec fn spec_digit_val(c: char) -> int {
    c as u32 - 48
}

/// All characters are decimal digits.
pub open spec fn spec_all_digits(s: Seq<char>) -> bool {
    forall|i: int| 0 <= i < s.len() ==> spec_is_digit(#[trigger] s[i])
}

/// The value of a digit string, most significant digit first.
pub open spec fn spec_dec_val(s: Seq<char>) -> int
    decreases s.len(),
{
    if s.len() == 0 {
        0
    } else {
        spec_dec_val(s.drop_last()) * 10 + spec_digit_val(s.last())
    }
}

/// A number's digits: the whole text, less one optional leading `+`.
pub open spec fn spec_num_body(s: Seq<char>) -> Seq<char> {
    if s.len() > 0 && s[0] == '+' {
        s.drop_first()
    } else {
        s
    }
}

/// What `parse_u64` accepts — exactly what `str::parse::<u64>` does: an
/// optional leading `+`, then one or more decimal digits whose value fits.
pub open spec fn spec_parse_u64(s: Seq<char>) -> Option<u64> {
    let body = spec_num_body(s);
    if body.len() > 0 && spec_all_digits(body) && spec_dec_val(body) <= u64::MAX {
        Some(spec_dec_val(body) as u64)
    } else {
        None
    }
}

proof fn lemma_dec_val_nonneg(s: Seq<char>)
    requires
        spec_all_digits(s),
    ensures
        spec_dec_val(s) >= 0,
    decreases s.len(),
{
    if s.len() > 0 {
        assert(spec_all_digits(s.drop_last()));
        lemma_dec_val_nonneg(s.drop_last());
    }
}

proof fn lemma_dec_val_prefix_le(s: Seq<char>, k: int)
    requires
        spec_all_digits(s),
        0 <= k <= s.len(),
    ensures
        spec_dec_val(s.take(k)) <= spec_dec_val(s),
    decreases s.len() - k,
{
    if k < s.len() {
        lemma_dec_val_prefix_le(s, k + 1);
        assert(s.take(k + 1).drop_last() =~= s.take(k));
        assert(spec_all_digits(s.take(k)));
        lemma_dec_val_nonneg(s.take(k));
    } else {
        assert(s.take(k) =~= s);
    }
}

/// Parse an unsigned decimal number the way `str::parse::<u64>` does:
/// an optional leading `+`, then digits; anything else, or a value past
/// `u64::MAX`, is rejected.
pub fn parse_u64(s: &str) -> (r: Option<u64>)
    ensures
        r == spec_parse_u64(s@),
{
    let len = s.unicode_len();
    let start: usize = if len > 0 && s.get_char(0) == '+' {
        1
    } else {
        0
    };
    let ghost body = spec_num_body(s@);
    proof {
        assert(body =~= s@.skip(start as int));
    }
    if start >= len {
        return None;
    }
    let mut val: u64 = 0;
    let mut i: usize = start;
    while i < len
        invariant
            start <= i <= len,
            start < len,
            len == s@.len(),
            body == spec_num_body(s@),
            body == s@.skip(start as int),
            body.len() == len - start,
            forall|j: int| 0 <= j < i - start ==> spec_is_digit(#[trigger] body[j]),
            val == spec_dec_val(body.take(i - start)),
        decreases len - i,
    {
        let c = s.get_char(i);
        let cv = c as u32;
        proof {
            assert(body[i - start] == s@[i as int]);
        }
        if cv < 48 || cv > 57 {
            proof {
                assert(!spec_is_digit(body[i - start]));
                assert(!spec_all_digits(body));
            }
            return None;
        }
        let d = (cv - 48) as u64;
        proof {
            assert(body.take(i - start + 1).drop_last() =~= body.take(i - start));
            assert(body.take(i - start + 1).last() == body[i - start]);
        }
        if val > 1844674407370955161u64 || (val == 1844674407370955161u64 && d > 5) {
            proof {
                assert(spec_dec_val(body.take(i - start + 1)) == val * 10 + d);
                assert(val * 10 + d > u64::MAX);
                if spec_all_digits(body) {
                    lemma_dec_val_prefix_le(body, i - start + 1);
                    assert(spec_dec_val(body) > u64::MAX);
                }
            }
            return None;
        }
        val = val * 10 + d;
        i = i + 1;
    }
    proof {
        assert(body.take(len - start) =~= body);
    }
    Some(val)
}

/// ASCII whitespace, as trimmed from header-derived values.
pub open spec fn spec_is_ws(c: char) -> bool {
    c == ' ' || c == '\t' || c == '\n' || c == '\r' || c == '\u{c}'
}

/// The characters a trim removes: whitespace, or double quotes.
pub open spec fn spec_trim_pred(quotes: bool) -> spec_fn(char) -> bool {
    if quotes {
        |c: char| c == '"'
    } else {
        |c: char| spec_is_ws(c)
    }
}

/// The sequence with every leading character matching `p` removed.
pub open spec fn spec_trim_start(s: Seq<char>, p: spec_fn(char) -> bool) -> Seq<char>
    decreases s.len(),
{
    if s.len() > 0 && p(s[0]) {
        spec_trim_start(s.drop_first(), p)
    } else {
        s
    }
}

/// The sequence with every trailing character matching `p` removed.
pub open spec fn spec_trim_end(s: Seq<char>, p: spec_fn(char) -> bool) -> Seq<char>
    decreases s.len(),
{
    if s.len() > 0 && p(s.last()) {
        spec_trim_end(s.drop_last(), p)
    } else {
        s
    }
}

/// The sequence with matching characters removed from both ends.
pub open spec fn spec_trim(s: Seq<char>, p: spec_fn(char) -> bool) -> Seq<char> {
    spec_trim_end(spec_trim_start(s, p), p)
}

proof fn lemma_trim_start_skip(s: Seq<char>, p: spec_fn(char) -> bool, a: int)
    requires
        0 <= a <= s.len(),
        forall|j: int| 0 <= j < a ==> p(#[trigger] s[j]),
        a < s.len() ==> !p(s[a]),
    ensures
        spec_trim_start(s, p) == s.skip(a),
    decreases a,
{
    if a == 0 {
        assert(s.skip(0) =~= s);
    } else {
        lemma_trim_start_skip(s.drop_first(), p, a - 1);
        assert(s.drop_first().skip(a - 1) =~= s.skip(a));
    }
}

proof fn lemma_trim_end_take(s: Seq<char>, p: spec_fn(char) -> bool, b: int)
    requires
        0 <= b <= s.len(),
        forall|j: int| b <= j < s.len() ==> p(#[trigger] s[j]),
        b > 0 ==> !p(s[b - 1]),
    ensures
        spec_trim_end(s, p) == s.take(b),
    decreases s.len() - b,
{
    if b == s.len() {
        assert(s.take(b) =~= s);
    } else {
        lemma_trim_end_take(s.drop_last(), p, b);
        assert(s.drop_last().take(b) =~= s.take(b));
    }
}

/// Whether the character is one a trim with this setting removes.
fn trim_char_matches(c: char, quotes: bool) -> (r: bool)
    ensures
        r == spec_trim_pred(quotes)(c),
{
    if quotes {
        c == '"'
    } else {
        c == ' ' || c == '\t' || c == '\n' || c == '\r' || c == '\u{c}'
    }
}

/// Remove matching characters from both ends: ASCII whitespace, or (with
/// `quotes`) every surrounding double quote.
pub fn trim_by(s: &str, quotes: bool) -> (r: String)
    ensures
        r@ == spec_trim(s@, spec_trim_pred(quotes)),
{
    let ghost p = spec_trim_pred(quotes);
    let len = s.unicode_len();
    let mut a: usize = 0;
    while a < len && trim_char_matches(s.get_char(a), quotes)
        invariant
            0 <= a <= len,
            len == s@.len(),
            p == spec_trim_pred(quotes),
            forall|j: int| 0 <= j < a ==> p(#[trigger] s@[j]),
        decreases len - a,
    {
        a = a + 1;
    }
    let mut b: usize = len;
    while b > a && trim_char_matches(s.get_char(b - 1), quotes)
        invariant
            a <= b <= len,
            len == s@.len(),
            p == spec_trim_pred(quotes),
            forall|j: int| b <= j < len ==> p(#[trigger] s@[j]),
        decreases b,
    {
        b = b - 1;
    }
    let r = s.substring_char(a, b).to_owned();
    proof {
        lemma_trim_start_skip(s@, p, a as int);
        lemma_trim_end_take(s@.skip(a as int), p, b - a);
        assert(s@.skip(a as int).take(b - a) =~= s@.subrange(a as int, b as int));
    }
    r
}

/// The character lowered when it is an ASCII capital, else unchanged.
pub open spec fn spec_lower(c: char) -> char {
    if 'A' <= c && c <= 'Z' {
        ((c as u8) + 32) as char
    } else {
        c
    }
}

/// The sequence with every ASCII capital lowered.
pub open spec fn spec_lower_seq(s: Seq<char>) -> Seq<char> {
    s.map_values(|c: char| spec_lower(c))
}

fn lower_char(c: char) -> (r: char)
    ensures
        r == spec_lower(c),
{
    if 'A' <= c && c <= 'Z' {
        ((c as u8) + 32) as char
    } else {
        c
    }
}

/// Compare two texts ASCII case-insensitively.
pub fn ascii_eq_ignore_case(a: &str, b: &str) -> (r: bool)
    ensures
        r == (spec_lower_seq(a@) == spec_lower_seq(b@)),
{
    let la = a.unicode_len();
    let lb = b.unicode_len();
    if la != lb {
        proof {
            assert(spec_lower_seq(a@).len() != spec_lower_seq(b@).len());
        }
        return false;
    }
    let mut i: usize = 0;
    while i < la
        invariant
            0 <= i <= la,
            la == a@.len(),
            la == b@.len(),
            forall|j: int| 0 <= j < i ==> spec_lower(#[trigger] a@[j]) == spec_lower(b@[j]),
        decreases la - i,
    {
        if lower_char(a.get_char(i)) != lower_char(b.get_char(i)) {
            proof {
                assert(spec_lower_seq(a@)[i as int] != spec_lower_seq(b@)[i as int]);
            }
            return false;
        }
        i = i + 1;
    }
    proof {
        assert(spec_lower_seq(a@) =~= spec_lower_seq(b@));
    }
    true
}

/// Whether the text contains `bytes` in any ASCII casing.
pub open spec fn spec_contains_bytes(s: Seq<char>) -> bool {
    exists|i: int|
        0 <= i && i + 5 <= s.len() && #[trigger] spec_lower_seq(s).subrange(i, i + 5)
            == "bytes"@
}

/// Search for the token `bytes`, ASCII case-insensitively.
pub fn contains_bytes_token(s: &str) -> (r: bool)
    ensures
        r == spec_contains_bytes(s@),
{
    let len = s.unicode_len();
    if len < 5 {
        return false;
    }
    let last_start = len - 5;
    let mut i: usize = 0;
    while i <= last_start
        invariant
            0 <= i <= last_start + 1,
            last_start == len - 5,
            len == s@.len(),
            forall|k: int|
                0 <= k < i ==> #[trigger] spec_lower_seq(s@).subrange(k, k + 5) != "bytes"@,
        decreases last_start + 1 - i,
    {
        proof {
            reveal_strlit("bytes");
        }
        let hit = lower_char(s.get_char(i)) == 'b' && lower_char(s.get_char(i + 1)) == 'y'
            && lower_char(s.get_char(i + 2)) == 't' && lower_char(s.get_char(i + 3)) == 'e'
            && lower_char(s.get_char(i + 4)) == 's';
        if hit {
            proof {
                assert(spec_lower_seq(s@).subrange(i as int, i as int + 5) =~= "bytes"@);
            }
            return true;
        }
        proof {
            let sub = spec_lower_seq(s@).subrange(i as int, i as int + 5);
            if sub == "bytes"@ {
                assert(sub[0] == 'b' && sub[1] == 'y' && sub[2] == 't' && sub[3] == 'e'
                    && sub[4] == 's');
                assert(false);
            }
        }
        i = i + 1;
    }
    return false;
}

/// Whether the text begins with the given prefix.
pub open spec fn spec_starts_with(s: Seq<char>, prefix: Seq<char>) -> bool {
    s.len() >= prefix.len() && s.subrange(0, prefix.len() as int) == prefix
}

/// Test a prefix character by character.
pub fn str_starts_with(s: &str, prefix: &str) -> (r: bool)
    ensures
        r == spec_starts_with(s@, prefix@),
{
    let lp = prefix.unicode_len();
    let ls = s.unicode_len();
    if ls < lp {
        return false;
    }
    let mut i: usize = 0;
    while i < lp
        invariant
            0 <= i <= lp,
            lp == prefix@.len(),
            ls == s@.len(),
            lp <= ls,
            forall|j: int| 0 <= j < i ==> s@[j] == prefix@[j],
        decreases lp - i,
    {
        if s.get_char(i) != prefix.get_char(i) {
            proof {
                assert(s@.subrange(0, prefix@.len() as int)[i as int] != prefix@[i as int]);
            }
            return false;
        }
        i = i + 1;
    }
    proof {
        assert(s@.subrange(0, prefix@.len() as int) =~= prefix@);
    }
    true
}

/// The index of the first occurrence of `c`, or -1 when absent.
pub open spec fn spec_find(s: Seq<char>, c: char) -> int
    decreases s.len(),
{
    if s.len() == 0 {
        -1
    } else if s[0] == c {
        0
    } else if spec_find(s.drop_first(), c) == -1 {
        -1
    } else {
        1 + spec_find(s.drop_first(), c)
    }
}

/// The index of the last occurrence of `c`, or -1 when absent.
pub open spec fn spec_rfind(s: Seq<char>, c: char) -> int
    decreases s.len(),
{
    if s.len() == 0 {
        -1
    } else if s.last() == c {
        s.len() - 1
    } else {
        spec_rfind(s.drop_last(), c)
    }
}

proof fn lemma_find_at(s: Seq<char>, c: char, i: int)
    requires
        0 <= i < s.len(),
        s[i] == c,
        forall|j: int| 0 <= j < i ==> s[j] != c,
    ensures
        spec_find(s, c) == i,
    decreases i,
{
    if i > 0 {
        lemma_find_at(s.drop_first(), c, i - 1);
    }
}

proof fn lemma_find_none(s: Seq<char>, c: char)
    requires
        forall|j: int| 0 <= j < s.len() ==> s[j] != c,
    ensures
        spec_find(s, c) == -1,
    decreases s.len(),
{
    if s.len() > 0 {
        lemma_find_none(s.drop_first(), c);
    }
}

proof fn lemma_rfind_at(s: Seq<char>, c: char, i: int)
    requires
        0 <= i < s.len(),
        s[i] == c,
        forall|j: int| i < j < s.len() ==> s[j] != c,
    ensures
        spec_rfind(s, c) == i,
    decreases s.len(),
{
    if i < s.len() - 1 {
        lemma_rfind_at(s.drop_last(), c, i);
    }
}

proof fn lemma_rfind_none(s: Seq<char>, c: char)
    requires
        forall|j: int| 0 <= j < s.len() ==> s[j] != c,
    ensures
        spec_rfind(s, c) == -1,
    decreases s.len(),
{
    if s.len() > 0 {
        lemma_rfind_none(s.drop_last(), c);
    }
}

/// Find the first occurrence of a character.
pub fn find_char(s: &str, c: char) -> (r: Option<usize>)
    ensures
        r matches Some(i) ==> spec_find(s@, c) == i as int && i < s@.len(),
        r is None ==> spec_find(s@, c) == -1,
{
    let len = s.unicode_len();
    let mut i: usize = 0;
    while i < len
        invariant
            0 <= i <= len,
            len == s@.len(),
            forall|j: int| 0 <= j < i ==> s@[j] != c,
        decreases len - i,
    {
        if s.get_char(i) == c {
            proof {
                lemma_find_at(s@, c, i as int);
            }
            return Some(i);
        }
        i = i + 1;
    }
    proof {
        lemma_find_none(s@, c);
    }
    None
}

/// What `truncate` yields: the text unchanged when it fits, else its first
/// `n - 1` characters with an ellipsis appended.
pub open spec fn spec_truncated(s: Seq<char>, n: int) -> Seq<char> {
    if s.len() <= n {
        s
    } else {
        s.take(if n > 0 {
            n - 1
        } else {
            0
        }) + seq!['…']
    }
}

/// Shorten a text to at most `n` characters for display, marking any cut
/// with an ellipsis.
pub fn truncate(s: &str, n: usize) -> (r: String)
    ensures
        r@ == spec_truncated(s@, n as int),
{
    let len = s.unicode_len();
    if len <= n {
        s.to_owned()
    } else {
        let cut = if n > 0 {
            n - 1
        } else {
            0
        };
        let r = s.substring_char(0, cut).to_owned().concat("…");
        proof {
            reveal_strlit("…");
            assert(s@.subrange(0, cut as int) =~= s@.take(cut as int));
            assert("…"@ =~= seq!['…']);
        }
        r
    }
}

/// Find the last occurrence of a character.
pub fn rfind_char(s: &str, c: char) -> (r: Option<usize>)
    ensures
        r matches Some(i) ==> spec_rfind(s@, c) == i as int && i < s@.len(),
        r is None ==> spec_rfind(s@, c) == -1,
{
    let len = s.unicode_len();
    let mut i: usize = len;
    while i > 0
        invariant
            0 <= i <= len,
            len == s@.len(),
            forall|j: int| i <= j < len ==> s@[j] != c,
        decreases i,
    {
        i = i - 1;
        if s.get_char(i) == c {
            proof {
                lemma_rfind_at(s@, c, i as int);
            }
            return Some(i);
        }
    }
    proof {
        lemma_rfind_none(s@, c);
    }
    None
}

} // verus!
