//! Shared text helpers: string equality, trimming, decimal formatting,
//! number parsing, splitting and joining, and display-width measurement.

use vstd::prelude::*;
use vstd::string::StrSliceExecFns;
use vstd::string::StringExecFns;
use vstd::string::StringSliceAdditionalSpecFns;

verus! {

/// The on-screen column count of a string, as the `unicode_width` crate
/// computes it: a pure function of the characters alone.
pub uninterp spec fn display_width_of(s: Seq<char>) -> nat;

/// Relies on `unicode_width::UnicodeWidthStr::width`: the string's displayed
/// width in columns, determined by its characters alone (static width tables).
#[verifier::external_body]
pub fn measure_width(s: &str) -> (w: usize)
    ensures
        w as nat == display_width_of(s@),
{
    unicode_width::UnicodeWidthStr::width(s)
}

/// The length in bytes of a string's UTF-8 encoding; most widgets use this
/// as their display-width proxy, as `str::len` reports it.
pub open spec fn byte_len(s: Seq<char>) -> nat {
    vstd::utf8::encode_utf8(s).len()
}

/// Byte length of a string slice, the usual display-width proxy.
pub fn byte_width(s: &str) -> (w: usize)
    ensures
        w == byte_len(s@) as usize,
{
    proof {
        assert(s.spec_bytes() == vstd::utf8::encode_utf8(s@));
    }
    s.len()
}

/// Character-for-character string equality.
pub fn str_eq(a: &str, b: &str) -> (r: bool)
    ensures
        r == (a@ == b@),
{
    let an = a.unicode_len();
    let bn = b.unicode_len();
    if an != bn {
        return false;
    }
    let mut i: usize = 0;
    while i < an
        invariant
            an == a@.len(),
            bn == b@.len(),
            an == bn,
            i <= an,
            forall|j: int| 0 <= j < i ==> a@[j] == b@[j],
        decreases an - i,
    {
        if a.get_char(i) != b.get_char(i) {
            return false;
        }
        i = i + 1;
    }
    proof {
        assert(a@ =~= b@);
    }
    true
}

/// The character for one decimal digit value.
pub open spec fn dec_digit_char(d: int) -> char {
    if d == 0 {
        '0'
    } else if d == 1 {
        '1'
    } else if d == 2 {
        '2'
    } else if d == 3 {
        '3'
    } else if d == 4 {
        '4'
    } else if d == 5 {
        '5'
    } else if d == 6 {
        '6'
    } else if d == 7 {
        '7'
    } else if d == 8 {
        '8'
    } else {
        '9'
    }
}

/// The decimal digit string of a non-negative number, most significant first.
pub open spec fn dec_of(n: int) -> Seq<char>
    decreases n,
{
    if n < 10 {
        seq![dec_digit_char(n)]
    } else {
        dec_of(n / 10).push(dec_digit_char(n % 10))
    }
}

fn digit_str(d: u64) -> (r: &'static str)
    requires
        d < 10,
    ensures
        r@ == seq![dec_digit_char(d as int)],
{
    proof {
        reveal_strlit("0");
        reveal_strlit("1");
        reveal_strlit("2");
        reveal_strlit("3");
        reveal_strlit("4");
        reveal_strlit("5");
        reveal_strlit("6");
        reveal_strlit("7");
        reveal_strlit("8");
        reveal_strlit("9");
    }
    if d == 0 {
        proof {
            assert("0"@ =~= seq![dec_digit_char(0)]);
        }
        "0"
    } else if d == 1 {
        proof {
            assert("1"@ =~= seq![dec_digit_char(1)]);
        }
        "1"
    } else if d == 2 {
        proof {
            assert("2"@ =~= seq![dec_digit_char(2)]);
        }
        "2"
    } else if d == 3 {
        proof {
            assert("3"@ =~= seq![dec_digit_char(3)]);
        }
        "3"
    } else if d == 4 {
        proof {
            assert("4"@ =~= seq![dec_digit_char(4)]);
        }
        "4"
    } else if d == 5 {
        proof {
            assert("5"@ =~= seq![dec_digit_char(5)]);
        }
        "5"
    } else if d == 6 {
        proof {
            assert("6"@ =~= seq![dec_digit_char(6)]);
        }
        "6"
    } else if d == 7 {
        proof {
            assert("7"@ =~= seq![dec_digit_char(7)]);
        }
        "7"
    } else if d == 8 {
        proof {
            assert("8"@ =~= seq![dec_digit_char(8)]);
        }
        "8"
    } else {
        proof {
            assert("9"@ =~= seq![dec_digit_char(9)]);
        }
        "9"
    }
}

/// Render a number as its decimal digit string.
pub fn u64_to_string(n: u64) -> (r: String)
    ensures
        r@ == dec_of(n as int),
    decreases n,
{
    if n < 10 {
        digit_str(n).to_owned()
    } else {
        let mut s = u64_to_string(n / 10);
        s.append(digit_str(n % 10));
        proof {
            assert(dec_of((n / 10) as int).push(dec_digit_char(n as int % 10)) =~= dec_of(
                (n / 10) as int,
            ) + seq![dec_digit_char(n as int % 10)]);
        }
        s
    }
}

fn digit_str_u128(d: u128) -> (r: &'static str)
    requires
        d < 10,
    ensures
        r@ == seq![dec_digit_char(d as int)],
{
    digit_str(d as u64)
}

/// Render a wide number as its decimal digit string.
pub fn u128_to_string(n: u128) -> (r: String)
    ensures
        r@ == dec_of(n as int),
    decreases n,
{
    if n < 10 {
        digit_str_u128(n).to_owned()
    } else {
        let mut s = u128_to_string(n / 10);
        s.append(digit_str_u128(n % 10));
        proof {
            assert(dec_of((n / 10) as int).push(dec_digit_char(n as int % 10)) =~= dec_of(
                (n / 10) as int,
            ) + seq![dec_digit_char(n as int % 10)]);
        }
        s
    }
}

/// A number below 100 padded with leading zeros to two digits.
pub open spec fn pad2_of(n: int) -> Seq<char> {
    if n < 10 {
        seq!['0'] + dec_of(n)
    } else {
        dec_of(n)
    }
}

/// Render a number below 100 as exactly two digits.
pub fn pad2_string(n: u64) -> (r: String)
    requires
        n < 100,
    ensures
        r@ == pad2_of(n as int),
{
    if n < 10 {
        proof {
            reveal_strlit("0");
            assert("0"@ =~= seq!['0']);
        }
        let mut s = "0".to_owned();
        let d = u64_to_string(n);
        s.append(d.as_str());
        s
    } else {
        u64_to_string(n)
    }
}

/// A number below 1000 padded with leading zeros to three digits.
pub open spec fn pad3_of(n: int) -> Seq<char> {
    if n < 10 {
        seq!['0', '0'] + dec_of(n)
    } else if n < 100 {
        seq!['0'] + dec_of(n)
    } else {
        dec_of(n)
    }
}

fn pad3_string(n: u64) -> (r: String)
    requires
        n < 1000,
    ensures
        r@ == pad3_of(n as int),
{
    proof {
        reveal_strlit("0");
        reveal_strlit("00");
        assert("0"@ =~= seq!['0']);
        assert("00"@ =~= seq!['0', '0']);
    }
    if n < 10 {
        let mut s = "00".to_owned();
        let d = u64_to_string(n);
        s.append(d.as_str());
        s
    } else if n < 100 {
        let mut s = "0".to_owned();
        let d = u64_to_string(n);
        s.append(d.as_str());
        s
    } else {
        u64_to_string(n)
    }
}

/// The decimal digit string with thousands separated by commas.
pub open spec fn grouped_of(n: int) -> Seq<char>
    decreases n,
{
    if n < 1000 {
        dec_of(n)
    } else {
        grouped_of(n / 1000) + seq![','] + pad3_of(n % 1000)
    }
}

/// Render a number with thousands-separating commas.
pub fn u128_to_grouped_string(n: u128) -> (r: String)
    ensures
        r@ == grouped_of(n as int),
    decreases n,
{
    if n < 1000 {
        u128_to_string(n)
    } else {
        let mut s = u128_to_grouped_string(n / 1000);
        proof {
            reveal_strlit(",");
            assert(","@ =~= seq![',']);
        }
        s.append(",");
        let rest = pad3_string((n % 1000) as u64);
        s.append(rest.as_str());
        s
    }
}

/// `n` copies of one character.
pub open spec fn repeat_char(c: char, n: int) -> Seq<char>
    decreases n,
{
    if n <= 0 {
        Seq::empty()
    } else {
        repeat_char(c, n - 1).push(c)
    }
}

/// Append `n` copies of a one-character string to `out`.
pub fn append_repeated(out: &mut String, piece: &str, n: u64)
    requires
        piece@.len() == 1,
    ensures
        final(out)@ == old(out)@ + repeat_char(piece@[0], n as int),
{
    let mut i: u64 = 0;
    while i < n
        invariant
            piece@.len() == 1,
            i <= n,
            out@ == old(out)@ + repeat_char(piece@[0], i as int),
        decreases n - i,
    {
        out.append(piece);
        proof {
            assert(repeat_char(piece@[0], i + 1 as int) =~= repeat_char(piece@[0], i as int)
                + piece@);
        }
        i = i + 1;
    }
}

/// Whether a character is a decimal digit.
pub open spec fn is_dec_digit(c: char) -> bool {
    48 <= c as u32 <= 57
}

/// The numeric value of a digit character.
pub open spec fn dec_digit_val(c: char) -> int {
    c as u32 - 48
}

/// The number a digit string denotes, most significant digit first.
pub open spec fn digits_val(s: Seq<char>) -> int
    decreases s.len(),
{
    if s.len() == 0 {
        0
    } else {
        digits_val(s.drop_last()) * 10 + dec_digit_val(s.last())
    }
}

/// Whether every character of `s` is a decimal digit.
pub open spec fn all_dec_digits(s: Seq<char>) -> bool {
    forall|i: int| 0 <= i < s.len() ==> is_dec_digit(s[i])
}

/// What parsing a decimal number yields: the digits' value for a non-empty
/// all-digit string whose value fits, nothing otherwise.
pub open spec fn parse_u64_of(s: Seq<char>) -> Option<u64> {
    if s.len() > 0 && all_dec_digits(s) && digits_val(s) <= u64::MAX {
        Some(digits_val(s) as u64)
    } else {
        None
    }
}

proof fn lemma_digits_val_bounds(s: Seq<char>)
    requires
        all_dec_digits(s),
    ensures
        0 <= digits_val(s),
        forall|k: int| 0 <= k <= s.len() ==> digits_val(#[trigger] s.take(k)) <= digits_val(s),
    decreases s.len(),
{
    if s.len() == 0 {
    } else {
        assert(all_dec_digits(s.drop_last())) by {
            assert(forall|i: int|
                0 <= i < s.drop_last().len() ==> s.drop_last()[i] == s[i] && is_dec_digit(s[i]));
        }
        lemma_digits_val_bounds(s.drop_last());
        assert(is_dec_digit(s.last()));
        assert(0 <= dec_digit_val(s.last()));
        assert forall|k: int| 0 <= k <= s.len() implies digits_val(#[trigger] s.take(k))
            <= digits_val(s) by {
            if k == s.len() {
                assert(s.take(k) =~= s);
            } else {
                assert(s.take(k) =~= s.drop_last().take(k));
                assert(digits_val(s.take(k)) <= digits_val(s.drop_last()));
                assert(digits_val(s) == digits_val(s.drop_last()) * 10 + dec_digit_val(s.last()));
            }
        }
    }
}

/// Parse a non-empty all-digit string into a number; anything else, or a
/// value too large for `u64`, yields nothing.
pub fn parse_u64(s: &str) -> (r: Option<u64>)
    ensures
        r == parse_u64_of(s@),
{
    let n = s.unicode_len();
    if n == 0 {
        return None;
    }
    let mut acc: u64 = 0;
    let mut i: usize = 0;
    while i < n
        invariant
            n == s@.len(),
            0 < n,
            i <= n,
            all_dec_digits(s@.take(i as int)),
            acc as int == digits_val(s@.take(i as int)),
        decreases n - i,
    {
        let c = s.get_char(i);
        let cv = c as u32;
        if cv < 48 || cv > 57 {
            assert(!is_dec_digit(s@[i as int]));
            return None;
        }
        let d: u64 = (cv - 48) as u64;
        proof {
            assert(s@.take(i + 1).drop_last() =~= s@.take(i as int));
            assert(s@.take(i + 1).last() == s@[i as int]);
        }
        if acc > (u64::MAX - d) / 10 {
            proof {
                assert(digits_val(s@.take(i + 1)) == acc * 10 + d);
                assert(digits_val(s@.take(i + 1)) > u64::MAX);
                if all_dec_digits(s@) {
                    lemma_digits_val_bounds(s@);
                    assert(digits_val(s@.take(i + 1)) <= digits_val(s@));
                }
            }
            return None;
        }
        assert(acc * 10 + d <= u64::MAX) by {
            assert(acc <= (u64::MAX - d) / 10);
            assert(acc * 10 <= ((u64::MAX - d) / 10) * 10) by (nonlinear_arith)
                requires
                    acc <= (u64::MAX - d) / 10,
            ;
            assert(((u64::MAX - d) / 10) * 10 <= u64::MAX - d);
        };
        acc = acc * 10 + d;
        i = i + 1;
    }
    proof {
        assert(s@.take(n as int) =~= s@);
    }
    Some(acc)
}

/// Whitespace for trimming: space, tab, carriage return, line feed.
pub open spec fn is_ws(c: char) -> bool {
    c == ' ' || c == '\t' || c == '\r' || c == '\n'
}

/// `s` with leading whitespace removed.
pub open spec fn trim_start_of(s: Seq<char>) -> Seq<char>
    decreases s.len(),
{
    if s.len() > 0 && is_ws(s[0]) {
        trim_start_of(s.drop_first())
    } else {
        s
    }
}

/// `s` with trailing whitespace removed.
pub open spec fn trim_end_of(s: Seq<char>) -> Seq<char>
    decreases s.len(),
{
    if s.len() > 0 && is_ws(s.last()) {
        trim_end_of(s.drop_last())
    } else {
        s
    }
}

/// `s` with whitespace removed from both ends.
pub open spec fn trim_of(s: Seq<char>) -> Seq<char> {
    trim_end_of(trim_start_of(s))
}

proof fn lemma_trim_start_skip(s: Seq<char>, lo: int)
    requires
        0 <= lo <= s.len(),
        forall|j: int| 0 <= j < lo ==> is_ws(s[j]),
        lo == s.len() || !is_ws(s[lo]),
    ensures
        trim_start_of(s) == s.skip(lo),
    decreases lo,
{
    if lo == 0 {
        assert(s.skip(0) =~= s);
    } else {
        assert(is_ws(s[0]));
        lemma_trim_start_skip(s.drop_first(), lo - 1);
        assert(s.drop_first().skip(lo - 1) =~= s.skip(lo));
    }
}

proof fn lemma_trim_end_take(s: Seq<char>, hi: int)
    requires
        0 <= hi <= s.len(),
        forall|j: int| hi <= j < s.len() ==> is_ws(s[j]),
        hi == 0 || !is_ws(s[hi - 1]),
    ensures
        trim_end_of(s) == s.take(hi),
    decreases s.len() - hi,
{
    if hi == s.len() {
        assert(s.take(hi) =~= s);
        if s.len() > 0 {
            assert(!is_ws(s.last()));
        }
    } else {
        assert(is_ws(s.last()));
        lemma_trim_end_take(s.drop_last(), hi);
        assert(s.drop_last().take(hi) =~= s.take(hi));
    }
}

fn is_ws_exec(c: char) -> (r: bool)
    ensures
        r == is_ws(c),
{
    c == ' ' || c == '\t' || c == '\r' || c == '\n'
}

/// Remove leading and trailing whitespace.
pub fn trim(s: &str) -> (r: String)
    ensures
        r@ == trim_of(s@),
{
    let n = s.unicode_len();
    let mut lo: usize = 0;
    loop
        invariant_except_break
            n == s@.len(),
            lo <= n,
            forall|j: int| 0 <= j < lo ==> is_ws(s@[j]),
        ensures
            n == s@.len(),
            lo <= n,
            forall|j: int| 0 <= j < lo ==> is_ws(s@[j]),
            lo == n || !is_ws(s@[lo as int]),
        decreases n - lo,
    {
        if lo >= n {
            break ;
        }
        if !is_ws_exec(s.get_char(lo)) {
            break ;
        }
        lo = lo + 1;
    }
    if lo == n {
        proof {
            lemma_trim_start_skip(s@, lo as int);
            assert(s@.skip(n as int) =~= Seq::<char>::empty());
        }
        return String::new();
    }
    let mut hi: usize = n;
    loop
        invariant_except_break
            n == s@.len(),
            lo < n,
            !is_ws(s@[lo as int]),
            lo < hi <= n,
            forall|j: int| hi <= j < n ==> is_ws(s@[j]),
        ensures
            lo < hi <= n,
            forall|j: int| hi <= j < n ==> is_ws(s@[j]),
            !is_ws(s@[hi - 1]),
        decreases hi,
    {
        if hi == lo + 1 {
            break ;
        }
        if !is_ws_exec(s.get_char(hi - 1)) {
            break ;
        }
        hi = hi - 1;
    }
    let piece = s.substring_char(lo, hi);
    proof {
        lemma_trim_start_skip(s@, lo as int);
        assert(!is_ws(s@.skip(lo as int)[0]));
        lemma_trim_end_take(s@.skip(lo as int), hi - lo);
        assert(s@.skip(lo as int).take(hi - lo) =~= s@.subrange(lo as int, hi as int));
    }
    piece.to_owned()
}

/// The character for one hexadecimal digit value, lower case.
pub open spec fn hex_digit_char(d: int) -> char {
    if d < 10 {
        dec_digit_char(d)
    } else if d == 10 {
        'a'
    } else if d == 11 {
        'b'
    } else if d == 12 {
        'c'
    } else if d == 13 {
        'd'
    } else if d == 14 {
        'e'
    } else {
        'f'
    }
}

/// Bytes rendered as two lower-case hexadecimal digits each.
pub open spec fn hex_of(bs: Seq<u8>) -> Seq<char>
    decreases bs.len(),
{
    if bs.len() == 0 {
        Seq::empty()
    } else {
        hex_of(bs.drop_last()) + seq![
            hex_digit_char(bs.last() as int / 16),
            hex_digit_char(bs.last() as int % 16),
        ]
    }
}

fn hex_digit_str(d: u8) -> (r: &'static str)
    requires
        d < 16,
    ensures
        r@ == seq![hex_digit_char(d as int)],
{
    if d < 10 {
        digit_str(d as u64)
    } else {
        proof {
            reveal_strlit("a");
            reveal_strlit("b");
            reveal_strlit("c");
            reveal_strlit("d");
            reveal_strlit("e");
            reveal_strlit("f");
            assert("a"@ =~= seq!['a']);
            assert("b"@ =~= seq!['b']);
            assert("c"@ =~= seq!['c']);
            assert("d"@ =~= seq!['d']);
            assert("e"@ =~= seq!['e']);
            assert("f"@ =~= seq!['f']);
        }
        if d == 10 {
            "a"
        } else if d == 11 {
            "b"
        } else if d == 12 {
            "c"
        } else if d == 13 {
            "d"
        } else if d == 14 {
            "e"
        } else {
            "f"
        }
    }
}

/// The first `max_bytes` bytes of a string's UTF-8 encoding, or all of them
/// where it is shorter.
pub open spec fn leading_bytes(s: Seq<char>, max_bytes: int) -> Seq<u8> {
    let bs = vstd::utf8::encode_utf8(s);
    if bs.len() <= max_bytes {
        bs
    } else {
        bs.take(max_bytes)
    }
}

/// Render the first `max_bytes` bytes of a string as lower-case hexadecimal.
pub fn hex_prefix(s: &str, max_bytes: usize) -> (r: String)
    ensures
        r@ == hex_of(leading_bytes(s@, max_bytes as int)),
{
    let bytes = s.as_bytes();
    let n = if bytes.len() <= max_bytes {
        bytes.len()
    } else {
        max_bytes
    };
    let ghost bs = vstd::utf8::encode_utf8(s@);
    let mut r = String::new();
    let mut i: usize = 0;
    while i < n
        invariant
            bs == vstd::utf8::encode_utf8(s@),
            bytes@ == bs,
            n <= bytes@.len(),
            i <= n,
            r@ == hex_of(bs.take(i as int)),
        decreases n - i,
    {
        let b = bytes[i];
        r.append(hex_digit_str(b / 16));
        r.append(hex_digit_str(b % 16));
        proof {
            assert(bs.take(i + 1).drop_last() =~= bs.take(i as int));
            assert(bs.take(i + 1).last() == bs[i as int]);
            assert(r@ =~= hex_of(bs.take(i as int)) + seq![
                hex_digit_char(bs[i as int] as int / 16),
                hex_digit_char(bs[i as int] as int % 16),
            ]);
        }
        i = i + 1;
    }
    proof {
        assert(bs.take(n as int) =~= leading_bytes(s@, max_bytes as int));
    }
    r
}

/// The views of a sequence of strings.
pub open spec fn views_of(ss: Seq<String>) -> Seq<Seq<char>> {
    ss.map_values(|p: String| p@)
}

/// The segments of `s` between occurrences of `c`: always at least one
/// segment, with an empty segment for each leading, trailing or doubled
/// separator.
pub open spec fn split_on(s: Seq<char>, c: char) -> Seq<Seq<char>>
    decreases s.len(),
{
    if s.len() == 0 {
        seq![Seq::empty()]
    } else if s.last() == c {
        split_on(s.drop_last(), c) + seq![Seq::<char>::empty()]
    } else {
        let r = split_on(s.drop_last(), c);
        r.update(r.len() - 1, r.last().push(s.last()))
    }
}

pub proof fn lemma_split_on_len(s: Seq<char>, c: char)
    ensures
        split_on(s, c).len() >= 1,
    decreases s.len(),
{
    if s.len() > 0 {
        lemma_split_on_len(s.drop_last(), c);
    }
}

/// Split a string into its segments between occurrences of `c`.
pub fn split_char(s: &str, c: char) -> (parts: Vec<String>)
    ensures
        views_of(parts@) == split_on(s@, c),
{
    let n = s.unicode_len();
    let mut parts: Vec<String> = Vec::new();
    let mut cur: String = String::new();
    let mut i: usize = 0;
    while i < n
        invariant
            n == s@.len(),
            i <= n,
            views_of(parts@).push(cur@) == split_on(s@.take(i as int), c),
        decreases n - i,
    {
        let ci = s.get_char(i);
        proof {
            assert(s@.take(i + 1).drop_last() =~= s@.take(i as int));
            assert(s@.take(i + 1).last() == s@[i as int]);
        }
        if ci == c {
            parts.push(cur);
            cur = String::new();
            proof {
                assert(views_of(parts@).push(cur@) =~= split_on(s@.take(i as int), c) + seq![
                    Seq::<char>::empty(),
                ]);
            }
        } else {
            let piece = s.substring_char(i, i + 1);
            proof {
                assert(piece@ =~= seq![s@[i as int]]);
            }
            cur.append(piece);
            proof {
                let r = split_on(s@.take(i as int), c);
                lemma_split_on_len(s@.take(i as int), c);
                assert(cur@ =~= r.last().push(s@[i as int]));
                assert(views_of(parts@).push(cur@) =~= r.update(
                    r.len() - 1,
                    r.last().push(s@[i as int]),
                ));
            }
        }
        i = i + 1;
    }
    proof {
        assert(s@.take(n as int) =~= s@);
    }
    parts.push(cur);
    parts
}

/// The segments joined with `sep` between them.
pub open spec fn join_with(parts: Seq<Seq<char>>, sep: Seq<char>) -> Seq<char>
    decreases parts.len(),
{
    if parts.len() == 0 {
        Seq::empty()
    } else if parts.len() == 1 {
        parts[0]
    } else {
        join_with(parts.drop_last(), sep) + sep + parts.last()
    }
}

/// Join strings with a separator between them.
pub fn join_parts(parts: &Vec<String>, sep: &str) -> (r: String)
    ensures
        r@ == join_with(views_of(parts@), sep@),
{
    let mut r = String::new();
    let mut i: usize = 0;
    while i < parts.len()
        invariant
            i <= parts@.len(),
            r@ == join_with(views_of(parts@).take(i as int), sep@),
        decreases parts@.len() - i,
    {
        if i > 0 {
            r.append(sep);
        }
        r.append(parts[i].as_str());
        proof {
            let vs = views_of(parts@);
            assert(vs.take(i + 1).drop_last() =~= vs.take(i as int));
            assert(vs.take(i + 1).last() == vs[i as int]);
            if i == 0 {
                assert(r@ == vs.take(1)[0]);
            }
        }
        i = i + 1;
    }
    proof {
        assert(views_of(parts@).take(parts@.len() as int) =~= views_of(parts@));
    }
    r
}

/// The final path component, as a path's file name is usually taken: the
/// last segment that is not empty and not `.`; nothing when no such segment
/// remains or when it is `..`.
pub open spec fn file_name_of(parts: Seq<Seq<char>>) -> Option<Seq<char>>
    decreases parts.len(),
{
    if parts.len() == 0 {
        None
    } else if parts.last().len() == 0 || parts.last() == "."@ {
        file_name_of(parts.drop_last())
    } else if parts.last() == ".."@ {
        None
    } else {
        Some(parts.last())
    }
}

/// The file name of a `/`-separated path, if it has one.
pub open spec fn basename_of(s: Seq<char>) -> Option<Seq<char>> {
    file_name_of(split_on(s, '/'))
}

/// Extract the file name of a `/`-separated path.
pub fn basename(s: &str) -> (r: Option<String>)
    ensures
        match r {
            Some(b) => basename_of(s@) == Some(b@),
            None => basename_of(s@) is None,
        },
{
    let parts = split_char(s, '/');
    let mut k: usize = parts.len();
    proof {
        assert(views_of(parts@).take(parts@.len() as int) =~= views_of(parts@));
    }
    loop
        invariant_except_break
            k <= parts@.len(),
            file_name_of(views_of(parts@).take(k as int)) == file_name_of(views_of(parts@)),
        ensures
            k <= parts@.len(),
            file_name_of(views_of(parts@).take(k as int)) == file_name_of(views_of(parts@)),
            k == 0 || !(views_of(parts@).take(k as int).last().len() == 0 || views_of(
                parts@,
            ).take(k as int).last() == "."@),
        decreases k,
    {
        if k == 0 {
            break ;
        }
        proof {
            assert(views_of(parts@).take(k as int).last() == parts@[k - 1]@);
            assert(views_of(parts@).take(k as int).drop_last() =~= views_of(parts@).take(k - 1));
        }
        if parts[k - 1].as_str().unicode_len() == 0 {
            k = k - 1;
        } else if str_eq(parts[k - 1].as_str(), ".") {
            k = k - 1;
        } else {
            break ;
        }
    }
    if k == 0 {
        proof {
            assert(views_of(parts@).take(0) =~= Seq::<Seq<char>>::empty());
        }
        return None;
    }
    proof {
        assert(views_of(parts@).take(k as int).last() == parts@[k - 1]@);
    }
    if str_eq(parts[k - 1].as_str(), "..") {
        return None;
    }
    Some(parts[k - 1].clone())
}

} // verus!
