//! Small string utilities shared across the library: decimal formatting,
//! digit parsing, prefix handling, splitting and trimming, all specified
//! over `Seq<char>` views.

use vstd::prelude::*;

verus! {

/// The decimal digit character for `d` (`0 <= d < 10`).
pub open spec fn digit_char(d: int) -> char {
    if d == 0 {
        '0'
    } else if d == 1 {
        '1'
    } else if d == 2 {
        '2'
    } else if d == 3 {
        '3'
    } else if d == 4 {
        '4'
    } else if d == 5 {
        '5'
    } else if d == 6 {
        '6'
    } else if d == 7 {
        '7'
    } else if d == 8 {
        '8'
    } else {
        '9'
    }
}

/// The decimal representation of `n`, most significant digit first.
pub open spec fn dec_str(n: nat) -> Seq<char>
    decreases n,
{
    if n < 10 {
        seq![digit_char(n as int)]
    } else {
        dec_str(n / 10) + seq![digit_char((n % 10) as int)]
    }
}

fn digit_str(d: u64) -> (r: &'static str)
    requires
        d < 10,
    ensures
        r@ == seq![digit_char(d as int)],
{
    proof {
        reveal_strlit("0");
        reveal_strlit("1");
        reveal_strlit("2");
        reveal_strlit("3");
        reveal_strlit("4");
        reveal_strlit("5");
        reveal_strlit("6");
        reveal_strlit("7");
        reveal_strlit("8");
        reveal_strlit("9");
    }
    let r = match d {
        0 => "0",
        1 => "1",
        2 => "2",
        3 => "3",
        4 => "4",
        5 => "5",
        6 => "6",
        7 => "7",
        8 => "8",
        _ => "9",
    };
    proof {
        assert(r@ =~= seq![digit_char(d as int)]);
    }
    r
}

/// Formats `n` in decimal.
pub fn u64_to_string(n: u64) -> (r: String)
    ensures
        r@ == dec_str(n as nat),
    decreases n,
{
    if n < 10 {
        String::from_str(digit_str(n))
    } else {
        let prefix = u64_to_string(n / 10);
        let r = prefix.concat(digit_str(n % 10));
        proof {
            assert(r@ =~= dec_str(n as nat));
        }
        r
    }
}

/// Signed decimal representation.
pub open spec fn int_str(i: int) -> Seq<char> {
    if i < 0 {
        seq!['-'] + dec_str((-i) as nat)
    } else {
        dec_str(i as nat)
    }
}

/// Formats `n` in decimal, with a leading `-` when negative.
pub fn i32_to_string(n: i32) -> (r: String)
    ensures
        r@ == int_str(n as int),
{
    if n >= 0 {
        u64_to_string(n as u64)
    } else {
        let magnitude: u64 = (-(n as i64)) as u64;
        let r = String::from_str("-").concat(u64_to_string(magnitude).as_str());
        proof {
            reveal_strlit("-");
            assert(r@ =~= int_str(n as int));
        }
        r
    }
}

/// True when `c` is a decimal digit.
pub open spec fn is_digit(c: char) -> bool {
    '0' <= c && c <= '9'
}

/// The numeric value of the digit `c`.
pub open spec fn digit_val(c: char) -> int {
    c as int - 48
}

/// True when `s` consists of digits only.
pub open spec fn all_digits(s: Seq<char>) -> bool {
    forall|i: int| 0 <= i < s.len() ==> is_digit(#[trigger] s[i])
}

/// The numeric value of the digit string `s`, most significant digit first.
pub open spec fn digits_val(s: Seq<char>) -> int
    decreases s.len(),
{
    if s.len() == 0 {
        0
    } else {
        digits_val(s.drop_last()) * 10 + digit_val(s.last())
    }
}

/// Character-for-character equality of two string slices.
pub fn str_eq_str(a: &str, b: &str) -> (r: bool)
    ensures
        r == (a@ == b@),
{
    let a_len = a.unicode_len();
    let b_len = b.unicode_len();
    if a_len != b_len {
        assert(a@ != b@);
        return false;
    }
    let mut i: usize = 0;
    while i < a_len
        invariant
            i <= a_len,
            a_len == a@.len(),
            b_len == b@.len(),
            a_len == b_len,
            forall|j: int| 0 <= j < i ==> a@[j] == b@[j],
        decreases a_len - i,
    {
        if a.get_char(i) != b.get_char(i) {
            assert(a@ != b@);
            return false;
        }
        i += 1;
    }
    proof {
        assert(a@ =~= b@);
    }
    true
}

/// True when `s` begins with `p`.
pub open spec fn starts_with(s: Seq<char>, p: Seq<char>) -> bool {
    s.len() >= p.len() && s.subrange(0, p.len() as int) == p
}

/// True when `s` ends with `p`.
pub open spec fn ends_with(s: Seq<char>, p: Seq<char>) -> bool {
    s.len() >= p.len() && s.subrange(s.len() - p.len(), s.len() as int) == p
}

/// Whether `s` starts with the prefix `p`.
pub fn starts_with_str(s: &str, p: &str) -> (r: bool)
    ensures
        r == starts_with(s@, p@),
{
    let s_len = s.unicode_len();
    let p_len = p.unicode_len();
    if p_len > s_len {
        return false;
    }
    let head = s.substring_char(0, p_len);
    str_eq_str(head, p)
}

/// Whether `s` ends with the suffix `p`.
pub fn ends_with_str(s: &str, p: &str) -> (r: bool)
    ensures
        r == ends_with(s@, p@),
{
    let s_len = s.unicode_len();
    let p_len = p.unicode_len();
    if p_len > s_len {
        return false;
    }
    let tail = s.substring_char(s_len - p_len, s_len);
    str_eq_str(tail, p)
}

/// A digit string's value never shrinks as more digits are appended.
proof fn lemma_digits_val_monotone(s: Seq<char>, i: int, j: int)
    requires
        all_digits(s),
        0 <= i <= j <= s.len(),
    ensures
        digits_val(s.subrange(0, i)) <= digits_val(s.subrange(0, j)),
    decreases j - i,
{
    if i < j {
        lemma_digits_val_nonneg(s.subrange(0, j - 1));
        assert(s.subrange(0, j).drop_last() =~= s.subrange(0, j - 1));
        assert(digits_val(s.subrange(0, j)) == digits_val(s.subrange(0, j - 1)) * 10 + digit_val(
            s.subrange(0, j).last(),
        ));
        assert(is_digit(s[j - 1]));
        lemma_digits_val_monotone(s, i, j - 1);
    }
}

/// The value of a digit string is nonnegative.
proof fn lemma_digits_val_nonneg(s: Seq<char>)
    requires
        all_digits(s),
    ensures
        digits_val(s) >= 0,
    decreases s.len(),
{
    if s.len() > 0 {
        assert(all_digits(s.drop_last()));
        lemma_digits_val_nonneg(s.drop_last());
    }
}

/// Parses a string of decimal digits. Returns `None` when the string is
/// empty, contains a non-digit, or names a value above `u64::MAX`.
pub fn parse_u64_digits(s: &str) -> (r: Option<u64>)
    ensures
        r matches Some(v) ==> s@.len() > 0 && all_digits(s@) && v == digits_val(s@),
        r is None ==> s@.len() == 0 || !all_digits(s@) || digits_val(s@) > u64::MAX,
{
    let len = s.unicode_len();
    if len == 0 {
        return None;
    }
    let mut acc: u64 = 0;
    let mut i: usize = 0;
    while i < len
        invariant
            0 < len == s@.len(),
            i <= len,
            all_digits(s@.subrange(0, i as int)),
            acc == digits_val(s@.subrange(0, i as int)),
        decreases len - i,
    {
        let c = s.get_char(i);
        if c < '0' || c > '9' {
            assert(!is_digit(s@[i as int]));
            return None;
        }
        let d: u64 = (c as u32 - 48) as u64;
        assert(d == digit_val(s@[i as int]));
        if acc > (u64::MAX - d) / 10 {
            proof {
                assert(all_digits(s@.subrange(0, i + 1)));
                assert(s@.subrange(0, i + 1).drop_last() =~= s@.subrange(0, i as int));
                assert(digits_val(s@.subrange(0, i + 1)) == acc * 10 + d);
                assert(acc * 10 + d > u64::MAX) by (nonlinear_arith)
                    requires
                        acc > (u64::MAX - d) / 10,
                        0 <= d <= 9,
                ;
                if all_digits(s@) {
                    lemma_digits_val_monotone(s@, i + 1, len as int);
                    assert(s@.subrange(0, len as int) =~= s@);
                }
            }
            return None;
        }
        proof {
            assert(acc * 10 + d <= u64::MAX) by (nonlinear_arith)
                requires
                    acc <= (u64::MAX - d) / 10,
                    0 <= d <= 9,
            ;
            assert(s@.subrange(0, i + 1).drop_last() =~= s@.subrange(0, i as int));
            assert(all_digits(s@.subrange(0, i + 1)));
        }
        acc = acc * 10 + d;
        i += 1;
    }
    proof {
        assert(s@.subrange(0, len as int) =~= s@);
    }
    Some(acc)
}

/// Parses a digit string into an `i32`; `None` on empty input, a non-digit,
/// or a value above `i32::MAX`.
pub fn parse_i32_digits(s: &str) -> (r: Option<i32>)
    ensures
        r matches Some(v) ==> s@.len() > 0 && all_digits(s@) && v == digits_val(s@),
        r is None ==> s@.len() == 0 || !all_digits(s@) || digits_val(s@) > i32::MAX,
{
    match parse_u64_digits(s) {
        Some(v) => if v <= i32::MAX as u64 {
            Some(v as i32)
        } else {
            None
        },
        None => {
            proof {
                if s@.len() > 0 && all_digits(s@) {
                    assert(digits_val(s@) > u64::MAX);
                }
            }
            None
        },
    }
}

/// Parses a digit string into a `usize`, with `0` for anything that is not
/// a plain digit string or does not fit.
pub fn parse_usize_or_zero(s: &str) -> (r: usize)
    ensures
        s@.len() > 0 && all_digits(s@) && digits_val(s@) <= usize::MAX ==> r == digits_val(s@),
        !(s@.len() > 0 && all_digits(s@) && digits_val(s@) <= usize::MAX) ==> r == 0,
{
    match parse_u64_digits(s) {
        Some(v) => if v <= usize::MAX as u64 {
            v as usize
        } else {
            0
        },
        None => {
            proof {
                if s@.len() > 0 && all_digits(s@) && digits_val(s@) <= usize::MAX {
                    assert(digits_val(s@) <= u64::MAX);
                }
            }
            0
        },
    }
}

/// `s` with every leading repetition of `p` removed, as `trim_start_matches`
/// leaves it.
pub open spec fn strip_prefix_repeated(s: Seq<char>, p: Seq<char>) -> Seq<char>
    decreases s.len(),
{
    if p.len() > 0 && starts_with(s, p) {
        strip_prefix_repeated(s.subrange(p.len() as int, s.len() as int), p)
    } else {
        s
    }
}

/// Removes every leading repetition of the prefix `p` from `s`.
pub fn trim_start_matches_str<'a>(s: &'a str, p: &str) -> (r: &'a str)
    ensures
        r@ == strip_prefix_repeated(s@, p@),
{
    let p_len = p.unicode_len();
    if p_len == 0 {
        return s;
    }
    let mut cur: &str = s;
    let mut cur_len = s.unicode_len();
    while cur_len >= p_len && str_eq_str(cur.substring_char(0, p_len), p)
        invariant
            p_len == p@.len(),
            p_len > 0,
            cur_len == cur@.len(),
            strip_prefix_repeated(cur@, p@) == strip_prefix_repeated(s@, p@),
        decreases cur_len,
    {
        assert(starts_with(cur@, p@));
        cur = cur.substring_char(p_len, cur_len);
        cur_len = cur_len - p_len;
    }
    proof {
        if cur@.len() >= p@.len() {
            assert(cur@.subrange(0, p@.len() as int) != p@);
        }
        assert(!starts_with(cur@, p@));
    }
    cur
}

/// The pieces of `s` from position `cur` onward when split at `sep`, with the
/// current piece having started at `start`.
pub open spec fn split_from(s: Seq<char>, sep: char, start: int, cur: int) -> Seq<Seq<char>>
    recommends
        0 <= start <= cur <= s.len(),
    decreases s.len() - cur,
{
    if cur >= s.len() {
        seq![s.subrange(start, s.len() as int)]
    } else if s[cur] == sep {
        seq![s.subrange(start, cur)] + split_from(s, sep, cur + 1, cur + 1)
    } else {
        split_from(s, sep, start, cur + 1)
    }
}

/// `s` split at every occurrence of `sep`; empty pieces are kept, and the
/// result is never empty.
pub open spec fn split_char_spec(s: Seq<char>, sep: char) -> Seq<Seq<char>> {
    split_from(s, sep, 0, 0)
}

/// Splits `s` at every occurrence of `sep`, keeping empty pieces.
pub fn split_on_char(s: &str, sep: char) -> (r: Vec<String>)
    ensures
        r.deep_view() == split_char_spec(s@, sep),
{
    let len = s.unicode_len();
    let mut pieces: Vec<String> = Vec::new();
    let mut start: usize = 0;
    let mut i: usize = 0;
    while i < len
        invariant
            len == s@.len(),
            0 <= start <= i <= len,
            pieces.deep_view() + split_from(s@, sep, start as int, i as int) == split_char_spec(
                s@,
                sep,
            ),
        decreases len - i,
    {
        if s.get_char(i) == sep {
            let ghost pre = pieces.deep_view();
            let piece = String::from_str(s.substring_char(start, i));
            pieces.push(piece);
            proof {
                assert(pieces.deep_view() =~= pre.push(s@.subrange(start as int, i as int)));
                assert(pieces.deep_view() + split_from(s@, sep, i + 1, i + 1) =~= split_char_spec(
                    s@,
                    sep,
                ));
            }
            start = i + 1;
        }
        i += 1;
    }
    let ghost pre = pieces.deep_view();
    let last = String::from_str(s.substring_char(start, len));
    pieces.push(last);
    proof {
        assert(pieces.deep_view() =~= pre.push(s@.subrange(start as int, len as int)));
        assert(pieces.deep_view() =~= split_char_spec(s@, sep));
    }
    pieces
}

/// Every split has at least one piece.
proof fn lemma_split_from_nonempty(s: Seq<char>, sep: char, start: int, cur: int)
    ensures
        split_from(s, sep, start, cur).len() >= 1,
    decreases s.len() - cur,
{
    if cur < s.len() && s[cur] != sep {
        lemma_split_from_nonempty(s, sep, start, cur + 1);
    }
}

/// `s` without a single trailing carriage return.
pub open spec fn strip_cr(s: Seq<char>) -> Seq<char> {
    if s.len() > 0 && s.last() == '\r' {
        s.drop_last()
    } else {
        s
    }
}

/// The lines of `s`: pieces split at `'\n'`, each without a trailing
/// `'\r'`, and without the empty piece a trailing newline leaves behind.
pub open spec fn lines_spec(s: Seq<char>) -> Seq<Seq<char>> {
    if s.len() == 0 {
        seq![]
    } else {
        let pieces = split_char_spec(s, '\n');
        let kept = if pieces.last().len() == 0 {
            pieces.drop_last()
        } else {
            pieces
        };
        kept.map_values(|p: Seq<char>| strip_cr(p))
    }
}

/// Splits `s` into lines as `lines_spec` describes.
pub fn split_lines(s: &str) -> (r: Vec<String>)
    ensures
        r.deep_view() == lines_spec(s@),
{
    let mut out: Vec<String> = Vec::new();
    if s.unicode_len() == 0 {
        proof {
            assert(out.deep_view() =~= lines_spec(s@));
        }
        return out;
    }
    let pieces = split_on_char(s, '\n');
    proof {
        lemma_split_from_nonempty(s@, '\n', 0, 0);
    }
    let m = pieces.len();
    let n: usize = if pieces[m - 1].as_str().unicode_len() == 0 {
        m - 1
    } else {
        m
    };
    let ghost target = lines_spec(s@);
    proof {
        assert(target.len() == n);
        assert(forall|j: int|
            0 <= j < n ==> target[j] == strip_cr(#[trigger] pieces.deep_view()[j]));
    }
    let mut i: usize = 0;
    while i < n
        invariant
            n <= m == pieces.len(),
            i <= n,
            target.len() == n,
            forall|j: int| 0 <= j < n ==> target[j] == strip_cr(#[trigger] pieces.deep_view()[j]),
            out.deep_view() == target.take(i as int),
        decreases n - i,
    {
        let ghost pre = out.deep_view();
        let p = pieces[i].as_str();
        let plen = p.unicode_len();
        if plen > 0 && p.get_char(plen - 1) == '\r' {
            out.push(String::from_str(p.substring_char(0, plen - 1)));
            proof {
                assert(p@.subrange(0, plen - 1) =~= strip_cr(pieces.deep_view()[i as int]));
            }
        } else {
            out.push(String::from_str(p));
        }
        proof {
            assert(out.deep_view() =~= pre.push(strip_cr(pieces.deep_view()[i as int])));
            assert(out.deep_view() =~= target.take(i + 1));
        }
        i += 1;
    }
    proof {
        assert(out.deep_view() =~= target);
    }
    out
}

/// The text from position `i` onward with every `'%'`-plus-`mark` pair
/// replaced by `val`.
pub open spec fn replace_from(s: Seq<char>, mark: char, val: Seq<char>, i: int) -> Seq<char>
    recommends
        0 <= i,
    decreases s.len() - i,
{
    if i >= s.len() {
        seq![]
    } else if i + 1 < s.len() && s[i] == '%' && s[i + 1] == mark {
        val + replace_from(s, mark, val, i + 2)
    } else {
        seq![s[i]] + replace_from(s, mark, val, i + 1)
    }
}

/// `s` with every occurrence of `'%'` followed by `mark` replaced by `val`,
/// scanning left to right without overlap.
pub open spec fn replace_marker_spec(s: Seq<char>, mark: char, val: Seq<char>) -> Seq<char> {
    replace_from(s, mark, val, 0)
}

/// Replaces every `'%'`-plus-`mark` pair in `s` with `val`.
pub fn replace_marker(s: &str, mark: char, val: &str) -> (r: String)
    ensures
        r@ == replace_marker_spec(s@, mark, val@),
{
    let len = s.unicode_len();
    let mut out = String::new();
    let mut i: usize = 0;
    while i < len
        invariant
            len == s@.len(),
            i <= len,
            out@ + replace_from(s@, mark, val@, i as int) == replace_marker_spec(s@, mark, val@),
        decreases len - i,
    {
        let ghost pre = out@;
        if i + 1 < len && s.get_char(i) == '%' && s.get_char(i + 1) == mark {
            out.append(val);
            proof {
                assert(out@ + replace_from(s@, mark, val@, i + 2) =~= pre + replace_from(
                    s@,
                    mark,
                    val@,
                    i as int,
                ));
            }
            i += 2;
        } else {
            out.append(s.substring_char(i, i + 1));
            proof {
                assert(s@.subrange(i as int, i + 1) =~= seq![s@[i as int]]);
                assert(out@ + replace_from(s@, mark, val@, i + 1) =~= pre + replace_from(
                    s@,
                    mark,
                    val@,
                    i as int,
                ));
            }
            i += 1;
        }
    }
    proof {
        assert(out@ =~= replace_marker_spec(s@, mark, val@));
    }
    out
}

/// True for the ASCII whitespace characters.
pub open spec fn is_ascii_space(c: char) -> bool {
    c == ' ' || c == '\t' || c == '\n' || c == '\r' || c == '\u{b}' || c == '\u{c}'
}

/// The whitespace-separated tokens of `s` from position `i` onward; when
/// `in_tok` is true, the current token began at `start`.
pub open spec fn split_ws_acc(s: Seq<char>, i: int, start: int, in_tok: bool) -> Seq<Seq<char>>
    recommends
        0 <= start <= i <= s.len(),
    decreases s.len() - i,
{
    if i >= s.len() {
        if in_tok {
            seq![s.subrange(start, s.len() as int)]
        } else {
            seq![]
        }
    } else if is_ascii_space(s[i]) {
        if in_tok {
            seq![s.subrange(start, i)] + split_ws_acc(s, i + 1, i + 1, false)
        } else {
            split_ws_acc(s, i + 1, i + 1, false)
        }
    } else {
        if in_tok {
            split_ws_acc(s, i + 1, start, true)
        } else {
            split_ws_acc(s, i + 1, i, true)
        }
    }
}

/// The maximal runs of non-whitespace characters in `s`, in order.
pub open spec fn split_ws_spec(s: Seq<char>) -> Seq<Seq<char>> {
    split_ws_acc(s, 0, 0, false)
}

/// Splits `s` into whitespace-separated tokens; no token is empty.
pub fn split_whitespace_vec(s: &str) -> (r: Vec<String>)
    ensures
        r.deep_view() == split_ws_spec(s@),
{
    let len = s.unicode_len();
    let mut pieces: Vec<String> = Vec::new();
    let mut start: usize = 0;
    let mut in_tok = false;
    let mut i: usize = 0;
    while i < len
        invariant
            len == s@.len(),
            0 <= start <= i <= len,
            pieces.deep_view() + split_ws_acc(s@, i as int, start as int, in_tok)
                == split_ws_spec(s@),
        decreases len - i,
    {
        let c = s.get_char(i);
        let ws = is_space_char(c);
        if ws {
            if in_tok {
                let ghost pre = pieces.deep_view();
                pieces.push(String::from_str(s.substring_char(start, i)));
                proof {
                    assert(pieces.deep_view() =~= pre.push(s@.subrange(start as int, i as int)));
                    assert(pieces.deep_view() + split_ws_acc(s@, i + 1, i + 1, false)
                        =~= split_ws_spec(s@));
                }
            }
            start = i + 1;
            in_tok = false;
        } else {
            if !in_tok {
                start = i;
            }
            in_tok = true;
        }
        i += 1;
    }
    if in_tok {
        let ghost pre = pieces.deep_view();
        pieces.push(String::from_str(s.substring_char(start, len)));
        proof {
            assert(pieces.deep_view() =~= pre.push(s@.subrange(start as int, len as int)));
        }
    }
    proof {
        assert(pieces.deep_view() =~= split_ws_spec(s@));
    }
    pieces
}

/// The position of the first non-whitespace character at or after `i`.
pub open spec fn first_non_ws(s: Seq<char>, i: int) -> int
    decreases s.len() - i,
{
    if i >= s.len() {
        s.len() as int
    } else if is_ascii_space(s[i]) {
        first_non_ws(s, i + 1)
    } else {
        i
    }
}

/// One past the position of the last non-whitespace character before `j`.
pub open spec fn last_non_ws_end(s: Seq<char>, j: int) -> int
    decreases j,
{
    if j <= 0 {
        0
    } else if is_ascii_space(s[j - 1]) {
        last_non_ws_end(s, j - 1)
    } else {
        j
    }
}

/// `s` without leading and trailing whitespace.
pub open spec fn trim_spec(s: Seq<char>) -> Seq<char> {
    let a = first_non_ws(s, 0);
    let b = last_non_ws_end(s, s.len() as int);
    if a <= b {
        s.subrange(a, b)
    } else {
        seq![]
    }
}

/// Whether `c` is ASCII whitespace.
pub fn is_space_char(c: char) -> (r: bool)
    ensures
        r == is_ascii_space(c),
{
    c == ' ' || c == '\t' || c == '\n' || c == '\r' || c == '\u{b}' || c == '\u{c}'
}

/// Removes leading and trailing whitespace from `s`.
pub fn trim_str<'a>(s: &'a str) -> (r: &'a str)
    ensures
        r@ == trim_spec(s@),
{
    let len = s.unicode_len();
    let mut a: usize = 0;
    while a < len && is_space_char(s.get_char(a))
        invariant
            len == s@.len(),
            a <= len,
            first_non_ws(s@, 0) == first_non_ws(s@, a as int),
        decreases len - a,
    {
        a += 1;
    }
    let mut b: usize = len;
    while b > a && is_space_char(s.get_char(b - 1))
        invariant
            len == s@.len(),
            a <= b <= len,
            first_non_ws(s@, 0) == a as int || (a == len && first_non_ws(s@, 0) == len as int),
            last_non_ws_end(s@, len as int) == last_non_ws_end(s@, b as int),
        decreases b,
    {
        b -= 1;
    }
    let r = s.substring_char(a, b);
    proof {
        if b > a {
            assert(!is_ascii_space(s@[b - 1]));
            assert(last_non_ws_end(s@, b as int) == b as int);
        } else {
            assert(last_non_ws_end(s@, a as int) <= a as int) by {
                lemma_last_non_ws_le(s@, a as int);
            }
        }
        assert(r@ =~= trim_spec(s@));
    }
    r
}

/// `last_non_ws_end` never exceeds its bound.
proof fn lemma_last_non_ws_le(s: Seq<char>, j: int)
    requires
        0 <= j,
    ensures
        last_non_ws_end(s, j) <= j,
    decreases j,
{
    if j > 0 && is_ascii_space(s[j - 1]) {
        lemma_last_non_ws_le(s, j - 1);
    }
}

/// The first position of `c` at or after `i`, or `-1` when absent.
pub open spec fn first_index_of(s: Seq<char>, c: char, i: int) -> int
    decreases s.len() - i,
{
    if i < 0 || i >= s.len() {
        -1
    } else if s[i] == c {
        i
    } else {
        first_index_of(s, c, i + 1)
    }
}

/// The last position of `c` at or before `j`, or `-1` when absent.
pub open spec fn last_index_of(s: Seq<char>, c: char, j: int) -> int
    decreases j + 1,
{
    if j < 0 || j >= s.len() {
        -1
    } else if s[j] == c {
        j
    } else {
        last_index_of(s, c, j - 1)
    }
}

/// The position of the first occurrence of `c` in `s`.
pub fn find_char(s: &str, c: char) -> (r: Option<usize>)
    ensures
        r matches Some(i) ==> first_index_of(s@, c, 0) == i,
        r is None ==> first_index_of(s@, c, 0) == -1,
{
    let len = s.unicode_len();
    let mut i: usize = 0;
    while i < len
        invariant
            i <= len,
            len == s@.len(),
            first_index_of(s@, c, 0) == first_index_of(s@, c, i as int),
        decreases len - i,
    {
        if s.get_char(i) == c {
            return Some(i);
        }
        i += 1;
    }
    None
}

/// The position of the last occurrence of `c` in `s`.
pub fn rfind_char(s: &str, c: char) -> (r: Option<usize>)
    ensures
        r matches Some(i) ==> last_index_of(s@, c, s@.len() - 1) == i,
        r is None ==> last_index_of(s@, c, s@.len() - 1) == -1,
{
    let len = s.unicode_len();
    let mut j: usize = len;
    while j > 0
        invariant
            j <= len,
            len == s@.len(),
            last_index_of(s@, c, len - 1) == last_index_of(s@, c, j - 1),
        decreases j,
    {
        if s.get_char(j - 1) == c {
            return Some(j - 1);
        }
        j -= 1;
    }
    None
}

/// Whether `s` occurs among the strings of `v`.
pub open spec fn has_string(v: Seq<Seq<char>>, s: Seq<char>) -> bool {
    exists|i: int| 0 <= i < v.len() && v[i] == s
}

/// Whether one of the strings in `v` equals `s`.
pub fn strvec_contains(v: &Vec<String>, s: &str) -> (r: bool)
    ensures
        r == has_string(v.deep_view(), s@),
{
    let mut i: usize = 0;
    while i < v.len()
        invariant
            i <= v.len(),
            forall|j: int| 0 <= j < i ==> v.deep_view()[j] != s@,
        decreases v.len() - i,
    {
        if str_eq_str(v[i].as_str(), s) {
            assert(v.deep_view()[i as int] == s@);
            return true;
        }
        i += 1;
    }
    false
}

/// Case-insensitive equality of two characters, for ASCII letters only.
pub open spec fn char_eq_nocase(a: char, b: char) -> bool {
    a == b || ('A' <= a && a <= 'Z' && b as int == a as int + 32) || ('a' <= a && a <= 'z' && a
        as int == b as int + 32)
}

/// ASCII-case-insensitive equality of two strings.
pub open spec fn eq_nocase(a: Seq<char>, b: Seq<char>) -> bool {
    a.len() == b.len() && (forall|i: int| 0 <= i < a.len() ==> char_eq_nocase(a[i], b[i]))
}

/// ASCII-case-insensitive string equality.
pub fn eq_ignore_ascii_case_str(a: &str, b: &str) -> (r: bool)
    ensures
        r == eq_nocase(a@, b@),
{
    let a_len = a.unicode_len();
    let b_len = b.unicode_len();
    if a_len != b_len {
        return false;
    }
    let mut i: usize = 0;
    while i < a_len
        invariant
            i <= a_len,
            a_len == a@.len(),
            b_len == b@.len(),
            a_len == b_len,
            forall|j: int| 0 <= j < i ==> char_eq_nocase(a@[j], b@[j]),
        decreases a_len - i,
    {
        let x = a.get_char(i) as u32;
        let y = b.get_char(i) as u32;
        let same = x == y || (65 <= x && x <= 90 && y == x + 32) || (97 <= x && x <= 122 && x == y
            + 32);
        if !same {
            assert(!char_eq_nocase(a@[i as int], b@[i as int]));
            return false;
        }
        assert(char_eq_nocase(a@[i as int], b@[i as int]));
        i += 1;
    }
    true
}

} // verus!
