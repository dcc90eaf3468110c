//! Text helpers with exact specifications: string equality, Unicode
//! whitespace trimming, splitting, and decimal number parsing.

use vstd::prelude::*;
use vstd::string::*;

verus! {

/// The Unicode `White_Space` property, as `char::is_whitespace` uses it.
pub open spec fn is_white_space(c: char) -> bool {
    let u = c as u32;
    ||| 9 <= u <= 13
    ||| u == 32
    ||| u == 0x85
    ||| u == 0xa0
    ||| u == 0x1680
    ||| 0x2000 <= u <= 0x200a
    ||| u == 0x2028
    ||| u == 0x2029
    ||| u == 0x202f
    ||| u == 0x205f
    ||| u == 0x3000
}

/// Whether `c` is a Unicode whitespace character.
pub fn is_whitespace_char(c: char) -> (r: bool)
    ensures
        r == is_white_space(c),
{
    let u = c as u32;
    (9 <= u && u <= 13) || u == 32 || u == 0x85 || u == 0xa0 || u == 0x1680 || (0x2000 <= u && u
        <= 0x200a) || u == 0x2028 || u == 0x2029 || u == 0x202f || u == 0x205f || u == 0x3000
}

/// The text with leading whitespace removed.
pub open spec fn trim_start(s: Seq<char>) -> Seq<char>
    decreases s.len(),
{
    if s.len() > 0 && is_white_space(s[0]) {
        trim_start(s.drop_first())
    } else {
        s
    }
}

/// The text with trailing whitespace removed.
pub open spec fn trim_end(s: Seq<char>) -> Seq<char>
    decreases s.len(),
{
    if s.len() > 0 && is_white_space(s.last()) {
        trim_end(s.drop_last())
    } else {
        s
    }
}

/// The text with leading and trailing whitespace removed, as `str::trim` does.
pub open spec fn trim(s: Seq<char>) -> Seq<char> {
    trim_end(trim_start(s))
}

/// Whether two strings hold the same characters.
pub fn str_eq(a: &str, b: &str) -> (r: bool)
    ensures
        r == (a@ == b@),
{
    let n = a.unicode_len();
    let m = b.unicode_len();
    if n != m {
        return false;
    }
    let mut i: usize = 0;
    while i < n
        invariant
            n == a@.len(),
            m == b@.len(),
            n == m,
            i <= n,
            forall|k: int| 0 <= k < i ==> a@[k] == b@[k],
        decreases n - i,
    {
        if a.get_char(i) != b.get_char(i) {
            return false;
        }
        i = i + 1;
    }
    assert(a@ =~= b@);
    true
}

/// A fresh `String` holding the characters of `s`.
pub fn to_string(s: &str) -> (r: String)
    ensures
        r@ == s@,
{
    String::from_str(s)
}

/// `s` with leading and trailing whitespace removed.
pub fn trim_str(s: &str) -> (r: String)
    ensures
        r@ == trim(s@),
{
    let n = s.unicode_len();
    let mut i: usize = 0;
    assert(s@.subrange(0, n as int) =~= s@);
    while i < n && is_whitespace_char(s.get_char(i))
        invariant
            n == s@.len(),
            i <= n,
            trim_start(s@) == trim_start(s@.subrange(i as int, n as int)),
        decreases n - i,
    {
        assert(s@.subrange(i as int, n as int).drop_first() =~= s@.subrange(i + 1, n as int));
        i = i + 1;
    }
    assert(trim_start(s@) == s@.subrange(i as int, n as int));
    let mut j: usize = n;
    while j > i && is_whitespace_char(s.get_char(j - 1))
        invariant
            n == s@.len(),
            i <= j <= n,
            trim(s@) == trim_end(s@.subrange(i as int, j as int)),
        decreases j,
    {
        assert(s@.subrange(i as int, j as int).drop_last() =~= s@.subrange(i as int, j - 1));
        j = j - 1;
    }
    String::from_str(s.substring_char(i, j))
}

/// The texts of `parts` joined with `sep` between each two.
pub open spec fn seq_join(parts: Seq<Seq<char>>, sep: Seq<char>) -> Seq<char>
    decreases parts.len(),
{
    if parts.len() == 0 {
        Seq::empty()
    } else if parts.len() == 1 {
        parts[0]
    } else {
        seq_join(parts.drop_last(), sep) + sep + parts.last()
    }
}

/// The strings of `parts` joined with `sep`, as `[String]::join` does.
pub fn join_with(parts: &Vec<String>, sep: &str) -> (r: String)
    ensures
        r@ == seq_join(parts@.map_values(|s: String| s@), sep@),
{
    let ghost pv = parts@.map_values(|s: String| s@);
    let mut r = String::new();
    let mut i: usize = 0;
    assert(pv.take(0) =~= Seq::<Seq<char>>::empty());
    while i < parts.len()
        invariant
            pv == parts@.map_values(|s: String| s@),
            i <= parts@.len(),
            r@ == seq_join(pv.take(i as int), sep@),
        decreases parts@.len() - i,
    {
        assert(pv.take(i + 1).drop_last() =~= pv.take(i as int));
        assert(pv.take(i + 1).last() == parts@[i as int]@);
        if i != 0 {
            r.append(sep);
        } else {
            assert(r@ =~= Seq::<char>::empty());
        }
        r.append(parts[i].as_str());
        i = i + 1;
    }
    assert(pv.take(parts@.len() as int) =~= pv);
    r
}

/// `a` and `b` joined.
pub fn join2(a: &str, b: &str) -> (r: String)
    ensures
        r@ == a@ + b@,
{
    let mut r = String::from_str(a);
    r.append(b);
    r
}

/// `pre`, `x` and `post` joined.
pub fn join3(pre: &str, x: &str, post: &str) -> (r: String)
    ensures
        r@ == pre@ + x@ + post@,
{
    let mut r = String::from_str(pre);
    r.append(x);
    r.append(post);
    r
}

/// `a`, `x`, `b`, `y` and `c` joined.
pub fn join5(a: &str, x: &str, b: &str, y: &str, c: &str) -> (r: String)
    ensures
        r@ == a@ + x@ + b@ + y@ + c@,
{
    let mut r = String::from_str(a);
    r.append(x);
    r.append(b);
    r.append(y);
    r.append(c);
    r
}

/// What `str::to_lowercase` returns for a text.
pub uninterp spec fn str_to_lowercase(s: Seq<char>) -> Seq<char>;

/// Calls `str::to_lowercase`; its result, the Unicode lowercase mapping of
/// every character, is named by `str_to_lowercase`.
#[verifier::external_body]
pub(crate) fn to_lowercase(s: &str) -> (r: String)
    ensures
        r@ == str_to_lowercase(s@),
{
    s.to_lowercase()
}

/// Why a text is not an unsigned decimal number, as `ParseIntError` tells.
#[derive(Debug, Clone, Copy, PartialEq, Eq, Structural)]
pub enum IntErrorKind {
    Empty,
    InvalidDigit,
    PosOverflow,
}

pub open spec fn is_ascii_digit(c: char) -> bool {
    48 <= (c as u32) <= 57
}

pub open spec fn digit_value(c: char) -> int {
    (c as u32) - 48
}

/// The digits of `ds` from index `i` on, read into `acc`, as `from_str`
/// reads them: the first non-digit is an invalid digit, and a value above
/// `max` an overflow, whichever comes first.
pub open spec fn dec_fold(ds: Seq<char>, i: int, acc: int, max: int) -> Result<int, IntErrorKind>
    decreases ds.len() - i,
{
    if i < 0 || i >= ds.len() {
        Ok(acc)
    } else if !is_ascii_digit(ds[i]) {
        Err(IntErrorKind::InvalidDigit)
    } else if acc * 10 + digit_value(ds[i]) > max {
        Err(IntErrorKind::PosOverflow)
    } else {
        dec_fold(ds, i + 1, acc * 10 + digit_value(ds[i]), max)
    }
}

/// What `from_str` of an unsigned integer type whose largest value is `max`
/// makes of `s`: an optional `+`, then decimal digits.
pub open spec fn parse_unsigned(s: Seq<char>, max: int) -> Result<int, IntErrorKind> {
    if s.len() == 0 {
        Err(IntErrorKind::Empty)
    } else if (s[0] == '+' || s[0] == '-') && s.len() == 1 {
        Err(IntErrorKind::InvalidDigit)
    } else if s[0] == '+' {
        dec_fold(s, 1, 0, max)
    } else {
        dec_fold(s, 0, 0, max)
    }
}

/// The `Display` text of a `ParseIntError` of each kind.
pub open spec fn int_error_text(k: IntErrorKind) -> Seq<char> {
    match k {
        IntErrorKind::Empty => "cannot parse integer from empty string"@,
        IntErrorKind::InvalidDigit => "invalid digit found in string"@,
        IntErrorKind::PosOverflow => "number too large to fit in target type"@,
    }
}

/// The `Display` text of a `ParseIntError` of kind `k`.
pub fn int_error_message(k: IntErrorKind) -> (r: &'static str)
    ensures
        r@ == int_error_text(k),
{
    match k {
        IntErrorKind::Empty => "cannot parse integer from empty string",
        IntErrorKind::InvalidDigit => "invalid digit found in string",
        IntErrorKind::PosOverflow => "number too large to fit in target type",
    }
}

/// Parses `s` as an unsigned decimal number no larger than `max`.
pub fn parse_decimal(s: &str, max: u64) -> (r: Result<u64, IntErrorKind>)
    ensures
        match r {
            Ok(v) => parse_unsigned(s@, max as int) == Ok::<int, IntErrorKind>(v as int),
            Err(k) => parse_unsigned(s@, max as int) == Err::<int, IntErrorKind>(k),
        },
{
    let n = s.unicode_len();
    if n == 0 {
        return Err(IntErrorKind::Empty);
    }
    let c0 = s.get_char(0);
    if (c0 == '+' || c0 == '-') && n == 1 {
        return Err(IntErrorKind::InvalidDigit);
    }
    let mut i: usize = if c0 == '+' {
        1
    } else {
        0
    };
    let ghost start = i as int;
    assert(parse_unsigned(s@, max as int) == dec_fold(s@, start, 0, max as int));
    let mut acc: u64 = 0;
    while i < n
        invariant
            n == s@.len(),
            parse_unsigned(s@, max as int) == dec_fold(s@, start, 0, max as int),
            start <= i <= n,
            acc <= max,
            dec_fold(s@, start, 0, max as int) == dec_fold(s@, i as int, acc as int, max as int),
        decreases n - i,
    {
        let c = s.get_char(i);
        let u = c as u32;
        if u < 48 || u > 57 {
            return Err(IntErrorKind::InvalidDigit);
        }
        let d = (u - 48) as u64;
        let next: u128 = (acc as u128) * 10 + (d as u128);
        if next > (max as u128) {
            return Err(IntErrorKind::PosOverflow);
        }
        acc = next as u64;
        i = i + 1;
    }
    Ok(acc)
}

/// The decimal digit character for `d` in `0..10`.
pub open spec fn digit_char(d: int) -> char {
    if d == 0 { '0' } else if d == 1 { '1' } else if d == 2 { '2' } else if d == 3 { '3' }
    else if d == 4 { '4' } else if d == 5 { '5' } else if d == 6 { '6' } else if d == 7 { '7' }
    else if d == 8 { '8' } else { '9' }
}

/// The decimal text of `n`, without sign or leading zeros, as `Display` writes it.
pub open spec fn dec_text(n: nat) -> Seq<char>
    decreases n,
{
    if n < 10 {
        seq![digit_char(n as int)]
    } else {
        dec_text(n / 10) + seq![digit_char((n % 10) as int)]
    }
}

fn digit_str(d: u64) -> (r: &'static str)
    requires
        d < 10,
    ensures
        r@ == seq![digit_char(d as int)],
{
    proof {
        reveal_strlit("0");
        reveal_strlit("1");
        reveal_strlit("2");
        reveal_strlit("3");
        reveal_strlit("4");
        reveal_strlit("5");
        reveal_strlit("6");
        reveal_strlit("7");
        reveal_strlit("8");
        reveal_strlit("9");
    }
    let r = if d == 0 { "0" } else if d == 1 { "1" } else if d == 2 { "2" } else if d == 3 { "3" }
    else if d == 4 { "4" } else if d == 5 { "5" } else if d == 6 { "6" } else if d == 7 { "7" }
    else if d == 8 { "8" } else { "9" };
    assert(r@ =~= seq![digit_char(d as int)]);
    r
}

/// The decimal text of `n`.
pub fn decimal_text(n: u64) -> (r: String)
    ensures
        r@ == dec_text(n as nat),
    decreases n,
{
    if n < 10 {
        to_string(digit_str(n))
    } else {
        let mut r = decimal_text(n / 10);
        r.append(digit_str(n % 10));
        r
    }
}

/// A line as `str::lines` yields it: a `\r` just before its `\n` is not part of it.
pub open spec fn strip_cr(line: Seq<char>) -> Seq<char> {
    if line.len() > 0 && line.last() == '\r' {
        line.drop_last()
    } else {
        line
    }
}

/// The lines of `s` from index `i` on, where `cur` holds the part of the
/// current line before `i`.
pub open spec fn lines_scan(s: Seq<char>, i: int, cur: Seq<char>) -> Seq<Seq<char>>
    decreases s.len() - i,
{
    if i < 0 || i >= s.len() {
        if cur.len() > 0 {
            seq![cur]
        } else {
            Seq::empty()
        }
    } else if s[i] == '\n' {
        seq![strip_cr(cur)] + lines_scan(s, i + 1, Seq::empty())
    } else {
        lines_scan(s, i + 1, cur.push(s[i]))
    }
}

/// The lines of `s`, as `str::lines` splits it: at each `\n` (and a `\r`
/// before it), with no empty line after a final `\n`.
pub open spec fn lines_of(s: Seq<char>) -> Seq<Seq<char>> {
    lines_scan(s, 0, Seq::empty())
}

/// The lines of `s`.
pub fn split_lines(s: &str) -> (r: Vec<String>)
    ensures
        r@.map_values(|x: String| x@) == lines_of(s@),
{
    let ghost t = s@;
    let n = s.unicode_len();
    let mut out: Vec<String> = Vec::new();
    let mut start: usize = 0;
    let mut i: usize = 0;
    assert(t.subrange(0, 0) =~= Seq::<char>::empty());
    assert(out@.map_values(|x: String| x@) =~= Seq::<Seq<char>>::empty());
    assert(out@.map_values(|x: String| x@) + lines_scan(t, 0, t.subrange(0, 0)) =~= lines_of(t));
    while i < n
        invariant
            t == s@,
            n == t.len(),
            start <= i <= n,
            lines_of(t) == out@.map_values(|x: String| x@) + lines_scan(t, i as int, t.subrange(start as int, i as int)),
        decreases n - i,
    {
        if s.get_char(i) == '\n' {
            let ghost before = out@.map_values(|x: String| x@);
            let ghost cur = t.subrange(start as int, i as int);
            let end: usize = if i > start && s.get_char(i - 1) == '\r' { i - 1 } else { i };
            out.push(String::from_str(s.substring_char(start, end)));
            assert(t.subrange(start as int, end as int) =~= strip_cr(cur));
            assert(out@.map_values(|x: String| x@) =~= before + seq![strip_cr(cur)]);
            assert(t.subrange(i + 1, i + 1) =~= Seq::<char>::empty());
            start = i + 1;
        } else {
            assert(t.subrange(start as int, i as int).push(t[i as int]) =~= t.subrange(start as int, i + 1));
        }
        i = i + 1;
    }
    if start < n {
        let ghost before = out@.map_values(|x: String| x@);
        out.push(String::from_str(s.substring_char(start, n)));
        assert(out@.map_values(|x: String| x@) =~= before + seq![t.subrange(start as int, n as int)]);
    } else {
        assert(out@.map_values(|x: String| x@) + Seq::<Seq<char>>::empty() =~= out@.map_values(|x: String| x@));
    }
    out
}

/// The words of `s` from index `i` on, where `cur` holds the part of the
/// current word before `i`.
pub open spec fn words_scan(s: Seq<char>, i: int, cur: Seq<char>) -> Seq<Seq<char>>
    decreases s.len() - i,
{
    let here: Seq<Seq<char>> = if cur.len() > 0 { seq![cur] } else { Seq::empty() };
    if i < 0 || i >= s.len() {
        here
    } else if is_white_space(s[i]) {
        here + words_scan(s, i + 1, Seq::empty())
    } else {
        words_scan(s, i + 1, cur.push(s[i]))
    }
}

/// The words of `s`, as `str::split_whitespace` finds them: the non-empty
/// runs of characters between whitespace.
pub open spec fn words_of(s: Seq<char>) -> Seq<Seq<char>> {
    words_scan(s, 0, Seq::empty())
}

/// The words of `s`.
pub fn split_words(s: &str) -> (r: Vec<String>)
    ensures
        r@.map_values(|x: String| x@) == words_of(s@),
{
    let ghost t = s@;
    let n = s.unicode_len();
    let mut out: Vec<String> = Vec::new();
    let mut start: usize = 0;
    let mut i: usize = 0;
    assert(t.subrange(0, 0) =~= Seq::<char>::empty());
    assert(out@.map_values(|x: String| x@) =~= Seq::<Seq<char>>::empty());
    assert(out@.map_values(|x: String| x@) + words_scan(t, 0, t.subrange(0, 0)) =~= words_of(t));
    while i < n
        invariant
            t == s@,
            n == t.len(),
            start <= i <= n,
            words_of(t) == out@.map_values(|x: String| x@) + words_scan(t, i as int, t.subrange(start as int, i as int)),
        decreases n - i,
    {
        if is_whitespace_char(s.get_char(i)) {
            let ghost before = out@.map_values(|x: String| x@);
            if start < i {
                out.push(String::from_str(s.substring_char(start, i)));
                assert(out@.map_values(|x: String| x@) =~= before + seq![t.subrange(start as int, i as int)]);
            } else {
                assert(before + Seq::<Seq<char>>::empty() =~= before);
            }
            assert(t.subrange(i + 1, i + 1) =~= Seq::<char>::empty());
            start = i + 1;
        } else {
            assert(t.subrange(start as int, i as int).push(t[i as int]) =~= t.subrange(start as int, i + 1));
        }
        i = i + 1;
    }
    if start < n {
        let ghost before = out@.map_values(|x: String| x@);
        out.push(String::from_str(s.substring_char(start, n)));
        assert(out@.map_values(|x: String| x@) =~= before + seq![t.subrange(start as int, n as int)]);
    } else {
        assert(out@.map_values(|x: String| x@) + Seq::<Seq<char>>::empty() =~= out@.map_values(|x: String| x@));
    }
    out
}

} // verus!
