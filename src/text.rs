//! Defensive parsing of the short text files that sensor and device
//! directories expose: trimming, integer readings, substring tests.
use vstd::prelude::*;
use vstd::string::*;

verus! {

/// White space as `char::is_whitespace` defines it (the Unicode
/// `White_Space` property).
pub open spec fn is_space(c: char) -> bool {
    let u = c as u32;
    (9 <= u <= 13) || u == 32 || u == 0x85 || u == 0xA0 || u == 0x1680 || (0x2000 <= u <= 0x200A)
        || u == 0x2028 || u == 0x2029 || u == 0x202F || u == 0x205F || u == 0x3000
}

/// First index at or after `i` that does not hold white space.
pub open spec fn skip_spaces(s: Seq<char>, i: int) -> int
    decreases s.len() - i,
{
    if 0 <= i < s.len() && is_space(s[i]) {
        skip_spaces(s, i + 1)
    } else {
        i
    }
}

/// First index at or after `i` that holds white space, or the length.
pub open spec fn skip_word(s: Seq<char>, i: int) -> int
    decreases s.len() - i,
{
    if 0 <= i < s.len() && !is_space(s[i]) {
        skip_word(s, i + 1)
    } else {
        i
    }
}

/// End of `s` once the white space before `j` is dropped.
pub open spec fn back_skip_spaces(s: Seq<char>, j: int) -> int
    decreases j,
{
    if 0 < j <= s.len() && is_space(s[j - 1]) {
        back_skip_spaces(s, j - 1)
    } else {
        j
    }
}

/// `s` without leading and trailing white space.
pub open spec fn trim(s: Seq<char>) -> Seq<char> {
    let a = skip_spaces(s, 0);
    let b = back_skip_spaces(s, s.len() as int);
    if a < b {
        s.subrange(a, b)
    } else {
        Seq::empty()
    }
}

pub open spec fn is_digit(c: char) -> bool {
    48 <= (c as u32) <= 57
}

pub open spec fn all_digits(s: Seq<char>) -> bool {
    forall|i: int| 0 <= i < s.len() ==> is_digit(#[trigger] s[i])
}

/// Value of a string of decimal digits.
pub open spec fn digits_value(s: Seq<char>) -> int
    decreases s.len(),
{
    if s.len() == 0 {
        0
    } else {
        digits_value(s.drop_last()) * 10 + (s.last() as u32 - 48)
    }
}

/// Magnitude of a number written as an optional sign followed by at least
/// one decimal digit; `neg_ok` says whether a `-` sign is allowed.
pub open spec fn magnitude_text(s: Seq<char>, neg_ok: bool) -> Option<(bool, int)> {
    let signed = s.len() > 0 && (s[0] == '+' || (neg_ok && s[0] == '-'));
    let d = if signed {
        s.drop_first()
    } else {
        s
    };
    if d.len() > 0 && all_digits(d) {
        Some((signed && s[0] == '-', digits_value(d)))
    } else {
        None
    }
}

/// What `u32::from_str` reads from `s`.
pub open spec fn u32_text(s: Seq<char>) -> Option<u32> {
    match magnitude_text(s, false) {
        Some((_, n)) => if n <= u32::MAX {
            Some(n as u32)
        } else {
            None
        },
        None => None,
    }
}

/// What `i64::from_str` reads from `s`.
pub open spec fn i64_text(s: Seq<char>) -> Option<i64> {
    match magnitude_text(s, true) {
        Some((neg, n)) => if neg && n <= 0x8000_0000_0000_0000 {
            Some((-n) as i64)
        } else if !neg && n <= i64::MAX {
            Some(n as i64)
        } else {
            None
        },
        None => None,
    }
}

/// `t` occurs in `s`.
pub open spec fn contains(s: Seq<char>, t: Seq<char>) -> bool {
    exists|i: int| 0 <= i && i + t.len() <= s.len() && #[trigger] s.subrange(i, i + t.len()) == t
}

pub fn is_space_char(c: char) -> (r: bool)
    ensures
        r == is_space(c),
{
    let u = c as u32;
    (9 <= u && u <= 13) || u == 32 || u == 0x85 || u == 0xA0 || u == 0x1680 || (0x2000 <= u && u
        <= 0x200A) || u == 0x2028 || u == 0x2029 || u == 0x202F || u == 0x205F || u == 0x3000
}

/// The characters of `s`, one per element.
pub fn chars_of(s: &str) -> (r: Vec<char>)
    ensures
        r@ == s@,
{
    let n = s.unicode_len();
    let mut r: Vec<char> = Vec::new();
    let mut i: usize = 0;
    while i < n
        invariant
            n == s@.len(),
            i <= n,
            r@ == s@.subrange(0, i as int),
        decreases n - i,
    {
        r.push(s.get_char(i));
        i = i + 1;
    }
    assert(r@ =~= s@);
    r
}

pub fn skip_spaces_from(v: &Vec<char>, i: usize) -> (r: usize)
    requires
        i <= v@.len(),
    ensures
        r == skip_spaces(v@, i as int),
        i <= r <= v@.len(),
{
    let mut k = i;
    while k < v.len() && is_space_char(v[k])
        invariant
            i <= k <= v@.len(),
            skip_spaces(v@, k as int) == skip_spaces(v@, i as int),
        decreases v@.len() - k,
    {
        k = k + 1;
    }
    k
}

pub fn skip_word_from(v: &Vec<char>, i: usize) -> (r: usize)
    requires
        i <= v@.len(),
    ensures
        r == skip_word(v@, i as int),
        i <= r <= v@.len(),
{
    let mut k = i;
    while k < v.len() && !is_space_char(v[k])
        invariant
            i <= k <= v@.len(),
            skip_word(v@, k as int) == skip_word(v@, i as int),
        decreases v@.len() - k,
    {
        k = k + 1;
    }
    k
}

pub fn back_skip_spaces_from(v: &Vec<char>, j: usize) -> (r: usize)
    requires
        j <= v@.len(),
    ensures
        r == back_skip_spaces(v@, j as int),
        r <= j,
{
    let mut k = j;
    while k > 0 && is_space_char(v[k - 1])
        invariant
            k <= j <= v@.len(),
            back_skip_spaces(v@, k as int) == back_skip_spaces(v@, j as int),
        decreases k,
    {
        k = k - 1;
    }
    k
}

/// The elements of `v` from `a` up to `b`.
pub fn slice_chars(v: &Vec<char>, a: usize, b: usize) -> (r: Vec<char>)
    requires
        a <= b <= v@.len(),
    ensures
        r@ == v@.subrange(a as int, b as int),
{
    let mut r: Vec<char> = Vec::new();
    let mut k = a;
    while k < b
        invariant
            a <= k <= b <= v@.len(),
            r@ == v@.subrange(a as int, k as int),
        decreases b - k,
    {
        r.push(v[k]);
        k = k + 1;
        assert(r@ =~= v@.subrange(a as int, k as int));
    }
    r
}

/// `v` without leading and trailing white space.
pub fn trim_chars(v: &Vec<char>) -> (r: Vec<char>)
    ensures
        r@ == trim(v@),
{
    let a = skip_spaces_from(v, 0);
    let b = back_skip_spaces_from(v, v.len());
    if a < b {
        slice_chars(v, a, b)
    } else {
        assert(Seq::<char>::empty() =~= trim(v@));
        Vec::new()
    }
}

/// `s` without leading and trailing white space, as an owned string.
pub fn trimmed_string(s: &str) -> (r: String)
    ensures
        r@ == trim(s@),
{
    let v = chars_of(s);
    let a = skip_spaces_from(&v, 0);
    let b = back_skip_spaces_from(&v, v.len());
    if a < b {
        String::from_str(s.substring_char(a, b))
    } else {
        let e = String::new();
        assert(e@ =~= trim(s@));
        e
    }
}

pub open spec fn capped(n: int, cap: int) -> int {
    if n > cap {
        cap
    } else {
        n
    }
}

proof fn lemma_capped_step(x: int, d: int, cap: int)
    requires
        x >= 0,
        0 <= d <= 9,
        cap >= 0,
    ensures
        capped(capped(x, cap) * 10 + d, cap) == capped(x * 10 + d, cap),
{
    if x > cap {
        assert(x * 10 + d > cap) by (nonlinear_arith)
            requires
                x > cap,
                cap >= 0,
                d >= 0,
        ;
        assert(cap * 10 + d >= cap) by (nonlinear_arith)
            requires
                cap >= 0,
                d >= 0,
        ;
    }
}

/// Reads an optional sign and decimal digits filling all of `v`: the sign,
/// and the magnitude capped at `cap`.
fn read_magnitude(v: &Vec<char>, neg_ok: bool, cap: u128) -> (r: Option<(bool, u128)>)
    requires
        cap <= 0x1_0000_0000_0000_0000,
    ensures
        r is Some <==> magnitude_text(v@, neg_ok) is Some,
        match (r, magnitude_text(v@, neg_ok)) {
            (Some(x), Some(y)) => x.0 == y.0 && x.1 == capped(y.1, cap as int),
            _ => true,
        },
{
    let n = v.len();
    let signed = n > 0 && (v[0] == '+' || (neg_ok && v[0] == '-'));
    let st: usize = if signed {
        1
    } else {
        0
    };
    let ghost d = if signed {
        v@.drop_first()
    } else {
        v@
    };
    assert(d =~= v@.subrange(st as int, n as int));
    if st == n {
        return None;
    }
    let mut k = st;
    let mut acc: u128 = 0;
    while k < n
        invariant
            st <= k <= n,
            n == v@.len(),
            d == v@.subrange(st as int, n as int),
            signed == (v@.len() > 0 && (v@[0] == '+' || (neg_ok && v@[0] == '-'))),
            d == (if signed {
                v@.drop_first()
            } else {
                v@
            }),
            st < n,
            cap <= 0x1_0000_0000_0000_0000,
            all_digits(v@.subrange(st as int, k as int)),
            acc == capped(digits_value(v@.subrange(st as int, k as int)), cap as int),
            digits_value(v@.subrange(st as int, k as int)) >= 0,
        decreases n - k,
    {
        let c = v[k];
        let u = c as u32;
        if !(48 <= u && u <= 57) {
            assert(d[k - st] == c);
            assert(!is_digit(d[k - st]));
            return None;
        }
        let dig: u128 = (u - 48) as u128;
        let ghost prev = v@.subrange(st as int, k as int);
        let ghost next = v@.subrange(st as int, k + 1);
        assert(next.drop_last() =~= prev);
        assert(next.last() == c);
        proof {
            lemma_capped_step(digits_value(prev), dig as int, cap as int);
        }
        let step: u128 = acc * 10 + dig;
        acc = if step > cap {
            cap
        } else {
            step
        };
        k = k + 1;
        assert(all_digits(next)) by {
            assert forall|i: int| 0 <= i < next.len() implies is_digit(#[trigger] next[i]) by {
                if i < prev.len() {
                    assert(next[i] == prev[i]);
                }
            }
        }
    }
    Some((signed && v[0] == '-', acc))
}

/// What `u32::from_str` returns on `v`.
pub fn parse_u32_chars(v: &Vec<char>) -> (r: Option<u32>)
    ensures
        r == u32_text(v@),
{
    let m = read_magnitude(v, false, 0x1_0000_0000);
    match m {
        None => None,
        Some((_, m)) => if m > 0xFFFF_FFFF {
            None
        } else {
            Some(m as u32)
        },
    }
}

/// What `i64::from_str` returns on `v`.
pub fn parse_i64_chars(v: &Vec<char>) -> (r: Option<i64>)
    ensures
        r == i64_text(v@),
{
    let m = read_magnitude(v, true, 0x8000_0000_0000_0001);
    match m {
        None => None,
        Some((neg, m)) => if neg {
            if m == 0x8000_0000_0000_0000 {
                Some(i64::MIN)
            } else if m < 0x8000_0000_0000_0000 {
                Some(-(m as i64))
            } else {
                None
            }
        } else if m <= 0x7FFF_FFFF_FFFF_FFFF {
            Some(m as i64)
        } else {
            None
        },
    }
}

/// The unsigned reading in a file's text, surrounding white space ignored.
pub fn read_u32(text: &str) -> (r: Option<u32>)
    ensures
        r == u32_text(trim(text@)),
{
    let v = chars_of(text);
    parse_u32_chars(&trim_chars(&v))
}

/// The signed reading in a file's text, surrounding white space ignored.
pub fn read_i64(text: &str) -> (r: Option<i64>)
    ensures
        r == i64_text(trim(text@)),
{
    let v = chars_of(text);
    parse_i64_chars(&trim_chars(&v))
}

/// `v` holds `t` starting at `i`.
fn occurs_at(v: &Vec<char>, t: &Vec<char>, i: usize) -> (r: bool)
    requires
        i + t@.len() <= v@.len(),
    ensures
        r == (v@.subrange(i as int, i + t@.len()) == t@),
{
    let n = v.len();
    let mut j: usize = 0;
    while j < t.len()
        invariant
            n == v@.len(),
            i + t@.len() <= v@.len(),
            j <= t@.len(),
            v@.subrange(i as int, i + j) == t@.subrange(0, j as int),
        decreases t@.len() - j,
    {
        if v[i + j] != t[j] {
            assert(v@.subrange(i as int, i + t@.len())[j as int] != t@[j as int]);
            return false;
        }
        j = j + 1;
        assert(v@.subrange(i as int, i + j) =~= t@.subrange(0, j as int));
    }
    assert(v@.subrange(i as int, i + t@.len()) =~= t@);
    true
}

/// Whether `t` occurs in `v`.
pub fn contains_chars(v: &Vec<char>, t: &Vec<char>) -> (r: bool)
    ensures
        r == contains(v@, t@),
{
    if t.len() > v.len() {
        return false;
    }
    let last = v.len() - t.len();
    let mut i: usize = 0;
    loop
        invariant
            last + t@.len() == v@.len(),
            i <= last,
            forall|k: int| 0 <= k < i ==> #[trigger] v@.subrange(k, k + t@.len()) != t@,
        decreases last - i,
    {
        if occurs_at(v, t, i) {
            return true;
        }
        if i == last {
            return false;
        }
        i = i + 1;
    }
}

/// Whether `c` occurs in `v`.
pub fn has_char(v: &Vec<char>, c: char) -> (r: bool)
    ensures
        r == v@.contains(c),
{
    let mut i: usize = 0;
    while i < v.len()
        invariant
            forall|k: int| 0 <= k < i ==> v@[k] != c,
        decreases v@.len() - i,
    {
        if v[i] == c {
            return true;
        }
        i = i + 1;
    }
    false
}

pub open spec fn is_ascii_letter(c: char) -> bool {
    (65 <= (c as u32) <= 90) || (97 <= (c as u32) <= 122)
}

/// End of `s` once the ASCII letters before `j` are dropped.
pub open spec fn back_skip_letters(s: Seq<char>, j: int) -> int
    decreases j,
{
    if 0 < j <= s.len() && is_ascii_letter(s[j - 1]) {
        back_skip_letters(s, j - 1)
    } else {
        j
    }
}

/// The second white-space separated token of a line, if it has one.
pub open spec fn second_token(line: Seq<char>) -> Option<Seq<char>> {
    let a = skip_spaces(line, 0);
    let b = skip_word(line, a);
    let c = skip_spaces(line, b);
    if c < line.len() {
        Some(line.subrange(c, skip_word(line, c)))
    } else {
        None
    }
}

/// The frequency on one line of a clock table: the line is marked active
/// by a `*`, and its second token is a number with an optional unit suffix
/// of ASCII letters (`1800Mhz`).
pub open spec fn active_line_clock(line: Seq<char>) -> Option<u32> {
    if line.contains('*') {
        match second_token(line) {
            Some(t) => u32_text(t.subrange(0, back_skip_letters(t, t.len() as int))),
            None => None,
        }
    } else {
        None
    }
}

/// Index of the line break that ends the line starting at `i`, or the length.
pub open spec fn line_end(s: Seq<char>, i: int) -> int
    decreases s.len() - i,
{
    if 0 <= i < s.len() && s[i] != '\n' {
        line_end(s, i + 1)
    } else {
        i
    }
}

/// The frequency of the first active line of a clock table, from the line
/// that starts at `i` on.
pub open spec fn active_clock_from(s: Seq<char>, i: int) -> Option<u32>
    decreases s.len() - i,
{
    if i < 0 || i > s.len() {
        None
    } else {
        let e = line_end(s, i);
        match active_line_clock(s.subrange(i, e)) {
            Some(f) => Some(f),
            None => if i <= e < s.len() {
                active_clock_from(s, e + 1)
            } else {
                None
            },
        }
    }
}

/// The frequency of the first line of a clock table that is marked active
/// and reads as a number.
pub open spec fn active_clock(s: Seq<char>) -> Option<u32> {
    active_clock_from(s, 0)
}

fn back_skip_letters_from(v: &Vec<char>, j: usize) -> (r: usize)
    requires
        j <= v@.len(),
    ensures
        r == back_skip_letters(v@, j as int),
        r <= j,
{
    let mut k = j;
    while k > 0 && ((65 <= v[k - 1] as u32 && v[k - 1] as u32 <= 90) || (97 <= v[k - 1] as u32
        && v[k - 1] as u32 <= 122))
        invariant
            k <= j <= v@.len(),
            back_skip_letters(v@, k as int) == back_skip_letters(v@, j as int),
        decreases k,
    {
        k = k - 1;
    }
    k
}

fn line_end_from(v: &Vec<char>, i: usize) -> (r: usize)
    requires
        i <= v@.len(),
    ensures
        r == line_end(v@, i as int),
        i <= r <= v@.len(),
{
    let mut k = i;
    while k < v.len() && v[k] != '\n'
        invariant
            i <= k <= v@.len(),
            line_end(v@, k as int) == line_end(v@, i as int),
        decreases v@.len() - k,
    {
        k = k + 1;
    }
    k
}

/// The frequency on one line of a clock table, if it is the active one.
pub fn line_clock(line: &Vec<char>) -> (r: Option<u32>)
    ensures
        r == active_line_clock(line@),
{
    if !has_char(line, '*') {
        return None;
    }
    let a = skip_spaces_from(line, 0);
    let b = skip_word_from(line, a);
    let c = skip_spaces_from(line, b);
    if c >= line.len() {
        return None;
    }
    let d = skip_word_from(line, c);
    let token = slice_chars(line, c, d);
    let end = back_skip_letters_from(&token, token.len());
    parse_u32_chars(&slice_chars(&token, 0, end))
}

/// The frequency of the active line of a clock table such as a GPU's
/// `pp_dpm_sclk` (`1: 1800Mhz *`).
pub fn active_clock_mhz(text: &str) -> (r: Option<u32>)
    ensures
        r == active_clock(text@),
{
    let v = chars_of(text);
    let n = v.len();
    let mut i: usize = 0;
    while i <= n
        invariant
            n == v@.len(),
            v@ == text@,
            i <= n + 1,
            active_clock_from(v@, i as int) == active_clock(v@),
        decreases n + 1 - i,
    {
        let e = line_end_from(&v, i);
        let line = slice_chars(&v, i, e);
        let f = line_clock(&line);
        if f.is_some() {
            return f;
        }
        if e >= n {
            return None;
        }
        i = e + 1;
    }
    None
}
} // verus!
