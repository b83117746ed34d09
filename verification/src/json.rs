//! A verified parser for the JSON tokens used by the change-feed payloads.
//!
//! Every executable function returns exactly what its spec-level counterpart
//! (the `spec_parse_*` functions, which state the accepted grammar) returns.
//! The grammar is the subset of JSON the data store's notification payloads
//! use: objects, arrays, strings with the single-character escapes, `null`,
//! and integer numbers. Numbers with a fraction, an exponent, more than 18
//! digits, or a `\u` escape are rejected; the feed never produces them.

use vstd::prelude::*;

verus! {

use vstd::string::StrSliceExecFns;

/// JSON whitespace.
pub open spec fn is_ws(c: char) -> bool {
    c == ' ' || c == '\t' || c == '\n' || c == '\r'
}

/// A decimal digit.
pub open spec fn is_digit(c: char) -> bool {
    '0' <= c && c <= '9'
}

/// Numeric value of a decimal digit.
pub open spec fn digit_val(c: char) -> int {
    (c as u32) as int - 48
}

/// The first position at or after `i` that does not hold whitespace.
pub open spec fn spec_skip_ws(s: Seq<char>, i: int) -> int
    decreases s.len() - i,
{
    if 0 <= i < s.len() && is_ws(s[i]) {
        spec_skip_ws(s, i + 1)
    } else {
        i
    }
}

pub proof fn lemma_skip_ws_bounds(s: Seq<char>, i: int)
    ensures
        0 <= i <= s.len() ==> i <= spec_skip_ws(s, i) <= s.len(),
        !(0 <= i <= s.len()) ==> spec_skip_ws(s, i) == i,
    decreases s.len() - i,
{
    if 0 <= i < s.len() && is_ws(s[i]) {
        lemma_skip_ws_bounds(s, i + 1);
    }
}

/// The first position at or after `i` that does not hold a digit.
pub open spec fn spec_digits_end(s: Seq<char>, i: int) -> int
    decreases s.len() - i,
{
    if 0 <= i < s.len() && is_digit(s[i]) {
        spec_digits_end(s, i + 1)
    } else {
        i
    }
}

pub proof fn lemma_digits_end_bounds(s: Seq<char>, i: int)
    ensures
        0 <= i <= s.len() ==> i <= spec_digits_end(s, i) <= s.len(),
        !(0 <= i <= s.len()) ==> spec_digits_end(s, i) == i,
    decreases s.len() - i,
{
    if 0 <= i < s.len() && is_digit(s[i]) {
        lemma_digits_end_bounds(s, i + 1);
    }
}

/// Value of the decimal digits `s[i..j)`, most significant first.
pub open spec fn spec_digits_val(s: Seq<char>, i: int, j: int) -> int
    decreases j - i,
{
    if i < j {
        spec_digits_val(s, i, j - 1) * 10 + digit_val(s[j - 1])
    } else {
        0
    }
}

/// Powers of ten.
pub open spec fn pow10(n: nat) -> int
    decreases n,
{
    if n == 0 {
        1
    } else {
        10 * pow10((n - 1) as nat)
    }
}

pub proof fn lemma_pow10_pos(n: nat)
    ensures
        pow10(n) >= 1,
    decreases n,
{
    if n > 0 {
        lemma_pow10_pos((n - 1) as nat);
    }
}

pub proof fn lemma_pow10_mono(m: nat, n: nat)
    requires
        m <= n,
    ensures
        pow10(m) <= pow10(n),
    decreases n,
{
    if m < n {
        lemma_pow10_mono(m, (n - 1) as nat);
        lemma_pow10_pos((n - 1) as nat);
    }
}

/// An optional minus sign followed by one to eighteen decimal digits, and the
/// position after them. Longer digit runs are rejected: the feed's values fit
/// comfortably, and every accepted value fits an `i64`.
pub open spec fn spec_parse_int(s: Seq<char>, i: int) -> Option<(int, int)> {
    let neg = 0 <= i < s.len() && s[i] == '-';
    let d0 = if neg {
        i + 1
    } else {
        i
    };
    let e = spec_digits_end(s, d0);
    if d0 < e && e - d0 <= 18 {
        if neg {
            Some((-spec_digits_val(s, d0, e), e))
        } else {
            Some((spec_digits_val(s, d0, e), e))
        }
    } else {
        None
    }
}

pub proof fn lemma_parse_int_advances(s: Seq<char>, i: int)
    ensures
        spec_parse_int(s, i) matches Some(p) ==> 0 <= i < p.1 <= s.len(),
{
    let neg = 0 <= i < s.len() && s[i] == '-';
    let d0 = if neg {
        i + 1
    } else {
        i
    };
    lemma_digits_end_bounds(s, d0);
}

/// `true` exactly on the eight single-character JSON escapes; yields the
/// escaped character.
pub open spec fn spec_escape(c: char) -> Option<char> {
    if c == '"' {
        Some('"')
    } else if c == '\\' {
        Some('\\')
    } else if c == '/' {
        Some('/')
    } else if c == 'b' {
        Some('\u{0008}')
    } else if c == 'f' {
        Some('\u{000C}')
    } else if c == 'n' {
        Some('\n')
    } else if c == 'r' {
        Some('\r')
    } else if c == 't' {
        Some('\t')
    } else {
        None
    }
}

/// The remainder of a string literal starting just after the opening quote at
/// `i - 1`: the decoded content and the position after the closing quote.
/// Unescaped control characters and `\u` escapes are rejected.
pub open spec fn spec_parse_string_body(s: Seq<char>, i: int) -> Option<(Seq<char>, int)>
    decreases s.len() - i,
{
    if i < 0 || i >= s.len() {
        None
    } else if s[i] == '"' {
        Some((Seq::empty(), i + 1))
    } else if s[i] == '\\' {
        if i + 1 < s.len() {
            match spec_escape(s[i + 1]) {
                Some(c) => match spec_parse_string_body(s, i + 2) {
                    Some((t, j)) => Some((seq![c] + t, j)),
                    None => None,
                },
                None => None,
            }
        } else {
            None
        }
    } else if (s[i] as u32) < 32 {
        None
    } else {
        match spec_parse_string_body(s, i + 1) {
            Some((t, j)) => Some((seq![s[i]] + t, j)),
            None => None,
        }
    }
}

/// A whole string literal starting with the quote at `i`.
pub open spec fn spec_parse_string(s: Seq<char>, i: int) -> Option<(Seq<char>, int)> {
    if 0 <= i < s.len() && s[i] == '"' {
        spec_parse_string_body(s, i + 1)
    } else {
        None
    }
}

/// The character `c` standing at `i`; yields the position after it.
pub open spec fn spec_expect(s: Seq<char>, i: int, c: char) -> Option<int> {
    if 0 <= i < s.len() && s[i] == c {
        Some(i + 1)
    } else {
        None
    }
}

/// The literal `null` standing at `i`.
pub open spec fn spec_match_null(s: Seq<char>, i: int) -> bool {
    &&& 0 <= i
    &&& i + 4 <= s.len()
    &&& s[i] == 'n'
    &&& s[i + 1] == 'u'
    &&& s[i + 2] == 'l'
    &&& s[i + 3] == 'l'
}

/// The elements of a non-empty integer array, starting at the first element,
/// up to and including the closing bracket.
pub open spec fn spec_parse_int_elems(s: Seq<char>, i: int) -> Option<(Seq<i64>, int)>
    decreases s.len() - i,
    via spec_parse_int_elems_dec
{
    match spec_parse_int(s, i) {
        Some((v, j)) => {
            let k = spec_skip_ws(s, j);
            if k < s.len() && s[k] == ',' {
                match spec_parse_int_elems(s, spec_skip_ws(s, k + 1)) {
                    Some((t, e)) => Some((seq![v as i64] + t, e)),
                    None => None,
                }
            } else if k < s.len() && s[k] == ']' {
                Some((seq![v as i64], k + 1))
            } else {
                None
            }
        },
        None => None,
    }
}

#[via_fn]
proof fn spec_parse_int_elems_dec(s: Seq<char>, i: int) {
    lemma_parse_int_advances(s, i);
    if let Some((v, j)) = spec_parse_int(s, i) {
        lemma_skip_ws_bounds(s, j);
        let k = spec_skip_ws(s, j);
        if k < s.len() && s[k] == ',' {
            lemma_skip_ws_bounds(s, k + 1);
        }
    }
}

/// A whole integer array starting with the bracket at `i`.
pub open spec fn spec_parse_int_array(s: Seq<char>, i: int) -> Option<(Seq<i64>, int)> {
    if 0 <= i < s.len() && s[i] == '[' {
        let j = spec_skip_ws(s, i + 1);
        if j < s.len() && s[j] == ']' {
            Some((Seq::empty(), j + 1))
        } else {
            spec_parse_int_elems(s, j)
        }
    } else {
        None
    }
}

// -------------------------------------------------------------------------
// Executable views of parse results.
// -------------------------------------------------------------------------
pub open spec fn str_res_view(r: Option<(Vec<char>, usize)>) -> Option<(Seq<char>, int)> {
    match r {
        Some((v, j)) => Some((v@, j as int)),
        None => None,
    }
}

pub open spec fn int_res_view(r: Option<(i64, usize)>) -> Option<(int, int)> {
    match r {
        Some((v, j)) => Some((v as int, j as int)),
        None => None,
    }
}

pub open spec fn arr_res_view(r: Option<(Vec<i64>, usize)>) -> Option<(Seq<i64>, int)> {
    match r {
        Some((v, j)) => Some((v@, j as int)),
        None => None,
    }
}

/// Prepends already-decoded content to the rest of a string parse.
pub open spec fn glue_str(a: Seq<char>, r: Option<(Seq<char>, int)>) -> Option<(Seq<char>, int)> {
    match r {
        Some((t, j)) => Some((a + t, j)),
        None => None,
    }
}

/// Prepends already-parsed elements to the rest of an array parse.
pub open spec fn glue_arr(a: Seq<i64>, r: Option<(Seq<i64>, int)>) -> Option<(Seq<i64>, int)> {
    match r {
        Some((t, j)) => Some((a + t, j)),
        None => None,
    }
}

proof fn lemma_glue_str_push(a: Seq<char>, c: char, r: Option<(Seq<char>, int)>)
    ensures
        glue_str(a, glue_str(seq![c], r)) == glue_str(a.push(c), r),
{
    match r {
        Some((t, j)) => {
            assert(a + (seq![c] + t) =~= a.push(c) + t);
        },
        None => {},
    }
}

proof fn lemma_glue_arr_push(a: Seq<i64>, v: i64, r: Option<(Seq<i64>, int)>)
    ensures
        glue_arr(a, glue_arr(seq![v], r)) == glue_arr(a.push(v), r),
{
    match r {
        Some((t, j)) => {
            assert(a + (seq![v] + t) =~= a.push(v) + t);
        },
        None => {},
    }
}

// -------------------------------------------------------------------------
// Executable parsers.
// -------------------------------------------------------------------------
/// Whether position `i` holds whitespace.
fn at_ws(s: &Vec<char>, i: usize) -> (r: bool)
    ensures
        r == (i < s@.len() && is_ws(s@[i as int])),
{
    if i < s.len() {
        let c = s[i];
        c == ' ' || c == '\t' || c == '\n' || c == '\r'
    } else {
        false
    }
}

/// Whether position `i` holds a digit.
fn at_digit(s: &Vec<char>, i: usize) -> (r: bool)
    ensures
        r == (i < s@.len() && is_digit(s@[i as int])),
{
    if i < s.len() {
        let c = s[i];
        '0' <= c && c <= '9'
    } else {
        false
    }
}

/// Skips whitespace.
pub fn skip_ws(s: &Vec<char>, i: usize) -> (r: usize)
    requires
        i <= s@.len(),
    ensures
        r == spec_skip_ws(s@, i as int),
        i <= r <= s@.len(),
{
    let n = s.len();
    let mut j = i;
    while at_ws(s, j)
        invariant
            i <= j <= n,
            n == s@.len(),
            spec_skip_ws(s@, i as int) == spec_skip_ws(s@, j as int),
        decreases n - j,
    {
        j += 1;
    }
    j
}

/// Expects the character `c` at position `i`.
pub fn expect_char(s: &Vec<char>, i: usize, c: char) -> (r: Option<usize>)
    requires
        i <= s@.len(),
    ensures
        (match r {
            Some(j) => Some(j as int),
            None => None,
        }) == spec_expect(s@, i as int, c),
        r matches Some(j) ==> i < j <= s@.len(),
{
    if i < s.len() && s[i] == c {
        Some(i + 1)
    } else {
        None
    }
}

/// Whether the literal `null` stands at position `i`.
pub fn at_null(s: &Vec<char>, i: usize) -> (r: bool)
    requires
        i <= s@.len(),
    ensures
        r == spec_match_null(s@, i as int),
{
    s.len() - i >= 4 && s[i] == 'n' && s[i + 1] == 'u' && s[i + 2] == 'l' && s[i + 3] == 'l'
}

/// Decodes a single-character escape.
fn escape(c: char) -> (r: Option<char>)
    ensures
        r == spec_escape(c),
{
    if c == '"' {
        Some('"')
    } else if c == '\\' {
        Some('\\')
    } else if c == '/' {
        Some('/')
    } else if c == 'b' {
        Some('\u{0008}')
    } else if c == 'f' {
        Some('\u{000C}')
    } else if c == 'n' {
        Some('\n')
    } else if c == 'r' {
        Some('\r')
    } else if c == 't' {
        Some('\t')
    } else {
        None
    }
}

/// Parses a string literal starting with the quote at `i`.
pub fn parse_string(s: &Vec<char>, i: usize) -> (r: Option<(Vec<char>, usize)>)
    requires
        i <= s@.len(),
    ensures
        str_res_view(r) == spec_parse_string(s@, i as int),
        r matches Some(p) ==> i < p.1 <= s@.len(),
{
    if !(i < s.len() && s[i] == '"') {
        return None;
    }
    let n = s.len();
    let mut acc: Vec<char> = Vec::new();
    let mut j = i + 1;
    loop
        invariant
            i + 1 <= j <= n,
            n == s@.len(),
            s@[i as int] == '"',
            spec_parse_string_body(s@, (i + 1) as int) == glue_str(
                acc@,
                spec_parse_string_body(s@, j as int),
            ),
        decreases n - j,
    {
        if j >= n {
            return None;
        }
        let c = s[j];
        if c == '"' {
            proof {
                assert(spec_parse_string_body(s@, j as int) == Some(
                    (Seq::<char>::empty(), j as int + 1),
                ));
                assert(acc@ + Seq::<char>::empty() =~= acc@);
            }
            return Some((acc, j + 1));
        } else if c == '\\' {
            if j + 1 >= n {
                return None;
            }
            match escape(s[j + 1]) {
                Some(e) => {
                    proof {
                        assert(spec_parse_string_body(s@, j as int) == glue_str(
                            seq![e],
                            spec_parse_string_body(s@, j as int + 2),
                        ));
                        lemma_glue_str_push(
                            acc@,
                            e,
                            spec_parse_string_body(s@, j as int + 2),
                        );
                    }
                    acc.push(e);
                    j += 2;
                },
                None => {
                    return None;
                },
            }
        } else if (c as u32) < 32 {
            return None;
        } else {
            proof {
                assert(spec_parse_string_body(s@, j as int) == glue_str(
                    seq![c],
                    spec_parse_string_body(s@, j as int + 1),
                ));
                lemma_glue_str_push(acc@, c, spec_parse_string_body(s@, j as int + 1));
            }
            acc.push(c);
            j += 1;
        }
    }
}

/// Parses an integer starting at `i`.
pub fn parse_int(s: &Vec<char>, i: usize) -> (r: Option<(i64, usize)>)
    requires
        i <= s@.len(),
    ensures
        int_res_view(r) == spec_parse_int(s@, i as int),
        r matches Some(p) ==> i < p.1 <= s@.len(),
{
    let n = s.len();
    let neg = i < n && s[i] == '-';
    let d0 = if neg {
        i + 1
    } else {
        i
    };
    let mut j = d0;
    let mut val: i64 = 0;
    proof {
        reveal_with_fuel(pow10, 19);
    }
    while at_digit(s, j)
        invariant
            d0 <= j <= n,
            n == s@.len(),
            i <= d0 <= i + 1,
            j - d0 <= 18,
            spec_digits_end(s@, d0 as int) == spec_digits_end(s@, j as int),
            val == spec_digits_val(s@, d0 as int, j as int),
            0 <= val < pow10((j - d0) as nat),
            pow10(18) == 1000000000000000000,
        decreases n - j,
    {
        if j - d0 == 18 {
            proof {
                lemma_digits_end_bounds(s@, j as int);
                // the digit run continues past eighteen digits
                assert(spec_digits_end(s@, j as int) == spec_digits_end(s@, j as int + 1));
                lemma_digits_end_bounds(s@, j as int + 1);
            }
            return None;
        }
        let d = ((s[j] as u32) - 48) as i64;
        proof {
            lemma_pow10_mono((j - d0) as nat, 17);
            reveal_with_fuel(pow10, 19);
            assert(pow10(17) * 10 == pow10(18));
        }
        val = val * 10 + d;
        j += 1;
    }
    proof {
        assert(spec_digits_end(s@, j as int) == j as int);
    }
    if j == d0 {
        return None;
    }
    proof {
        reveal_with_fuel(pow10, 19);
        lemma_pow10_mono((j - d0) as nat, 18);
    }
    if neg {
        Some((-val, j))
    } else {
        Some((val, j))
    }
}

/// Parses an integer array starting with the bracket at `i`.
pub fn parse_int_array(s: &Vec<char>, i: usize) -> (r: Option<(Vec<i64>, usize)>)
    requires
        i <= s@.len(),
    ensures
        arr_res_view(r) == spec_parse_int_array(s@, i as int),
        r matches Some(p) ==> i < p.1 <= s@.len(),
{
    if !(i < s.len() && s[i] == '[') {
        return None;
    }
    let j = skip_ws(s, i + 1);
    if j < s.len() && s[j] == ']' {
        let empty: Vec<i64> = Vec::new();
        return Some((empty, j + 1));
    }
    let mut acc: Vec<i64> = Vec::new();
    let mut cur = j;
    loop
        invariant
            i < j <= cur <= s@.len(),
            spec_parse_int_elems(s@, j as int) == glue_arr(
                acc@,
                spec_parse_int_elems(s@, cur as int),
            ),
            spec_parse_int_array(s@, i as int) == spec_parse_int_elems(s@, j as int),
        decreases s@.len() - cur,
    {
        match parse_int(s, cur) {
            None => {
                return None;
            },
            Some((v, j2)) => {
                let k = skip_ws(s, j2);
                if k < s.len() && s[k] == ',' {
                    let m = skip_ws(s, k + 1);
                    proof {
                        lemma_glue_arr_push(acc@, v, spec_parse_int_elems(s@, m as int));
                    }
                    acc.push(v);
                    cur = m;
                } else if k < s.len() && s[k] == ']' {
                    proof {
                        assert(acc@ + seq![v] =~= acc@.push(v));
                    }
                    acc.push(v);
                    return Some((acc, k + 1));
                } else {
                    return None;
                }
            },
        }
    }
}

// -------------------------------------------------------------------------
// Characters and strings.
// -------------------------------------------------------------------------
/// The characters of `s`, as a vector.
pub fn chars_vec(s: &str) -> (r: Vec<char>)
    ensures
        r@ == s@,
{
    let n = s.unicode_len();
    let mut v: Vec<char> = Vec::new();
    let mut i: usize = 0;
    while i < n
        invariant
            i <= n,
            n == s@.len(),
            v@ =~= s@.subrange(0, i as int),
        decreases n - i,
    {
        v.push(s.get_char(i));
        i += 1;
    }
    proof {
        assert(v@ =~= s@);
    }
    v
}

/// Whether the decoded characters `v` spell the string `lit`.
pub fn chars_eq(v: &Vec<char>, lit: &str) -> (r: bool)
    ensures
        r == (v@ == lit@),
{
    let n = lit.unicode_len();
    if v.len() != n {
        proof {
            assert(v@ != lit@);
        }
        return false;
    }
    let mut i: usize = 0;
    while i < n
        invariant
            i <= n,
            n == lit@.len(),
            v@.len() == n,
            forall|k: int| 0 <= k < i ==> v@[k] == lit@[k],
        decreases n - i,
    {
        if v[i] != lit.get_char(i) {
            return false;
        }
        i += 1;
    }
    proof {
        assert(v@ =~= lit@);
    }
    true
}

/// Whether two string slices hold the same characters.
pub fn str_eq(a: &str, b: &str) -> (r: bool)
    ensures
        r == (a@ == b@),
{
    let n = a.unicode_len();
    if b.unicode_len() != n {
        proof {
            assert(a@ != b@);
        }
        return false;
    }
    let mut i: usize = 0;
    while i < n
        invariant
            i <= n,
            n == a@.len() == b@.len(),
            forall|k: int| 0 <= k < i ==> a@[k] == b@[k],
        decreases n - i,
    {
        if a.get_char(i) != b.get_char(i) {
            return false;
        }
        i += 1;
    }
    proof {
        assert(a@ =~= b@);
    }
    true
}

/// Relies on `core::iter::Iterator::collect` for `String`: collecting the
/// characters of `v` yields the string whose characters they are.
#[verifier::external_body]
pub fn string_from_chars(v: &Vec<char>) -> (r: String)
    ensures
        r@ == v@,
{
    v.iter().collect()
}

} // verus!
