//! Character-level string operations with exact specifications.
//!
//! Every function here mirrors a method of `str` that the client relies on
//! (`trim`, `trim_end_matches`, `lines`, `eq_ignore_ascii_case`, integer parsing and
//! printing); each spec function states the method's documented behaviour over the
//! string's characters.
use vstd::prelude::*;
use vstd::string::*;

verus! {

// ---------------------------------------------------------------------------
// ASCII case
// ---------------------------------------------------------------------------

/// Numeric code of a character after ASCII lower-casing (other characters keep their code).
pub open spec fn lower_code(c: char) -> int {
    if 65 <= (c as u32) && (c as u32) <= 90 {
        (c as u32) + 32
    } else {
        c as u32 as int
    }
}

/// ASCII-case-insensitive equality of two character sequences.
pub open spec fn eq_ignore_ascii_case_spec(a: Seq<char>, b: Seq<char>) -> bool {
    &&& a.len() == b.len()
    &&& forall|i: int| 0 <= i < a.len() ==> lower_code(#[trigger] a[i]) == lower_code(b[i])
}

fn lower_code_exec(c: char) -> (r: u32)
    ensures
        r == lower_code(c),
{
    let x = c as u32;
    if 65 <= x && x <= 90 {
        x + 32
    } else {
        x
    }
}

/// Compares two strings ignoring ASCII case.
pub fn eq_ignore_ascii_case(a: &str, b: &str) -> (r: bool)
    ensures
        r == eq_ignore_ascii_case_spec(a@, b@),
{
    let n = a.unicode_len();
    if n != b.unicode_len() {
        return false;
    }
    let mut i: usize = 0;
    while i < n
        invariant
            n == a@.len(),
            n == b@.len(),
            i <= n,
            forall|j: int| 0 <= j < i ==> lower_code(#[trigger] a@[j]) == lower_code(b@[j]),
        decreases n - i,
    {
        if lower_code_exec(a.get_char(i)) != lower_code_exec(b.get_char(i)) {
            return false;
        }
        i = i + 1;
    }
    true
}

// ---------------------------------------------------------------------------
// Counting, prefixes, suffixes, containment
// ---------------------------------------------------------------------------

/// Number of occurrences of `c` in `s`.
pub open spec fn count_char(s: Seq<char>, c: char) -> nat
    decreases s.len(),
{
    if s.len() == 0 {
        0
    } else {
        count_char(s.drop_last(), c) + if s.last() == c {
            1nat
        } else {
            0nat
        }
    }
}

/// `s` ends with `p`.
pub open spec fn ends_with_spec(s: Seq<char>, p: Seq<char>) -> bool {
    p.len() <= s.len() && s.subrange(s.len() - p.len(), s.len() as int) == p
}

/// `p` occurs in `s` at position `i`.
pub open spec fn occurs_at(s: Seq<char>, p: Seq<char>, i: int) -> bool {
    0 <= i && i + p.len() <= s.len() && s.subrange(i, i + p.len()) == p
}

/// `p` occurs somewhere in `s`.
pub open spec fn contains_spec(s: Seq<char>, p: Seq<char>) -> bool {
    exists|i: int| occurs_at(s, p, i)
}

fn matches_at(s: &str, p: &str, i: usize) -> (r: bool)
    requires
        i + p@.len() <= s@.len(),
    ensures
        r == (s@.subrange(i as int, i + p@.len()) == p@),
{
    let n = s.unicode_len();
    let m = p.unicode_len();
    let mut k: usize = 0;
    while k < m
        invariant
            n == s@.len(),
            m == p@.len(),
            i + m <= n,
            k <= m,
            forall|j: int| 0 <= j < k ==> s@[i + j] == #[trigger] p@[j],
        decreases m - k,
    {
        if s.get_char(i + k) != p.get_char(k) {
            assert(s@.subrange(i as int, i + p@.len())[k as int] != p@[k as int]);
            return false;
        }
        k = k + 1;
    }
    assert(s@.subrange(i as int, i + p@.len()) =~= p@);
    true
}

/// `str::ends_with` for a string pattern.
pub fn ends_with(s: &str, p: &str) -> (r: bool)
    ensures
        r == ends_with_spec(s@, p@),
{
    let n = s.unicode_len();
    let m = p.unicode_len();
    if m > n {
        return false;
    }
    matches_at(s, p, n - m)
}

/// `str::contains` for a string pattern.
pub fn contains(s: &str, p: &str) -> (r: bool)
    ensures
        r == contains_spec(s@, p@),
{
    let n = s.unicode_len();
    let m = p.unicode_len();
    if m > n {
        assert forall|i: int| !occurs_at(s@, p@, i) by {}
        return false;
    }
    if m == 0 {
        assert(s@.subrange(0, 0) =~= p@);
        assert(occurs_at(s@, p@, 0));
        return true;
    }
    let mut i: usize = 0;
    while i <= n - m
        invariant
            n == s@.len(),
            m == p@.len(),
            0 < m <= n,
            i <= n - m + 1,
            forall|j: int| 0 <= j < i ==> !#[trigger] occurs_at(s@, p@, j),
        decreases n - m + 1 - i,
    {
        if matches_at(s, p, i) {
            assert(occurs_at(s@, p@, i as int));
            return true;
        }
        i = i + 1;
    }
    assert forall|j: int| !occurs_at(s@, p@, j) by {
        if 0 <= j && j + m <= n {
            assert(j < i);
        }
    }
    false
}

// ---------------------------------------------------------------------------
// GUIDs
// ---------------------------------------------------------------------------

/// An ASCII hexadecimal digit.
pub open spec fn is_hex_digit(c: char) -> bool {
    ('0' <= c && c <= '9') || ('a' <= c && c <= 'f') || ('A' <= c && c <= 'F')
}

/// A string that looks like a GUID: 36 characters, each a hex digit or '-', with
/// exactly four dashes.
pub open spec fn is_guid_spec(s: Seq<char>) -> bool {
    &&& s.len() == 36
    &&& forall|i: int| 0 <= i < s.len() ==> is_hex_digit(#[trigger] s[i]) || s[i] == '-'
    &&& count_char(s, '-') == 4
}

/// Checks whether a string looks like a GUID.
/// The length is compared in bytes (`str::len`); every accepted character is ASCII,
/// so byte and character counts agree on accepted strings.
pub fn is_guid(s: &str) -> (r: bool)
    ensures
        r == is_guid_spec(s@),
{
    broadcast use vstd::string::is_ascii_spec_bytes;

    let n = s.unicode_len();
    let mut i: usize = 0;
    let mut dashes: usize = 0;
    while i < n
        invariant
            n == s@.len(),
            i <= n,
            dashes == count_char(s@.subrange(0, i as int), '-'),
            dashes <= i,
            forall|j: int| 0 <= j < i ==> is_hex_digit(#[trigger] s@[j]) || s@[j] == '-',
        decreases n - i,
    {
        let c = s.get_char(i);
        if !(('0' <= c && c <= '9') || ('a' <= c && c <= 'f') || ('A' <= c && c <= 'F') || c
            == '-') {
            return false;
        }
        assert(s@.subrange(0, i + 1).drop_last() =~= s@.subrange(0, i as int));
        if c == '-' {
            dashes = dashes + 1;
        }
        i = i + 1;
    }
    assert(s@.subrange(0, n as int) =~= s@);
    assert(is_ascii(s)) by {
        assert forall|j: int| 0 <= j < s@.len() implies '\0' <= #[trigger] s@[j] <= '\u{7f}' by {}
    }
    assert(s.spec_bytes().len() == s@.len());
    s.len() == 36 && dashes == 4
}

// ---------------------------------------------------------------------------
// Whitespace trimming
// ---------------------------------------------------------------------------

/// The Unicode `White_Space` property, which `char::is_whitespace` tests.
pub open spec fn is_whitespace(c: char) -> bool {
    ('\u{9}' <= c && c <= '\u{d}') || c == ' ' || c == '\u{85}' || c == '\u{a0}' || c
        == '\u{1680}' || ('\u{2000}' <= c && c <= '\u{200a}') || c == '\u{2028}' || c
        == '\u{2029}' || c == '\u{202f}' || c == '\u{205f}' || c == '\u{3000}'
}

fn is_whitespace_exec(c: char) -> (r: bool)
    ensures
        r == is_whitespace(c),
{
    ('\u{9}' <= c && c <= '\u{d}') || c == ' ' || c == '\u{85}' || c == '\u{a0}' || c
        == '\u{1680}' || ('\u{2000}' <= c && c <= '\u{200a}') || c == '\u{2028}' || c
        == '\u{2029}' || c == '\u{202f}' || c == '\u{205f}' || c == '\u{3000}'
}

/// `s` without its leading whitespace.
pub open spec fn trim_start_spec(s: Seq<char>) -> Seq<char>
    decreases s.len(),
{
    if s.len() > 0 && is_whitespace(s[0]) {
        trim_start_spec(s.drop_first())
    } else {
        s
    }
}

/// `s` without its trailing whitespace.
pub open spec fn trim_end_spec(s: Seq<char>) -> Seq<char>
    decreases s.len(),
{
    if s.len() > 0 && is_whitespace(s.last()) {
        trim_end_spec(s.drop_last())
    } else {
        s
    }
}

/// `str::trim`: `s` without leading and trailing whitespace.
pub open spec fn trim_spec(s: Seq<char>) -> Seq<char> {
    trim_end_spec(trim_start_spec(s))
}

/// Removes leading and trailing Unicode whitespace.
pub fn trim(s: &str) -> (r: &str)
    ensures
        r@ == trim_spec(s@),
{
    let n = s.unicode_len();
    let mut i: usize = 0;
    assert(s@.subrange(0, n as int) =~= s@);
    while i < n && is_whitespace_exec(s.get_char(i))
        invariant
            n == s@.len(),
            i <= n,
            trim_start_spec(s@) == trim_start_spec(s@.subrange(i as int, n as int)),
        decreases n - i,
    {
        assert(s@.subrange(i as int, n as int).drop_first() =~= s@.subrange(i + 1, n as int));
        i = i + 1;
    }
    assert(trim_start_spec(s@) == s@.subrange(i as int, n as int));
    let mut j: usize = n;
    while j > i && is_whitespace_exec(s.get_char(j - 1))
        invariant
            n == s@.len(),
            i <= j <= n,
            trim_spec(s@) == trim_end_spec(s@.subrange(i as int, j as int)),
        decreases j,
    {
        assert(s@.subrange(i as int, j as int).drop_last() =~= s@.subrange(i as int, j - 1));
        j = j - 1;
    }
    s.substring_char(i, j)
}

// ---------------------------------------------------------------------------
// Suffix stripping
// ---------------------------------------------------------------------------

/// `str::trim_end_matches` with a non-empty string pattern: removes every
/// repetition of `p` from the end of `s`.
pub open spec fn trim_end_matches_spec(s: Seq<char>, p: Seq<char>) -> Seq<char>
    decreases s.len(),
{
    if p.len() > 0 && ends_with_spec(s, p) {
        trim_end_matches_spec(s.subrange(0, s.len() - p.len()), p)
    } else {
        s
    }
}

/// Removes every trailing repetition of a non-empty pattern.
pub fn trim_end_matches<'a>(s: &'a str, p: &str) -> (r: &'a str)
    requires
        p@.len() > 0,
    ensures
        r@ == trim_end_matches_spec(s@, p@),
{
    let n = s.unicode_len();
    let m = p.unicode_len();
    let mut j: usize = n;
    assert(s@.subrange(0, n as int) =~= s@);
    while j >= m && matches_at(s, p, j - m)
        invariant
            n == s@.len(),
            m == p@.len(),
            m > 0,
            j <= n,
            trim_end_matches_spec(s@, p@) == trim_end_matches_spec(
                s@.subrange(0, j as int),
                p@,
            ),
        decreases j,
    {
        assert(s@.subrange(0, j as int).subrange(j - m, j as int) =~= s@.subrange(
            j - m,
            j as int,
        ));
        assert(s@.subrange(0, j as int).subrange(0, j - m) =~= s@.subrange(0, j - m));
        j = j - m;
    }
    let r = s.substring_char(0, j);
    proof {
        if j >= m {
            assert(s@.subrange(0, j as int).subrange(j - m, j as int) =~= s@.subrange(
                j - m,
                j as int,
            ));
        }
    }
    r
}

// ---------------------------------------------------------------------------
// Lines
// ---------------------------------------------------------------------------

/// Index of the first occurrence of `c` in `s` at or after `i`, or `s.len()` if none.
pub open spec fn find_from(s: Seq<char>, c: char, i: int) -> int
    decreases s.len() - i,
{
    if i < 0 || i >= s.len() {
        s.len() as int
    } else if s[i] == c {
        i
    } else {
        find_from(s, c, i + 1)
    }
}

/// A line as `str::lines` yields it: the text before a '\n', with one '\r' before that
/// '\n' removed.
pub open spec fn strip_cr(line: Seq<char>) -> Seq<char> {
    if line.len() > 0 && line.last() == '\r' {
        line.drop_last()
    } else {
        line
    }
}

/// `str::lines`: the text split at each '\n'; a '\r' directly before a '\n' is dropped;
/// a final line ending is optional and an empty string has no lines.
pub open spec fn lines_spec(s: Seq<char>) -> Seq<Seq<char>>
    decreases s.len(),
{
    if s.len() == 0 {
        seq![]
    } else {
        let k = find_from(s, '\n', 0);
        proof {
            lemma_find_from_bounds(s, '\n', 0);
        }
        if k < s.len() {
            seq![strip_cr(s.subrange(0, k))] + lines_spec(s.subrange(k + 1, s.len() as int))
        } else {
            seq![s]
        }
    }
}

/// `s.lines().next().unwrap_or("")`.
pub open spec fn first_line_spec(s: Seq<char>) -> Seq<char> {
    if lines_spec(s).len() == 0 {
        seq![]
    } else {
        lines_spec(s)[0]
    }
}

/// The first occurrence at or after `i` lies between `i` and the end, is `c` (unless
/// it is the end), and no character before it is `c`.
pub proof fn lemma_find_from_bounds(s: Seq<char>, c: char, i: int)
    requires
        0 <= i <= s.len(),
    ensures
        i <= find_from(s, c, i) <= s.len(),
        find_from(s, c, i) < s.len() ==> s[find_from(s, c, i)] == c,
        forall|j: int| i <= j < find_from(s, c, i) ==> s[j] != c,
    decreases s.len() - i,
{
    if i < s.len() && s[i] != c {
        lemma_find_from_bounds(s, c, i + 1);
    }
}

/// The first occurrence of `c` at or after `i` is at `m` when no character in
/// between is `c` and `m` is (or `m` is the end).
pub proof fn lemma_find_from_is(s: Seq<char>, c: char, i: int, m: int)
    requires
        0 <= i <= m <= s.len(),
        forall|j: int| i <= j < m ==> s[j] != c,
        m < s.len() ==> s[m] == c,
    ensures
        find_from(s, c, i) == m,
    decreases m - i,
{
    if i < m {
        lemma_find_from_is(s, c, i + 1, m);
    }
}

/// ASCII-case-insensitive equality is an equivalence: reflexive, symmetric and
/// transitive.
pub proof fn law_eq_ignore_ascii_case_is_equivalence(a: Seq<char>, b: Seq<char>, c: Seq<char>)
    ensures
        eq_ignore_ascii_case_spec(a, a),
        eq_ignore_ascii_case_spec(a, b) ==> eq_ignore_ascii_case_spec(b, a),
        eq_ignore_ascii_case_spec(a, b) && eq_ignore_ascii_case_spec(b, c)
            ==> eq_ignore_ascii_case_spec(a, c),
{
}

/// Finds the first occurrence of a character at or after a position.
fn find_char_from(s: &str, n: usize, c: char, i: usize) -> (r: usize)
    requires
        n == s@.len(),
        i <= n,
    ensures
        r == find_from(s@, c, i as int),
        i <= r <= n,
{
    let mut k = i;
    while k < n && s.get_char(k) != c
        invariant
            n == s@.len(),
            i <= k <= n,
            find_from(s@, c, i as int) == find_from(s@, c, k as int),
        decreases n - k,
    {
        k = k + 1;
    }
    k
}

/// The first line of a string, as `s.lines().next().unwrap_or("")` gives it.
pub fn first_line(s: &str) -> (r: &str)
    ensures
        r@ == first_line_spec(s@),
{
    let n = s.unicode_len();
    if n == 0 {
        return s;
    }
    let k = find_char_from(s, n, '\n', 0);
    if k == n {
        return s;
    }
    if k > 0 && s.get_char(k - 1) == '\r' {
        s.substring_char(0, k - 1)
    } else {
        s.substring_char(0, k)
    }
}

/// The string in `o`, or `default` when there is none.
pub fn copy_opt_or(o: &Option<String>, default: &str) -> (r: String)
    ensures
        r@ == (match o {
            Some(s) => s@,
            None => default@,
        }),
{
    match o {
        Some(s) => s.clone(),
        None => default.to_owned(),
    }
}

/// Wraps `String::push`.
#[verifier::external_body]
pub(crate) fn push_char(s: &mut String, c: char)
    ensures
        final(s)@ == old(s)@.push(c),
{
    s.push(c);
}

/// All lines of a string, as `str::lines` yields them.
pub fn lines(s: &str) -> (r: Vec<String>)
    ensures
        r@.map_values(|l: String| l@) == lines_spec(s@),
{
    let n = s.unicode_len();
    let mut out: Vec<String> = Vec::new();
    let mut pos: usize = 0;
    assert(s@.subrange(0, n as int) =~= s@);
    assert(out@.map_values(|l: String| l@) =~= Seq::<Seq<char>>::empty());
    while pos < n
        invariant
            n == s@.len(),
            pos <= n,
            lines_spec(s@) == out@.map_values(|l: String| l@) + lines_spec(
                s@.subrange(pos as int, n as int),
            ),
        decreases n - pos,
    {
        let ghost rest = s@.subrange(pos as int, n as int);
        let k = find_char_from(s, n, '\n', pos);
        proof {
            lemma_find_from_shift(s@, '\n', pos as int);
        }
        let end = if k < n && k > pos && s.get_char(k - 1) == '\r' {
            k - 1
        } else {
            k
        };
        let line = s.substring_char(pos, end).to_owned();
        let ghost before = out@.map_values(|l: String| l@);
        out.push(line);
        proof {
            assert(out@.map_values(|l: String| l@) =~= before.push(line@));
            if k < n {
                assert(rest.subrange(0, k - pos) =~= s@.subrange(pos as int, k as int));
                assert(rest.subrange(k - pos + 1, rest.len() as int) =~= s@.subrange(
                    k + 1,
                    n as int,
                ));
                assert(strip_cr(rest.subrange(0, k - pos)) =~= line@);
            } else {
                assert(rest =~= line@);
                assert(s@.subrange(n as int, n as int) =~= Seq::<char>::empty());
            }
        }
        pos = if k < n {
            k + 1
        } else {
            n
        };
    }
    assert(s@.subrange(n as int, n as int) =~= Seq::<char>::empty());
    out
}

/// Searching in a suffix of `s` finds the same position, shifted.
pub proof fn lemma_find_from_shift(s: Seq<char>, c: char, p: int)
    requires
        0 <= p <= s.len(),
    ensures
        find_from(s.subrange(p, s.len() as int), c, 0) == find_from(s, c, p) - p,
{
    lemma_find_from_shift_at(s, c, p, p);
}

proof fn lemma_find_from_shift_at(s: Seq<char>, c: char, p: int, i: int)
    requires
        0 <= p <= i <= s.len(),
    ensures
        find_from(s.subrange(p, s.len() as int), c, i - p) == find_from(s, c, i) - p,
    decreases s.len() - i,
{
    if i < s.len() {
        lemma_find_from_shift_at(s, c, p, i + 1);
    }
}

// ---------------------------------------------------------------------------
// Decimal integers
// ---------------------------------------------------------------------------

/// The character of a decimal digit.
pub open spec fn digit_char(d: int) -> char {
    (48 + d) as char
}

/// The value of a decimal digit character.
pub open spec fn digit_value(c: char) -> int {
    (c as u32) - 48
}

/// A decimal digit character.
pub open spec fn is_digit(c: char) -> bool {
    '0' <= c && c <= '9'
}

/// Decimal representation of a natural number, without leading zeros.
pub open spec fn decimal(n: nat) -> Seq<char>
    decreases n,
{
    if n < 10 {
        seq![digit_char(n as int)]
    } else {
        decimal(n / 10).push(digit_char((n % 10) as int))
    }
}

/// Decimal representation of an integer, with a leading '-' when negative.
pub open spec fn signed_decimal(i: int) -> Seq<char> {
    if i < 0 {
        seq!['-'] + decimal((-i) as nat)
    } else {
        decimal(i as nat)
    }
}

fn digit_char_exec(d: u64) -> (c: char)
    requires
        d < 10,
    ensures
        c == digit_char(d as int),
{
    let c = match d {
        0 => '0',
        1 => '1',
        2 => '2',
        3 => '3',
        4 => '4',
        5 => '5',
        6 => '6',
        7 => '7',
        8 => '8',
        _ => '9',
    };
    proof {
        assert(c as u32 == 48 + d);
    }
    c
}

/// Appends the decimal representation of `n`.
fn push_decimal(out: &mut String, n: u64)
    ensures
        final(out)@ == old(out)@ + decimal(n as nat),
{
    let mut digits: Vec<char> = Vec::new();
    let mut v: u64 = n;
    assert(digits@.reverse() =~= Seq::<char>::empty());
    assert(decimal(n as nat) =~= decimal(v as nat) + digits@.reverse());
    while v >= 10
        invariant
            decimal(n as nat) == decimal(v as nat) + digits@.reverse(),
        decreases v,
    {
        let d = v % 10;
        let c = digit_char_exec(d);
        proof {
            assert(decimal(v as nat) == decimal((v / 10) as nat).push(c));
            assert(digits@.push(c).reverse() =~= seq![c] + digits@.reverse());
            assert(decimal(v as nat) + digits@.reverse() =~= decimal((v / 10) as nat) + (seq![c]
                + digits@.reverse()));
        }
        digits.push(c);
        v = v / 10;
    }
    let c0 = digit_char_exec(v);
    proof {
        assert(decimal(v as nat) == seq![c0]);
    }
    let ghost start = out@;
    let ghost rest = digits@.reverse();
    push_char(out, c0);
    let mut k: usize = digits.len();
    assert(out@ =~= start + seq![c0] + rest.subrange(0, digits.len() - k));
    while k > 0
        invariant
            k <= digits.len(),
            rest == digits@.reverse(),
            out@ == start + seq![c0] + rest.subrange(0, digits.len() - k),
        decreases k,
    {
        let c = digits[k - 1];
        proof {
            assert(rest[digits.len() - k] == c);
            assert(rest.subrange(0, digits.len() - k).push(c) =~= rest.subrange(
                0,
                digits.len() - k + 1,
            ));
        }
        push_char(out, c);
        k = k - 1;
    }
    assert(rest.subrange(0, rest.len() as int) =~= rest);
    assert(out@ =~= start + (seq![c0] + rest));
}

/// `u64::to_string`.
pub fn u64_to_string(n: u64) -> (r: String)
    ensures
        r@ == decimal(n as nat),
{
    let mut out = String::new();
    push_decimal(&mut out, n);
    assert(out@ =~= decimal(n as nat));
    out
}

/// `i64::to_string`.
pub fn i64_to_string(i: i64) -> (r: String)
    ensures
        r@ == signed_decimal(i as int),
{
    let mut out = String::new();
    if i < 0 {
        push_char(&mut out, '-');
        let m: u64 = if i == i64::MIN {
            9223372036854775808u64
        } else {
            (-i) as u64
        };
        push_decimal(&mut out, m);
    } else {
        push_decimal(&mut out, i as u64);
    }
    assert(out@ =~= signed_decimal(i as int));
    out
}

/// The value of a string of decimal digits.
pub open spec fn digits_value(s: Seq<char>) -> nat
    decreases s.len(),
{
    if s.len() == 0 {
        0
    } else {
        (digits_value(s.drop_last()) * 10 + digit_value(s.last())) as nat
    }
}

/// `s` without one leading '+'.
pub open spec fn without_plus(s: Seq<char>) -> Seq<char> {
    if s.len() > 0 && s[0] == '+' {
        s.drop_first()
    } else {
        s
    }
}

/// One or more decimal digits whose value fits in a `u64`.
pub open spec fn parse_digits_spec(digits: Seq<char>) -> Option<u64> {
    if digits.len() > 0 && (forall|i: int| 0 <= i < digits.len() ==> is_digit(#[trigger] digits[i]))
        && digits_value(digits) <= u64::MAX {
        Some(digits_value(digits) as u64)
    } else {
        None
    }
}

/// `u64::from_str`: an optional '+', then one or more decimal digits whose value fits.
pub open spec fn parse_u64_spec(s: Seq<char>) -> Option<u64> {
    parse_digits_spec(without_plus(s))
}

proof fn lemma_digits_value_grows(s: Seq<char>, k: int)
    requires
        0 <= k <= s.len(),
        forall|i: int| 0 <= i < s.len() ==> is_digit(#[trigger] s[i]),
    ensures
        digits_value(s.subrange(0, k)) <= digits_value(s),
    decreases s.len() - k,
{
    if k < s.len() {
        lemma_digits_value_grows(s, k + 1);
        let t = s.subrange(0, k + 1);
        assert(t.drop_last() =~= s.subrange(0, k));
        assert(is_digit(t.last()));
    } else {
        assert(s.subrange(0, k) =~= s);
    }
}

/// Parses a `u64` as `str::parse::<u64>` does.
pub fn parse_u64(s: &str) -> (r: Option<u64>)
    ensures
        r == parse_u64_spec(s@),
{
    let n = s.unicode_len();
    let start: usize = if n > 0 && s.get_char(0) == '+' {
        1
    } else {
        0
    };
    let ghost digits = without_plus(s@);
    assert(digits =~= s@.subrange(start as int, n as int));
    if start == n {
        return None;
    }
    let mut i: usize = start;
    while i < n
        invariant
            n == s@.len(),
            start <= i <= n,
            digits == without_plus(s@),
            digits == s@.subrange(start as int, n as int),
            forall|j: int| 0 <= j < i - start ==> is_digit(#[trigger] digits[j]),
        decreases n - i,
    {
        let c = s.get_char(i);
        if !('0' <= c && c <= '9') {
            assert(digits[i - start] == c);
            assert(!is_digit(digits[i - start]));
            assert(!(forall|j: int| 0 <= j < digits.len() ==> is_digit(#[trigger] digits[j])));
            return None;
        }
        i = i + 1;
    }
    let mut acc: u64 = 0;
    let mut i: usize = start;
    assert(digits.subrange(0, 0) =~= Seq::<char>::empty());
    while i < n
        invariant
            n == s@.len(),
            start <= i <= n,
            digits == without_plus(s@),
            digits == s@.subrange(start as int, n as int),
            forall|j: int| 0 <= j < digits.len() ==> is_digit(#[trigger] digits[j]),
            acc == digits_value(digits.subrange(0, i - start)),
        decreases n - i,
    {
        let c = s.get_char(i);
        assert(digits[i - start] == c);
        assert(is_digit(digits[i - start]));
        let d = (c as u32 - 48) as u64;
        let ghost next = digits.subrange(0, i - start + 1);
        assert(next.drop_last() =~= digits.subrange(0, i - start));
        assert(digits_value(next) == acc * 10 + d);
        let v: u128 = acc as u128 * 10 + d as u128;
        if v > u64::MAX as u128 {
            proof {
                lemma_digits_value_grows(digits, i - start + 1);
            }
            return None;
        }
        acc = v as u64;
        i = i + 1;
    }
    assert(digits.subrange(0, n - start) =~= digits);
    Some(acc)
}


// ---------------------------------------------------------------------------
// Byte prefixes
// ---------------------------------------------------------------------------

/// The largest character boundary of `bytes` at or before `k` (0 when `k <= 0`).
pub open spec fn floor_boundary(bytes: Seq<u8>, k: int) -> int
    decreases k,
{
    if k <= 0 {
        0
    } else if vstd::utf8::is_char_boundary(bytes, k) {
        k
    } else {
        floor_boundary(bytes, k - 1)
    }
}

/// The smaller of two integers.
pub open spec fn min_int(a: int, b: int) -> int {
    if a < b {
        a
    } else {
        b
    }
}

/// The byte length of the longest prefix of `bytes` that has at most `max` bytes and
/// ends at a character boundary.
pub open spec fn prefix_len(bytes: Seq<u8>, max: int) -> int {
    floor_boundary(bytes, min_int(max, bytes.len() as int))
}

/// `floor_boundary` lies between 0 and `k`, and is a character boundary.
pub proof fn lemma_floor_boundary(bytes: Seq<u8>, k: int)
    requires
        vstd::utf8::valid_utf8(bytes),
    ensures
        0 <= floor_boundary(bytes, k),
        k >= 0 ==> floor_boundary(bytes, k) <= k,
        vstd::utf8::is_char_boundary(bytes, floor_boundary(bytes, k)),
    decreases k,
{
    broadcast use vstd::utf8::is_char_boundary_start_end_of_seq;

    if k > 0 && !vstd::utf8::is_char_boundary(bytes, k) {
        lemma_floor_boundary(bytes, k - 1);
    }
}

/// The longest prefix of `s` that has at most `max` bytes and ends at a character
/// boundary.
pub fn prefix_at_most(s: &str, max: usize) -> (r: &str)
    ensures
        r.spec_bytes() == s.spec_bytes().subrange(0, prefix_len(s.spec_bytes(), max as int)),
        r@ == vstd::utf8::decode_utf8(
            s.spec_bytes().subrange(0, prefix_len(s.spec_bytes(), max as int)),
        ),
{
    broadcast use vstd::utf8::encode_utf8_valid_utf8, vstd::utf8::encode_utf8_decode_utf8;

    let n = s.as_bytes().len();
    let start: usize = if max < n {
        max
    } else {
        n
    };
    let ghost bytes = s.spec_bytes();
    let mut k: usize = start;
    while k > 0 && !s.is_char_boundary(k)
        invariant
            bytes == s.spec_bytes(),
            k <= start,
            start as int == min_int(max as int, bytes.len() as int),
            floor_boundary(bytes, start as int) == floor_boundary(bytes, k as int),
        decreases k,
    {
        k = k - 1;
    }
    proof {
        assert(vstd::utf8::valid_utf8(bytes));
        lemma_floor_boundary(bytes, k as int);
        assert(floor_boundary(bytes, k as int) == k as int);
    }
    assert(prefix_len(bytes, max as int) == k as int);
    let (head, _) = s.split_at(k);
    assert(head.spec_bytes() == bytes.subrange(0, k as int));
    assert(vstd::utf8::decode_utf8(vstd::utf8::encode_utf8(head@)) == head@);
    head
}

} // verus!
