//! Character-level text handling shared by the parsers of this crate.
//!
//! Every function here mirrors one of Rust's `str` operations and states its
//! result over `Seq<char>`, so that the parsers built on top of them can give
//! exact contracts.
use vstd::prelude::*;

verus! {

// ---------------------------------------------------------------------------
// Specifications
// ---------------------------------------------------------------------------

/// Unicode `White_Space`, as `char::is_whitespace` decides it.
pub open spec fn is_ws(c: char) -> bool {
    let u = c as u32;
    ||| 9 <= u <= 13
    ||| u == 32
    ||| u == 0x85
    ||| u == 0xA0
    ||| u == 0x1680
    ||| 0x2000 <= u <= 0x200A
    ||| u == 0x2028
    ||| u == 0x2029
    ||| u == 0x202F
    ||| u == 0x205F
    ||| u == 0x3000
}

/// `str::trim_start`: drop leading whitespace.
pub open spec fn trim_start(s: Seq<char>) -> Seq<char>
    decreases s.len(),
{
    if s.len() > 0 && is_ws(s[0]) {
        trim_start(s.subrange(1, s.len() as int))
    } else {
        s
    }
}

/// `str::trim_end`: drop trailing whitespace.
pub open spec fn trim_end(s: Seq<char>) -> Seq<char>
    decreases s.len(),
{
    if s.len() > 0 && is_ws(s[s.len() - 1]) {
        trim_end(s.subrange(0, s.len() - 1))
    } else {
        s
    }
}

/// `str::trim`: drop whitespace at both ends.
pub open spec fn trim(s: Seq<char>) -> Seq<char> {
    trim_end(trim_start(s))
}

/// `p` occurs in `s` starting at index `i`.
pub open spec fn occurs_at(s: Seq<char>, p: Seq<char>, i: int) -> bool {
    0 <= i && i + p.len() <= s.len() && s.subrange(i, i + p.len()) == p
}

/// `str::contains` with a string pattern.
pub open spec fn contains(s: Seq<char>, p: Seq<char>) -> bool {
    exists|i: int| occurs_at(s, p, i)
}

/// `str::starts_with` with a string pattern.
pub open spec fn has_prefix(s: Seq<char>, p: Seq<char>) -> bool {
    occurs_at(s, p, 0)
}

/// `str::ends_with` with a string pattern.
pub open spec fn has_suffix(s: Seq<char>, p: Seq<char>) -> bool {
    occurs_at(s, p, s.len() - p.len())
}

/// Index of the first `c` in `s`, or -1.
pub open spec fn first_index(s: Seq<char>, c: char) -> int
    decreases s.len(),
{
    if s.len() == 0 {
        -1
    } else if s[0] == c {
        0
    } else {
        let r = first_index(s.subrange(1, s.len() as int), c);
        if r < 0 {
            -1
        } else {
            r + 1
        }
    }
}

/// Index of the last `c` in `s`, or -1 (`str::rfind` with a char).
pub open spec fn last_index(s: Seq<char>, c: char) -> int
    decreases s.len(),
{
    if s.len() == 0 {
        -1
    } else if s[s.len() - 1] == c {
        s.len() - 1
    } else {
        last_index(s.subrange(0, s.len() - 1), c)
    }
}

/// `str::split` with a char separator (always at least one piece).
pub open spec fn split(s: Seq<char>, sep: char) -> Seq<Seq<char>>
    decreases s.len(),
{
    let i = first_index(s, sep);
    if i < 0 || i >= s.len() {
        seq![s]
    } else {
        seq![s.subrange(0, i)] + split(s.subrange(i + 1, s.len() as int), sep)
    }
}

/// A piece of `split_inclusive('\n')` without its line ending.
pub open spec fn strip_line_end(l: Seq<char>) -> Seq<char> {
    if l.len() > 0 && l[l.len() - 1] == '\n' {
        let m = l.subrange(0, l.len() - 1);
        if m.len() > 0 && m[m.len() - 1] == '\r' {
            m.subrange(0, m.len() - 1)
        } else {
            m
        }
    } else {
        l
    }
}

/// `str::lines`: pieces ended by `\n` (or `\r\n`); a final line ending is optional.
pub open spec fn lines(s: Seq<char>) -> Seq<Seq<char>>
    decreases s.len(),
{
    if s.len() == 0 {
        seq![]
    } else {
        let i = first_index(s, '\n');
        if i < 0 || i >= s.len() {
            seq![s]
        } else {
            seq![strip_line_end(s.subrange(0, i + 1))] + lines(s.subrange(i + 1, s.len() as int))
        }
    }
}

/// Number of leading characters of `s` that are not whitespace.
pub open spec fn token_len(s: Seq<char>) -> nat
    decreases s.len(),
{
    if s.len() == 0 || is_ws(s[0]) {
        0
    } else {
        1 + token_len(s.subrange(1, s.len() as int))
    }
}

/// `str::split_whitespace`: maximal runs of non-whitespace characters.
pub open spec fn split_ws(s: Seq<char>) -> Seq<Seq<char>>
    decreases s.len(),
{
    if s.len() == 0 {
        seq![]
    } else if is_ws(s[0]) {
        split_ws(s.subrange(1, s.len() as int))
    } else {
        let k = token_len(s);
        if 0 < k <= s.len() {
            seq![s.subrange(0, k as int)] + split_ws(s.subrange(k as int, s.len() as int))
        } else {
            seq![s]
        }
    }
}

/// `str::replace(p, "")` for a non-empty `p`: leftmost non-overlapping occurrences removed.
pub open spec fn remove_all(s: Seq<char>, p: Seq<char>) -> Seq<char>
    decreases s.len(),
{
    if p.len() == 0 || s.len() < p.len() {
        s
    } else if s.subrange(0, p.len() as int) == p {
        remove_all(s.subrange(p.len() as int, s.len() as int), p)
    } else {
        seq![s[0]] + remove_all(s.subrange(1, s.len() as int), p)
    }
}

/// `str::trim_start_matches` with a non-empty string pattern.
pub open spec fn trim_start_matches(s: Seq<char>, p: Seq<char>) -> Seq<char>
    decreases s.len(),
{
    if p.len() > 0 && has_prefix(s, p) {
        trim_start_matches(s.subrange(p.len() as int, s.len() as int), p)
    } else {
        s
    }
}

/// `str::trim_end_matches` with a non-empty string pattern.
pub open spec fn trim_end_matches(s: Seq<char>, p: Seq<char>) -> Seq<char>
    decreases s.len(),
{
    if p.len() > 0 && has_suffix(s, p) {
        trim_end_matches(s.subrange(0, s.len() - p.len()), p)
    } else {
        s
    }
}

/// The value of an ASCII decimal digit.
pub open spec fn digit_value(c: char) -> nat {
    ((c as u32) - ('0' as u32)) as nat
}

pub open spec fn is_digit(c: char) -> bool {
    '0' <= c && c <= '9'
}

pub open spec fn all_digits(s: Seq<char>) -> bool {
    forall|i: int| 0 <= i < s.len() ==> is_digit(#[trigger] s[i])
}

/// The number that a string of decimal digits denotes.
pub open spec fn digits_value(s: Seq<char>) -> nat
    decreases s.len(),
{
    if s.len() == 0 {
        0
    } else {
        digits_value(s.subrange(0, s.len() - 1)) * 10 + digit_value(s[s.len() - 1])
    }
}

/// `FromStr` of an unsigned integer type whose largest value is `max`:
/// an optional `+`, then one or more decimal digits, with no overflow.
pub open spec fn parse_unsigned(s: Seq<char>, max: nat) -> Option<nat> {
    let d = if s.len() > 0 && s[0] == '+' {
        s.subrange(1, s.len() as int)
    } else {
        s
    };
    if d.len() == 0 || !all_digits(d) || digits_value(d) > max {
        None
    } else {
        Some(digits_value(d))
    }
}

/// The ASCII digit for a value below ten.
pub open spec fn digit_char(d: nat) -> char {
    if d == 0 {
        '0'
    } else if d == 1 {
        '1'
    } else if d == 2 {
        '2'
    } else if d == 3 {
        '3'
    } else if d == 4 {
        '4'
    } else if d == 5 {
        '5'
    } else if d == 6 {
        '6'
    } else if d == 7 {
        '7'
    } else if d == 8 {
        '8'
    } else {
        '9'
    }
}

/// Decimal text of a natural number, as `Display` writes it.
pub open spec fn decimal(n: nat) -> Seq<char>
    decreases n,
{
    if n < 10 {
        seq![digit_char(n)]
    } else {
        decimal(n / 10) + seq![digit_char(n % 10)]
    }
}

/// Decimal text of an integer, as `Display` writes it.
pub open spec fn signed_decimal(n: int) -> Seq<char> {
    if n < 0 {
        seq!['-'] + decimal((-n) as nat)
    } else {
        decimal(n as nat)
    }
}

/// The view of each string of a vector.
pub open spec fn views(v: Seq<String>) -> Seq<Seq<char>> {
    v.map_values(|s: String| s@)
}

// ---------------------------------------------------------------------------
// Lemmas
// ---------------------------------------------------------------------------

proof fn lemma_trim_start_at(s: Seq<char>, a: int)
    requires
        0 <= a <= s.len(),
        forall|i: int| 0 <= i < a ==> is_ws(#[trigger] s[i]),
        a == s.len() || !is_ws(s[a]),
    ensures
        trim_start(s) == s.subrange(a, s.len() as int),
    decreases a,
{
    if a == 0 {
        assert(s.subrange(0, s.len() as int) =~= s);
    } else {
        let t = s.subrange(1, s.len() as int);
        assert forall|i: int| 0 <= i < a - 1 implies is_ws(#[trigger] t[i]) by {
            assert(t[i] == s[i + 1]);
        }
        lemma_trim_start_at(t, a - 1);
        assert(t.subrange(a - 1, t.len() as int) =~= s.subrange(a, s.len() as int));
    }
}

proof fn lemma_trim_end_at(s: Seq<char>, b: int)
    requires
        0 <= b <= s.len(),
        forall|i: int| b <= i < s.len() ==> is_ws(#[trigger] s[i]),
        b == 0 || !is_ws(s[b - 1]),
    ensures
        trim_end(s) == s.subrange(0, b),
    decreases s.len() - b,
{
    if b == s.len() {
        assert(s.subrange(0, s.len() as int) =~= s);
    } else {
        let t = s.subrange(0, s.len() - 1);
        assert forall|i: int| b <= i < t.len() implies is_ws(#[trigger] t[i]) by {
            assert(t[i] == s[i]);
        }
        lemma_trim_end_at(t, b);
        assert(t.subrange(0, b) =~= s.subrange(0, b));
    }
}

/// `first_index` is the position of the first `c`.
proof fn lemma_first_index_at(s: Seq<char>, c: char, q: int)
    requires
        0 <= q <= s.len(),
        forall|i: int| 0 <= i < q ==> #[trigger] s[i] != c,
        q == s.len() || s[q] == c,
    ensures
        first_index(s, c) == (if q == s.len() { -1 } else { q }),
    decreases q,
{
    if s.len() == 0 {
    } else if q == 0 {
    } else {
        let t = s.subrange(1, s.len() as int);
        assert forall|i: int| 0 <= i < q - 1 implies #[trigger] t[i] != c by {
            assert(t[i] == s[i + 1]);
        }
        assert(s[0] != c);
        lemma_first_index_at(t, c, q - 1);
    }
}

/// `last_index` is the position of the last `c`.
proof fn lemma_last_index_at(s: Seq<char>, c: char, q: int)
    requires
        -1 <= q < s.len(),
        forall|i: int| q < i < s.len() ==> #[trigger] s[i] != c,
        q == -1 || s[q] == c,
    ensures
        last_index(s, c) == q,
    decreases s.len(),
{
    if s.len() == 0 {
    } else if q == s.len() - 1 {
    } else {
        let t = s.subrange(0, s.len() - 1);
        assert forall|i: int| q < i < t.len() implies #[trigger] t[i] != c by {
            assert(t[i] == s[i]);
        }
        lemma_last_index_at(t, c, q);
    }
}

/// `token_len` counts up to the first whitespace.
proof fn lemma_token_len_at(s: Seq<char>, k: int)
    requires
        0 <= k <= s.len(),
        forall|i: int| 0 <= i < k ==> !is_ws(#[trigger] s[i]),
        k == s.len() || is_ws(s[k]),
    ensures
        token_len(s) == k,
    decreases k,
{
    if k == 0 {
    } else {
        let t = s.subrange(1, s.len() as int);
        assert forall|i: int| 0 <= i < k - 1 implies !is_ws(#[trigger] t[i]) by {
            assert(t[i] == s[i + 1]);
        }
        lemma_token_len_at(t, k - 1);
    }
}

proof fn lemma_digits_value_push(s: Seq<char>, c: char)
    ensures
        digits_value(s.push(c)) == digits_value(s) * 10 + digit_value(c),
{
    assert(s.push(c).subrange(0, s.len() as int) =~= s);
}

proof fn lemma_decimal_nonempty(n: nat)
    ensures
        decimal(n).len() >= 1,
    decreases n,
{
    if n >= 10 {
        lemma_decimal_nonempty(n / 10);
    }
}

// ---------------------------------------------------------------------------
// Executable functions
// ---------------------------------------------------------------------------

/// Collects the characters of `s` into a vector, in order.
pub fn chars_of(s: &str) -> (v: Vec<char>)
    ensures
        v@ == s@,
{
    let mut v: Vec<char> = Vec::new();
    for c in it: s.chars()
        invariant
            v@ == it.seq().take(it.index() as int),
            it.seq() == s@,
    {
        v.push(c);
    }
    v
}

/// `char::is_whitespace`.
pub fn is_whitespace(c: char) -> (b: bool)
    ensures
        b == is_ws(c),
{
    let u = c as u32;
    (9 <= u && u <= 13) || u == 32 || u == 0x85 || u == 0xA0 || u == 0x1680 || (0x2000 <= u && u
        <= 0x200A) || u == 0x2028 || u == 0x2029 || u == 0x202F || u == 0x205F || u == 0x3000
}

/// The characters of `s` between `lo` and `hi`, as a `String`.
pub fn piece(s: &str, lo: usize, hi: usize) -> (r: String)
    requires
        lo <= hi <= s@.len(),
    ensures
        r@ == s@.subrange(lo as int, hi as int),
{
    String::from_str(s.substring_char(lo, hi))
}

/// Bounds of `trim(v)` inside `v`.
fn trim_bounds(v: &Vec<char>) -> (r: (usize, usize))
    ensures
        r.0 <= r.1 <= v@.len(),
        trim(v@) == v@.subrange(r.0 as int, r.1 as int),
{
    let n = v.len();
    let mut a: usize = 0;
    while a < n && is_whitespace(v[a])
        invariant
            a <= n,
            n == v@.len(),
            forall|i: int| 0 <= i < a ==> is_ws(#[trigger] v@[i]),
        decreases n - a,
    {
        a = a + 1;
    }
    proof {
        lemma_trim_start_at(v@, a as int);
    }
    let mut b: usize = n;
    while b > a && is_whitespace(v[b - 1])
        invariant
            a <= b <= n,
            n == v@.len(),
            forall|i: int| b <= i < n ==> is_ws(#[trigger] v@[i]),
        decreases b,
    {
        b = b - 1;
    }
    proof {
        let t = v@.subrange(a as int, n as int);
        assert forall|i: int| b - a <= i < t.len() implies is_ws(#[trigger] t[i]) by {
            assert(t[i] == v@[i + a]);
        }
        if b > a {
            assert(t[b - a - 1] == v@[b - 1]);
        }
        lemma_trim_end_at(t, b - a);
        assert(t.subrange(0, b - a) =~= v@.subrange(a as int, b as int));
    }
    (a, b)
}

/// `str::trim`.
pub fn trim_str(s: &str) -> (r: String)
    ensures
        r@ == trim(s@),
{
    let v = chars_of(s);
    let (a, b) = trim_bounds(&v);
    piece(s, a, b)
}

/// Whether `p` occurs in `v` at `i`.
fn occurs_at_exec(v: &Vec<char>, p: &Vec<char>, i: usize) -> (b: bool)
    ensures
        b == occurs_at(v@, p@, i as int),
{
    if i > v.len() || p.len() > v.len() - i {
        return false;
    }
    let mut j: usize = 0;
    while j < p.len()
        invariant
            i + p@.len() <= v@.len(),
            v@.len() == v.len(),
            p@.len() == p.len(),
            j <= p@.len(),
            forall|k: int| 0 <= k < j ==> v@[i + k] == p@[k],
        decreases p@.len() - j,
    {
        if v[i + j] != p[j] {
            proof {
                assert(v@.subrange(i as int, i + p@.len())[j as int] == v@[i + j]);
            }
            return false;
        }
        j = j + 1;
    }
    assert(v@.subrange(i as int, i + p@.len()) =~= p@);
    true
}

/// Whether two character sequences are equal.
pub fn chars_eq(a: &Vec<char>, b: &Vec<char>) -> (r: bool)
    ensures
        r == (a@ == b@),
{
    if a.len() != b.len() {
        return false;
    }
    let r = occurs_at_exec(a, b, 0);
    proof {
        if r {
            assert(a@.subrange(0, a@.len() as int) =~= a@);
        } else {
            assert(a@.subrange(0, a@.len() as int) =~= a@);
        }
    }
    r
}

/// `==` on strings.
pub fn str_eq(a: &str, b: &str) -> (r: bool)
    ensures
        r == (a@ == b@),
{
    chars_eq(&chars_of(a), &chars_of(b))
}

/// `str::starts_with`.
pub fn starts_with(s: &str, p: &str) -> (r: bool)
    ensures
        r == has_prefix(s@, p@),
{
    occurs_at_exec(&chars_of(s), &chars_of(p), 0)
}

/// `str::ends_with`.
pub fn ends_with(s: &str, p: &str) -> (r: bool)
    ensures
        r == has_suffix(s@, p@),
{
    let v = chars_of(s);
    let w = chars_of(p);
    if w.len() > v.len() {
        return false;
    }
    occurs_at_exec(&v, &w, v.len() - w.len())
}

/// First occurrence of `p` in `v` at or after `from`.
fn find_from(v: &Vec<char>, p: &Vec<char>, from: usize) -> (r: Option<usize>)
    ensures
        r matches Some(i) ==> from <= i && occurs_at(v@, p@, i as int) && forall|k: int|
            from <= k < i ==> !occurs_at(v@, p@, k),
        r is None ==> forall|k: int| from <= k ==> !occurs_at(v@, p@, k),
{
    let n = v.len();
    if p.len() > n {
        return None;
    }
    let last = n - p.len();
    let mut i = from;
    while i <= last
        invariant
            p@.len() <= n == v@.len(),
            last == n - p@.len(),
            from <= i,
            forall|k: int| from <= k < i ==> !occurs_at(v@, p@, k),
        decreases last - i + 1,
    {
        if occurs_at_exec(v, p, i) {
            return Some(i);
        }
        if i == last {
            return None;
        }
        i = i + 1;
    }
    None
}

/// `str::contains` with a string pattern.
pub fn contains_str(s: &str, p: &str) -> (r: bool)
    ensures
        r == contains(s@, p@),
{
    let r = find_from(&chars_of(s), &chars_of(p), 0);
    match r {
        Some(i) => true,
        None => false,
    }
}

/// Index of the first `c` at or after `from`, or the length.
fn scan_for(v: &Vec<char>, c: char, from: usize) -> (q: usize)
    requires
        from <= v@.len(),
    ensures
        from <= q <= v@.len(),
        forall|i: int| from <= i < q ==> #[trigger] v@[i] != c,
        q == v@.len() || v@[q as int] == c,
{
    let mut q = from;
    while q < v.len() && v[q] != c
        invariant
            from <= q <= v@.len(),
            forall|i: int| from <= i < q ==> #[trigger] v@[i] != c,
        decreases v@.len() - q,
    {
        q = q + 1;
    }
    q
}

/// `first_index` on the suffix of `v` from `from`, as found by `scan_for`.
proof fn lemma_scan_first_index(v: Seq<char>, c: char, from: int, q: int)
    requires
        0 <= from <= q <= v.len(),
        forall|i: int| from <= i < q ==> #[trigger] v[i] != c,
        q == v.len() || v[q] == c,
    ensures
        first_index(v.subrange(from, v.len() as int), c) == (if q == v.len() { -1 } else { q
            - from }),
{
    let t = v.subrange(from, v.len() as int);
    assert forall|i: int| 0 <= i < q - from implies #[trigger] t[i] != c by {
        assert(t[i] == v[i + from]);
    }
    if q < v.len() {
        assert(t[q - from] == v[q]);
    }
    lemma_first_index_at(t, c, q - from);
}

/// `str::split` with a char separator.
pub fn split_str(s: &str, sep: char) -> (r: Vec<String>)
    ensures
        views(r@) == split(s@, sep),
{
    let v = chars_of(s);
    let n = v.len();
    let mut out: Vec<String> = Vec::new();
    let mut p: usize = 0;
    proof {
        assert(v@.subrange(0, n as int) =~= v@);
        assert(views(out@) + split(v@, sep) =~= split(v@, sep));
    }
    loop
        invariant
            n == v@.len(),
            v@ == s@,
            p <= n,
            views(out@) + split(v@.subrange(p as int, n as int), sep) == split(v@, sep),
        decreases n - p,
    {
        let q = scan_for(&v, sep, p);
        proof {
            lemma_scan_first_index(v@, sep, p as int, q as int);
        }
        let ghost rest = v@.subrange(p as int, n as int);
        let w = piece(s, p, q);
        let ghost old_out = out@;
        out.push(w);
        proof {
            assert(views(out@) =~= views(old_out).push(w@));
        }
        if q == n {
            proof {
                assert(rest.subrange(0, (q - p) as int) =~= rest);
                assert(split(rest, sep) == seq![rest]);
                assert(views(out@) =~= views(old_out) + split(rest, sep));
            }
            return out;
        }
        proof {
            assert(rest.subrange(0, (q - p) as int) =~= v@.subrange(p as int, q as int));
            assert(rest.subrange((q - p) + 1, rest.len() as int) =~= v@.subrange(
                q + 1,
                n as int,
            ));
            assert(split(rest, sep) =~= seq![v@.subrange(p as int, q as int)] + split(
                v@.subrange(q + 1, n as int),
                sep,
            ));
            assert(views(out@) + split(v@.subrange(q + 1, n as int), sep) =~= views(old_out)
                + split(rest, sep));
        }
        p = q + 1;
    }
}

/// `str::lines`.
pub fn lines_of(s: &str) -> (r: Vec<String>)
    ensures
        views(r@) == lines(s@),
{
    let v = chars_of(s);
    let n = v.len();
    let mut out: Vec<String> = Vec::new();
    let mut p: usize = 0;
    proof {
        assert(v@.subrange(0, n as int) =~= v@);
        assert(views(out@) + lines(v@) =~= lines(v@));
    }
    while p < n
        invariant
            n == v@.len(),
            v@ == s@,
            p <= n,
            views(out@) + lines(v@.subrange(p as int, n as int)) == lines(v@),
        decreases n - p,
    {
        let q = scan_for(&v, '\n', p);
        proof {
            lemma_scan_first_index(v@, '\n', p as int, q as int);
        }
        let ghost rest = v@.subrange(p as int, n as int);
        let ghost old_out = out@;
        if q == n {
            let w = piece(s, p, n);
            out.push(w);
            proof {
                assert(rest.len() > 0);
                assert(lines(rest) == seq![rest]);
                assert(views(out@) =~= views(old_out) + lines(rest));
                assert(v@.subrange(n as int, n as int) =~= Seq::<char>::empty());
            }
            p = n;
        } else {
            // the line is v[p..q], without a '\r' just before the '\n'
            let e = if q > p && v[q - 1] == '\r' {
                q - 1
            } else {
                q
            };
            let w = piece(s, p, e);
            out.push(w);
            proof {
                let l = rest.subrange(0, (q - p) + 1);
                assert(l[l.len() - 1] == '\n');
                let m = l.subrange(0, l.len() - 1);
                assert(m =~= v@.subrange(p as int, q as int));
                if q > p {
                    assert(m[m.len() - 1] == v@[q - 1]);
                }
                assert(strip_line_end(l) =~= v@.subrange(p as int, e as int));
                assert(rest.subrange((q - p) + 1, rest.len() as int) =~= v@.subrange(
                    q + 1,
                    n as int,
                ));
                assert(lines(rest) =~= seq![strip_line_end(l)] + lines(
                    v@.subrange(q + 1, n as int),
                ));
                assert(views(out@) =~= views(old_out).push(w@));
                assert(views(out@) + lines(v@.subrange(q + 1, n as int)) =~= views(old_out)
                    + lines(rest));
            }
            p = q + 1;
        }
    }
    proof {
        assert(v@.subrange(p as int, n as int) =~= Seq::<char>::empty());
        assert(views(out@) + Seq::<Seq<char>>::empty() =~= views(out@));
    }
    out
}


/// `str::split_whitespace`.
pub fn split_whitespace_str(s: &str) -> (r: Vec<String>)
    ensures
        views(r@) == split_ws(s@),
{
    let v = chars_of(s);
    let n = v.len();
    let mut out: Vec<String> = Vec::new();
    let mut p: usize = 0;
    proof {
        assert(v@.subrange(0, n as int) =~= v@);
        assert(views(out@) + split_ws(v@) =~= split_ws(v@));
    }
    while p < n
        invariant
            n == v@.len(),
            v@ == s@,
            p <= n,
            views(out@) + split_ws(v@.subrange(p as int, n as int)) == split_ws(v@),
        decreases n - p,
    {
        let ghost rest = v@.subrange(p as int, n as int);
        if is_whitespace(v[p]) {
            proof {
                assert(rest[0] == v@[p as int]);
                assert(rest.subrange(1, rest.len() as int) =~= v@.subrange(p + 1, n as int));
            }
            p = p + 1;
        } else {
            let mut q = p + 1;
            while q < n && !is_whitespace(v[q])
                invariant
                    p < q <= n,
                    n == v@.len(),
                    forall|i: int| p <= i < q ==> !is_ws(#[trigger] v@[i]),
                decreases n - q,
            {
                q = q + 1;
            }
            proof {
                assert forall|i: int| 0 <= i < q - p implies !is_ws(#[trigger] rest[i]) by {
                    assert(rest[i] == v@[i + p]);
                }
                if q < n {
                    assert(rest[q - p] == v@[q as int]);
                }
                lemma_token_len_at(rest, q - p);
                assert(rest.subrange(0, q - p) =~= v@.subrange(p as int, q as int));
                assert(rest.subrange(q - p, rest.len() as int) =~= v@.subrange(q as int, n as int));
            }
            let ghost old_out = out@;
            let w = piece(s, p, q);
            out.push(w);
            proof {
                assert(views(out@) =~= views(old_out).push(w@));
                assert(views(out@) + split_ws(v@.subrange(q as int, n as int)) =~= views(old_out)
                    + split_ws(rest));
            }
            p = q;
        }
    }
    proof {
        assert(v@.subrange(p as int, n as int) =~= Seq::<char>::empty());
        assert(views(out@) + Seq::<Seq<char>>::empty() =~= views(out@));
    }
    out
}

/// `str::replace(p, "")`: every leftmost non-overlapping occurrence of `p` removed.
pub fn remove_all_str(s: &str, p: &str) -> (r: String)
    requires
        p@.len() > 0,
    ensures
        r@ == remove_all(s@, p@),
{
    let v = chars_of(s);
    let w = chars_of(p);
    let n = v.len();
    let m = w.len();
    let mut out = String::new();
    let mut seg: usize = 0;
    let mut i: usize = 0;
    proof {
        assert(v@.subrange(0, n as int) =~= v@);
        assert(v@.subrange(0, 0) =~= Seq::<char>::empty());
        assert(out@ + Seq::<char>::empty() + remove_all(v@, w@) =~= remove_all(v@, w@));
    }
    while i < n
        invariant
            n == v@.len(),
            m == w@.len(),
            m > 0,
            v@ == s@,
            seg <= i <= n,
            out@ + v@.subrange(seg as int, i as int) + remove_all(v@.subrange(i as int, n as int), w@)
                == remove_all(v@, w@),
        decreases n - i,
    {
        let ghost rest = v@.subrange(i as int, n as int);
        if n - i >= m && occurs_at_exec(&v, &w, i) {
            let ghost old_out = out@;
            out.append(s.substring_char(seg, i));
            proof {
                assert(rest.subrange(0, m as int) =~= v@.subrange(i as int, i + m));
                assert(rest.subrange(m as int, rest.len() as int) =~= v@.subrange(i + m, n as int));
                assert(remove_all(rest, w@) == remove_all(v@.subrange(i + m, n as int), w@));
                assert(v@.subrange((i + m) as int, (i + m) as int) =~= Seq::<char>::empty());
                assert(out@ + v@.subrange((i + m) as int, (i + m) as int) =~= out@);
            }
            i = i + m;
            seg = i;
        } else {
            proof {
                if rest.len() >= m {
                    assert(rest.subrange(0, m as int) =~= v@.subrange(i as int, i + m));
                }
                assert(rest.subrange(1, rest.len() as int) =~= v@.subrange(i + 1, n as int));
                assert(remove_all(rest, w@) =~= seq![v@[i as int]] + remove_all(
                    v@.subrange(i + 1, n as int),
                    w@,
                )) by {
                    if rest.len() < m {
                        // nothing more to remove: the rest stays as it is
                        assert(rest.subrange(1, rest.len() as int).len() < m);
                        assert(remove_all(v@.subrange(i + 1, n as int), w@) == v@.subrange(i + 1, n as int));
                        assert(rest =~= seq![v@[i as int]] + v@.subrange(i + 1, n as int));
                    }
                }
                assert(v@.subrange(seg as int, i + 1) =~= v@.subrange(seg as int, i as int).push(
                    v@[i as int],
                ));
                assert(out@ + v@.subrange(seg as int, i + 1) + remove_all(
                    v@.subrange(i + 1, n as int),
                    w@,
                ) =~= out@ + v@.subrange(seg as int, i as int) + remove_all(rest, w@));
            }
            i = i + 1;
        }
    }
    let ghost old_out = out@;
    out.append(s.substring_char(seg, n));
    proof {
        assert(v@.subrange(n as int, n as int) =~= Seq::<char>::empty());
        assert(old_out + v@.subrange(seg as int, n as int) + Seq::<char>::empty() =~= out@);
    }
    out
}

/// `str::strip_suffix` with a string pattern.
pub fn strip_suffix_str(s: &str, p: &str) -> (r: Option<String>)
    ensures
        r matches Some(t) ==> has_suffix(s@, p@) && t@ == s@.subrange(0, s@.len() - p@.len()),
        r is None ==> !has_suffix(s@, p@),
{
    if ends_with(s, p) {
        let n = s.unicode_len();
        let m = p.unicode_len();
        Some(piece(s, 0, n - m))
    } else {
        None
    }
}

/// `str::trim_start_matches` with a non-empty string pattern.
pub fn trim_start_matches_str(s: &str, p: &str) -> (r: String)
    requires
        p@.len() > 0,
    ensures
        r@ == trim_start_matches(s@, p@),
{
    let v = chars_of(s);
    let w = chars_of(p);
    let n = v.len();
    let m = w.len();
    let mut i: usize = 0;
    proof {
        assert(v@.subrange(0, n as int) =~= v@);
    }
    while n - i >= m && occurs_at_exec(&v, &w, i)
        invariant
            n == v@.len(),
            m == w@.len(),
            m > 0,
            i <= n,
            trim_start_matches(v@.subrange(i as int, n as int), w@) == trim_start_matches(v@, w@),
        decreases n - i,
    {
        proof {
            let rest = v@.subrange(i as int, n as int);
            assert(rest.subrange(0, m as int) =~= v@.subrange(i as int, i + m));
            assert(rest.subrange(m as int, rest.len() as int) =~= v@.subrange(i + m, n as int));
        }
        i = i + m;
    }
    proof {
        let rest = v@.subrange(i as int, n as int);
        if rest.len() >= m {
            assert(rest.subrange(0, m as int) =~= v@.subrange(i as int, i + m));
        }
    }
    piece(s, i, n)
}

/// `str::trim_end_matches` with a non-empty string pattern.
pub fn trim_end_matches_str(s: &str, p: &str) -> (r: String)
    requires
        p@.len() > 0,
    ensures
        r@ == trim_end_matches(s@, p@),
{
    let v = chars_of(s);
    let w = chars_of(p);
    let n = v.len();
    let m = w.len();
    let mut j: usize = n;
    proof {
        assert(v@.subrange(0, n as int) =~= v@);
    }
    while j >= m && occurs_at_exec(&v, &w, j - m)
        invariant
            n == v@.len(),
            m == w@.len(),
            m > 0,
            j <= n,
            trim_end_matches(v@.subrange(0, j as int), w@) == trim_end_matches(v@, w@),
        decreases j,
    {
        proof {
            let pre = v@.subrange(0, j as int);
            assert(pre.subrange(j - m, j as int) =~= v@.subrange(j - m, j as int));
            assert(pre.subrange(0, j - m) =~= v@.subrange(0, j - m));
        }
        j = j - m;
    }
    proof {
        let pre = v@.subrange(0, j as int);
        if j >= m {
            assert(pre.subrange(j - m, j as int) =~= v@.subrange(j - m, j as int));
        }
    }
    piece(s, 0, j)
}

/// `str::rfind` with a char pattern (as a character index).
pub fn rfind_char(s: &str, c: char) -> (r: Option<usize>)
    ensures
        r matches Some(i) ==> last_index(s@, c) == i as int && i < s@.len() && s@[i as int] == c,
        r is None ==> last_index(s@, c) == -1,
{
    let v = chars_of(s);
    let mut q: usize = v.len();
    while q > 0 && v[q - 1] != c
        invariant
            q <= v@.len(),
            forall|i: int| q <= i < v@.len() ==> #[trigger] v@[i] != c,
        decreases q,
    {
        q = q - 1;
    }
    proof {
        lemma_last_index_at(v@, c, q - 1);
    }
    if q == 0 {
        None
    } else {
        Some(q - 1)
    }
}

/// `FromStr` for an unsigned integer type whose largest value is `max`.
pub fn parse_unsigned_str(s: &str, max: u64) -> (r: Option<u64>)
    ensures
        match parse_unsigned(s@, max as nat) {
            Some(x) => r == Some(x as u64),
            None => r is None,
        },
{
    let v = chars_of(s);
    let n = v.len();
    let start: usize = if n > 0 && v[0] == '+' {
        1
    } else {
        0
    };
    let ghost d = v@.subrange(start as int, n as int);
    proof {
        if start == 0 {
            assert(d =~= v@);
        }
    }
    if start == n {
        return None;
    }
    let mut acc: u64 = 0;
    let mut over = false;
    let mut i = start;
    while i < n
        invariant
            start <= i <= n,
            n == v@.len(),
            v@ == s@,
            start <= 1,
            start == 1 <==> (v@.len() > 0 && v@[0] == '+'),
            d == v@.subrange(start as int, n as int),
            all_digits(v@.subrange(start as int, i as int)),
            over <==> digits_value(v@.subrange(start as int, i as int)) > max,
            !over ==> acc == digits_value(v@.subrange(start as int, i as int)),
        decreases n - i,
    {
        let c = v[i];
        if !('0' <= c && c <= '9') {
            proof {
                assert(d[i - start] == c);
                assert(!is_digit(d[i - start]));
                assert(!all_digits(d));
                if start == 1 {
                    assert(s@[0] == '+');
                    assert(d == s@.subrange(1, s@.len() as int));
                } else {
                    assert(!(s@.len() > 0 && s@[0] == '+'));
                }
            }
            return None;
        }
        let dv = (c as u32 - '0' as u32) as u64;
        proof {
            let pre = v@.subrange(start as int, i as int);
            assert(v@.subrange(start as int, i + 1) =~= pre.push(c));
            lemma_digits_value_push(pre, c);
            assert(dv == digit_value(c));
        }
        if !over {
            if dv > max || acc > (max - dv) / 10 {
                over = true;
                proof {
                    if dv <= max {
                        assert(acc * 10 + dv > max) by (nonlinear_arith)
                            requires
                                acc > (max - dv) / 10,
                                dv <= max,
                        {
                        }
                    }
                }
            } else {
                proof {
                    assert(acc * 10 + dv <= max) by (nonlinear_arith)
                        requires
                            acc <= (max - dv) / 10,
                    {
                    }
                }
                acc = acc * 10 + dv;
            }
        } else {
            proof {
                let pre = v@.subrange(start as int, i as int);
                assert(digits_value(pre) * 10 + dv > max) by (nonlinear_arith)
                    requires
                        digits_value(pre) > max,
                {
                }
            }
        }
        i = i + 1;
    }
    if over {
        None
    } else {
        Some(acc)
    }
}


/// The one-character text of a decimal digit.
fn digit_str(d: u128) -> (r: &'static str)
    requires
        d < 10,
    ensures
        r@ == seq![digit_char(d as nat)],
{
    if d == 0 {
        proof { reveal_strlit("0"); }
        "0"
    } else if d == 1 {
        proof { reveal_strlit("1"); }
        "1"
    } else if d == 2 {
        proof { reveal_strlit("2"); }
        "2"
    } else if d == 3 {
        proof { reveal_strlit("3"); }
        "3"
    } else if d == 4 {
        proof { reveal_strlit("4"); }
        "4"
    } else if d == 5 {
        proof { reveal_strlit("5"); }
        "5"
    } else if d == 6 {
        proof { reveal_strlit("6"); }
        "6"
    } else if d == 7 {
        proof { reveal_strlit("7"); }
        "7"
    } else if d == 8 {
        proof { reveal_strlit("8"); }
        "8"
    } else {
        proof { reveal_strlit("9"); }
        "9"
    }
}

/// Appends the decimal text of `n`.
pub fn push_decimal(out: &mut String, n: u128)
    ensures
        final(out)@ == old(out)@ + decimal(n as nat),
    decreases n,
{
    if n >= 10 {
        push_decimal(out, n / 10);
    }
    out.append(digit_str(n % 10));
    proof {
        if n >= 10 {
            assert(old(out)@ + decimal((n / 10) as nat) + seq![digit_char((n % 10) as nat)]
                =~= old(out)@ + decimal(n as nat));
        } else {
            assert(n % 10 == n);
        }
    }
}

/// Appends the decimal text of a signed `n`.
pub fn push_signed_decimal(out: &mut String, n: i64)
    ensures
        final(out)@ == old(out)@ + signed_decimal(n as int),
{
    if n < 0 {
        proof { reveal_strlit("-"); }
        out.append("-");
        let m: u128 = if n == i64::MIN {
            0x8000_0000_0000_0000u128
        } else {
            (-n) as u128
        };
        push_decimal(out, m);
        proof {
            assert(old(out)@ + seq!['-'] + decimal(m as nat) =~= old(out)@ + signed_decimal(
                n as int,
            ));
        }
    } else {
        push_decimal(out, n as u128);
    }
}

/// Unicode lower-casing, as `str::to_lowercase` performs it.
pub uninterp spec fn spec_lowercase(s: Seq<char>) -> Seq<char>;

/// Calls `str::to_lowercase`.
///
/// Claims: the result is a function of the characters of `s` alone (named
/// `spec_lowercase`). The Unicode case tables it applies are not restated.
#[verifier::external_body]
pub(crate) fn to_lowercase(s: &str) -> (r: String)
    ensures
        r@ == spec_lowercase(s@),
{
    s.to_lowercase()
}


/// The views of a sequence of string slices.
pub open spec fn str_views(v: Seq<&str>) -> Seq<Seq<char>> {
    v.map_values(|s: &str| s@)
}

/// Owned copies of string slices, in order.
pub fn strings_of(parts: &[&str]) -> (r: Vec<String>)
    ensures
        views(r@) == str_views(parts@),
{
    let mut r: Vec<String> = Vec::new();
    for i in 0..parts.len()
        invariant
            views(r@) == str_views(parts@.take(i as int)),
    {
        let ghost old_r = r@;
        let w = String::from_str(parts[i]);
        r.push(w);
        proof {
            assert(parts@.take(i + 1) =~= parts@.take(i as int).push(parts@[i as int]));
            assert(r@ =~= old_r.push(w));
            assert(views(r@) =~= views(old_r).push(w@));
            assert(views(r@) =~= str_views(parts@.take(i + 1)));
        }
    }
    assert(parts@.take(parts@.len() as int) =~= parts@);
    r
}

} // verus!
