//! Character-sequence helpers shared by the translators.
//!
//! Strings are read into `Vec<char>` and reasoned about through their
//! `Seq<char>` views; results are turned back into `String`s at the end.

use vstd::prelude::*;

verus! {

// ---------------------------------------------------------------------------
// Specifications
// ---------------------------------------------------------------------------

/// Unicode `White_Space`, the property that `char::is_whitespace` tests.
pub open spec fn is_ws(c: char) -> bool {
    ||| ('\u{9}' <= c && c <= '\u{d}')
    ||| c == ' '
    ||| c == '\u{85}'
    ||| c == '\u{a0}'
    ||| c == '\u{1680}'
    ||| ('\u{2000}' <= c && c <= '\u{200a}')
    ||| c == '\u{2028}'
    ||| c == '\u{2029}'
    ||| c == '\u{202f}'
    ||| c == '\u{205f}'
    ||| c == '\u{3000}'
}

/// Index of the first non-whitespace character at or after `i` (or `s.len()`).
pub open spec fn skip_ws_from(s: Seq<char>, i: int) -> int
    decreases s.len() - i,
{
    if i < 0 || i >= s.len() {
        s.len() as int
    } else if is_ws(s[i]) {
        skip_ws_from(s, i + 1)
    } else {
        i
    }
}

/// End of `s.take(j)` once trailing whitespace is dropped.
pub open spec fn drop_ws_before(s: Seq<char>, j: int) -> int
    decreases j,
{
    if j <= 0 {
        0
    } else if is_ws(s[j - 1]) {
        drop_ws_before(s, j - 1)
    } else {
        j
    }
}

/// `str::trim_start`: drops leading whitespace.
pub open spec fn trim_start(s: Seq<char>) -> Seq<char> {
    s.skip(skip_ws_from(s, 0))
}

/// `str::trim_end`: drops trailing whitespace.
pub open spec fn trim_end(s: Seq<char>) -> Seq<char> {
    s.take(drop_ws_before(s, s.len() as int))
}

/// `str::trim`: drops leading and trailing whitespace.
pub open spec fn trim(s: Seq<char>) -> Seq<char> {
    trim_end(trim_start(s))
}

/// `s` begins with `p`.
pub open spec fn has_prefix(s: Seq<char>, p: Seq<char>) -> bool {
    p.len() <= s.len() && s.take(p.len() as int) == p
}

/// `s` ends with `p`.
pub open spec fn has_suffix(s: Seq<char>, p: Seq<char>) -> bool {
    p.len() <= s.len() && s.skip(s.len() - p.len()) == p
}

/// Index of the first occurrence of `c` at or after `i`, if any.
pub open spec fn find_from(s: Seq<char>, c: char, i: int) -> Option<int>
    decreases s.len() - i,
{
    if i < 0 || i >= s.len() {
        None
    } else if s[i] == c {
        Some(i)
    } else {
        find_from(s, c, i + 1)
    }
}

/// Index of the first occurrence of `c` in `s`, if any.
pub open spec fn find_char(s: Seq<char>, c: char) -> Option<int> {
    find_from(s, c, 0)
}

/// Index of the last occurrence of `c` before position `j`, if any.
pub open spec fn rfind_before(s: Seq<char>, c: char, j: int) -> Option<int>
    decreases j,
{
    if j <= 0 || j > s.len() {
        None
    } else if s[j - 1] == c {
        Some(j - 1)
    } else {
        rfind_before(s, c, j - 1)
    }
}

/// Index of the last occurrence of `c` in `s`, if any.
pub open spec fn rfind_char(s: Seq<char>, c: char) -> Option<int> {
    rfind_before(s, c, s.len() as int)
}

/// Index of the first occurrence of `p` in `s` at or after `i`, if any.
pub open spec fn find_sub_from(s: Seq<char>, p: Seq<char>, i: int) -> Option<int>
    decreases s.len() + 1 - i,
{
    if i < 0 || i + p.len() > s.len() {
        None
    } else if s.subrange(i, i + p.len()) == p {
        Some(i)
    } else {
        find_sub_from(s, p, i + 1)
    }
}

/// Index of the first occurrence of `p` in `s`, if any.
pub open spec fn find_sub(s: Seq<char>, p: Seq<char>) -> Option<int> {
    find_sub_from(s, p, 0)
}

/// The pieces of `s` between non-overlapping occurrences of `sep`, found
/// left to right from `i`; the current piece began at `start` (`str::split`).
pub open spec fn split_sep_from(s: Seq<char>, sep: Seq<char>, i: int, start: int) -> Seq<Seq<char>>
    decreases s.len() + 1 - i,
{
    if !(0 <= start <= i <= s.len()) || sep.len() == 0 {
        Seq::empty()
    } else if i + sep.len() > s.len() {
        seq![s.subrange(start, s.len() as int)]
    } else if s.subrange(i, i + sep.len()) == sep {
        seq![s.subrange(start, i)] + split_sep_from(s, sep, i + sep.len(), i + sep.len())
    } else {
        split_sep_from(s, sep, i + 1, start)
    }
}

/// `str::split` by a non-empty separator.
pub open spec fn split_sep(s: Seq<char>, sep: Seq<char>) -> Seq<Seq<char>> {
    split_sep_from(s, sep, 0, 0)
}

/// The pieces joined with `sep` between consecutive pieces (`[T]::join`).
pub open spec fn join(parts: Seq<Seq<char>>, sep: Seq<char>) -> Seq<char>
    decreases parts.len(),
{
    if parts.len() == 0 {
        Seq::empty()
    } else if parts.len() == 1 {
        parts[0]
    } else {
        join(parts.drop_last(), sep) + sep + parts.last()
    }
}

/// Decimal digits of a natural number, as `Display` prints unsigned integers.
pub open spec fn decimal(n: nat) -> Seq<char>
    decreases n,
{
    if n < 10 {
        seq![digit_char(n)]
    } else {
        decimal(n / 10) + seq![digit_char(n % 10)]
    }
}

/// The ASCII digit for `d < 10`.
pub open spec fn digit_char(d: nat) -> char {
    if d == 0 { '0' }
    else if d == 1 { '1' }
    else if d == 2 { '2' }
    else if d == 3 { '3' }
    else if d == 4 { '4' }
    else if d == 5 { '5' }
    else if d == 6 { '6' }
    else if d == 7 { '7' }
    else if d == 8 { '8' }
    else { '9' }
}

// ---------------------------------------------------------------------------
// UTF-8 lengths
// ---------------------------------------------------------------------------

/// Number of bytes of the UTF-8 encoding of `c`.
pub open spec fn utf8_width(c: char) -> nat {
    if (c as u32) < 0x80 {
        1
    } else if (c as u32) < 0x800 {
        2
    } else if (c as u32) < 0x10000 {
        3
    } else {
        4
    }
}

/// Number of bytes of the UTF-8 encoding of `s`.
pub open spec fn byte_len(s: Seq<char>) -> nat
    decreases s.len(),
{
    if s.len() == 0 {
        0
    } else {
        byte_len(s.drop_last()) + utf8_width(s.last())
    }
}

/// The number of leading characters counted from `k` whose UTF-8 encoding
/// fits in `n` bytes in total.
pub open spec fn chars_within_from(s: Seq<char>, n: int, k: int) -> int
    decreases s.len() - k,
{
    if k < 0 || k >= s.len() || byte_len(s.take(k + 1)) > n {
        k
    } else {
        chars_within_from(s, n, k + 1)
    }
}

/// The number of leading characters of `s` that fit in `n` bytes.
pub open spec fn chars_within(s: Seq<char>, n: int) -> int {
    chars_within_from(s, n, 0)
}

/// Byte offset `n` is a character boundary of `s` or lies past its end, so
/// that slicing `s` up to `n` (clamped to its length) is defined.
pub open spec fn on_boundary(s: Seq<char>, n: int) -> bool {
    n >= byte_len(s) || byte_len(s.take(chars_within(s, n))) == n
}

/// The first `n` bytes of `s`, as characters.
pub open spec fn byte_prefix(s: Seq<char>, n: int) -> Seq<char> {
    s.take(chars_within(s, n))
}

/// `a` sorts before `b`: code point by code point, a proper prefix first.
/// For strings this is the order of their UTF-8 bytes, the order of `str`.
pub open spec fn label_lt(a: Seq<char>, b: Seq<char>) -> bool
    decreases a.len(),
{
    if a.len() == 0 {
        b.len() > 0
    } else if b.len() == 0 {
        false
    } else if a[0] != b[0] {
        a[0] < b[0]
    } else {
        label_lt(a.drop_first(), b.drop_first())
    }
}

// ---------------------------------------------------------------------------
// Lines
// ---------------------------------------------------------------------------

/// `s` without one trailing carriage return.
pub open spec fn strip_cr(s: Seq<char>) -> Seq<char> {
    if s.len() > 0 && s.last() == '\r' {
        s.drop_last()
    } else {
        s
    }
}

/// The lines of `s` as `str::lines` gives them: split at `\n`, a `\r` right
/// before a `\n` dropped, and no empty last line after a final `\n`.
pub open spec fn lines_of(s: Seq<char>) -> Seq<Seq<char>> {
    let parts = split_sep(s, seq!['\n']);
    let n = parts.len() as int;
    let count = if n > 0 && parts[n - 1].len() == 0 {
        n - 1
    } else {
        n
    };
    Seq::new(count as nat, |i: int| if i < n - 1 { strip_cr(parts[i]) } else { parts[i] })
}

// ---------------------------------------------------------------------------
// ASCII classes
// ---------------------------------------------------------------------------

/// `u8::is_ascii_whitespace` on the character's code.
pub open spec fn is_ascii_ws(c: char) -> bool {
    c == ' ' || c == '\t' || c == '\n' || c == '\u{c}' || c == '\r'
}

/// ASCII letter, digit or underscore.
pub open spec fn is_ident_char(c: char) -> bool {
    ('a' <= c && c <= 'z') || ('A' <= c && c <= 'Z') || ('0' <= c && c <= '9') || c == '_'
}

/// Index after the last character before `j` that is not ASCII whitespace.
pub open spec fn ascii_ws_end(s: Seq<char>, j: int) -> int
    decreases j,
{
    if j <= 0 || j > s.len() {
        if j > s.len() { s.len() as int } else { 0 }
    } else if is_ascii_ws(s[j - 1]) {
        ascii_ws_end(s, j - 1)
    } else {
        j
    }
}

/// Start of the run of identifier characters that ends at `j`.
pub open spec fn ident_start(s: Seq<char>, j: int) -> int
    decreases j,
{
    if j <= 0 || j > s.len() {
        if j > s.len() { s.len() as int } else { 0 }
    } else if is_ident_char(s[j - 1]) {
        ident_start(s, j - 1)
    } else {
        j
    }
}

/// The identifier that ends `s`, trailing ASCII whitespace ignored (empty
/// when `s` does not end in one).
pub open spec fn last_identifier(s: Seq<char>) -> Seq<char> {
    let e = ascii_ws_end(s, s.len() as int);
    s.subrange(ident_start(s, e), e)
}

// ---------------------------------------------------------------------------
// Lemmas
// ---------------------------------------------------------------------------

pub proof fn lemma_byte_len_take_step(s: Seq<char>, k: int)
    requires
        0 <= k < s.len(),
    ensures
        byte_len(s.take(k + 1)) == byte_len(s.take(k)) + utf8_width(s[k]),
{
    assert(s.take(k + 1).drop_last() == s.take(k));
}

pub proof fn lemma_byte_len_take_mono(s: Seq<char>, a: int, b: int)
    requires
        0 <= a <= b <= s.len(),
    ensures
        byte_len(s.take(a)) + (b - a) <= byte_len(s.take(b)),
    decreases b - a,
{
    if a < b {
        lemma_byte_len_take_mono(s, a, b - 1);
        lemma_byte_len_take_step(s, b - 1);
    }
}

/// The characters counted by `chars_within` fit in `n` bytes, and one more
/// would not.
pub proof fn lemma_chars_within(s: Seq<char>, n: int)
    requires
        n >= 0,
    ensures
        0 <= chars_within(s, n) <= s.len(),
        byte_len(s.take(chars_within(s, n))) <= n,
        chars_within(s, n) < s.len() ==> byte_len(s) > n,
        chars_within(s, n) == s.len() ==> byte_len(s) <= n,
{
    lemma_chars_within_from(s, n, 0);
    let k = chars_within(s, n);
    assert(s.take(s.len() as int) == s);
    if k < s.len() {
        lemma_byte_len_take_mono(s, k + 1, s.len() as int);
    }
}

proof fn lemma_chars_within_from(s: Seq<char>, n: int, k: int)
    requires
        0 <= k <= s.len(),
        byte_len(s.take(k)) <= n,
    ensures
        k <= chars_within_from(s, n, k) <= s.len(),
        byte_len(s.take(chars_within_from(s, n, k))) <= n,
        chars_within_from(s, n, k) < s.len() ==> byte_len(s.take(chars_within_from(s, n, k) + 1)) > n,
    decreases s.len() - k,
{
    if k < s.len() && byte_len(s.take(k + 1)) <= n {
        lemma_chars_within_from(s, n, k + 1);
    }
}

/// Of two different labels, one sorts before the other.
pub proof fn lemma_label_lt_total(a: Seq<char>, b: Seq<char>)
    requires
        a != b,
    ensures
        label_lt(a, b) || label_lt(b, a),
    decreases a.len(),
{
    if a.len() > 0 && b.len() > 0 && a[0] == b[0] {
        if a.drop_first() == b.drop_first() {
            assert(a =~= seq![a[0]] + a.drop_first());
            assert(b =~= seq![b[0]] + b.drop_first());
        }
        lemma_label_lt_total(a.drop_first(), b.drop_first());
    } else if a.len() == 0 && b.len() == 0 {
        assert(a =~= b);
    }
}

pub proof fn lemma_label_lt_trans(a: Seq<char>, b: Seq<char>, c: Seq<char>)
    requires
        label_lt(a, b),
        label_lt(b, c),
    ensures
        label_lt(a, c),
    decreases a.len(),
{
    if a.len() > 0 && b.len() > 0 && c.len() > 0 && a[0] == b[0] && b[0] == c[0] {
        lemma_label_lt_trans(a.drop_first(), b.drop_first(), c.drop_first());
    }
}

proof fn lemma_split_sep_from_piece_len(s: Seq<char>, sep: Seq<char>, i: int, start: int)
    requires
        0 <= start <= i <= s.len(),
        sep.len() > 0,
    ensures
        forall|k: int| 0 <= k < split_sep_from(s, sep, i, start).len()
            ==> #[trigger] split_sep_from(s, sep, i, start)[k].len() <= s.len(),
    decreases s.len() + 1 - i,
{
    if i + sep.len() > s.len() {
        assert(split_sep_from(s, sep, i, start) == seq![s.subrange(start, s.len() as int)]);
    } else if s.subrange(i, i + sep.len()) == sep {
        lemma_split_sep_from_piece_len(s, sep, i + sep.len(), i + sep.len());
        let rest = split_sep_from(s, sep, i + sep.len(), i + sep.len());
        assert forall|k: int| 0 <= k < split_sep_from(s, sep, i, start).len()
            implies #[trigger] split_sep_from(s, sep, i, start)[k].len() <= s.len() by {
            if k > 0 {
                assert(split_sep_from(s, sep, i, start)[k] == rest[k - 1]);
            } else {
                assert(split_sep_from(s, sep, i, start)[0] == s.subrange(start, i));
            }
        }
    } else {
        lemma_split_sep_from_piece_len(s, sep, i + 1, start);
        assert(split_sep_from(s, sep, i, start) == split_sep_from(s, sep, i + 1, start));
    }
}

/// No line is longer than the text it comes from.
pub proof fn lemma_line_len(s: Seq<char>, k: int)
    ensures
        0 <= k < lines_of(s).len() ==> lines_of(s)[k].len() <= s.len(),
{
    if 0 <= k < lines_of(s).len() {
        lemma_split_sep_from_piece_len(s, seq!['\n'], 0, 0);
        let parts = split_sep(s, seq!['\n']);
        assert(parts[k].len() <= s.len());
    }
}

pub proof fn lemma_chars_within_from_bounds(s: Seq<char>, n: int, k: int)
    requires
        0 <= k <= s.len(),
    ensures
        k <= chars_within_from(s, n, k) <= s.len(),
    decreases s.len() - k,
{
    if k < s.len() && byte_len(s.take(k + 1)) <= n {
        lemma_chars_within_from_bounds(s, n, k + 1);
    }
}

pub proof fn lemma_ascii_ws_end_bounds(s: Seq<char>, j: int)
    requires
        0 <= j <= s.len(),
    ensures
        0 <= ascii_ws_end(s, j) <= j,
    decreases j,
{
    if j > 0 && is_ascii_ws(s[j - 1]) {
        lemma_ascii_ws_end_bounds(s, j - 1);
    }
}

pub proof fn lemma_ident_start_bounds(s: Seq<char>, j: int)
    requires
        0 <= j <= s.len(),
    ensures
        0 <= ident_start(s, j) <= j,
    decreases j,
{
    if j > 0 && is_ident_char(s[j - 1]) {
        lemma_ident_start_bounds(s, j - 1);
    }
}

pub proof fn lemma_split_sep_from_nonempty(s: Seq<char>, sep: Seq<char>, i: int, start: int)
    requires
        0 <= start <= i <= s.len(),
        sep.len() > 0,
    ensures
        split_sep_from(s, sep, i, start).len() >= 1,
    decreases s.len() + 1 - i,
{
    if i + sep.len() > s.len() {
    } else if s.subrange(i, i + sep.len()) == sep {
        lemma_split_sep_from_nonempty(s, sep, i + sep.len(), i + sep.len());
    } else {
        lemma_split_sep_from_nonempty(s, sep, i + 1, start);
    }
}

pub proof fn lemma_skip_ws_from_bounds(s: Seq<char>, i: int)
    requires
        0 <= i <= s.len(),
    ensures
        i <= skip_ws_from(s, i) <= s.len(),
    decreases s.len() - i,
{
    if i < s.len() && is_ws(s[i]) {
        lemma_skip_ws_from_bounds(s, i + 1);
    }
}

pub proof fn lemma_drop_ws_before_bounds(s: Seq<char>, j: int)
    requires
        0 <= j <= s.len(),
    ensures
        0 <= drop_ws_before(s, j) <= j,
    decreases j,
{
    if j > 0 && is_ws(s[j - 1]) {
        lemma_drop_ws_before_bounds(s, j - 1);
    }
}

/// Trimming never lengthens a sequence.
pub proof fn lemma_trim_len(s: Seq<char>)
    ensures
        trim_start(s).len() <= s.len(),
        trim_end(s).len() <= s.len(),
        trim(s).len() <= s.len(),
{
    lemma_skip_ws_from_bounds(s, 0);
    lemma_drop_ws_before_bounds(s, s.len() as int);
    let t = trim_start(s);
    lemma_drop_ws_before_bounds(t, t.len() as int);
}

pub proof fn lemma_find_from_bounds(s: Seq<char>, c: char, i: int)
    requires
        0 <= i,
    ensures
        find_from(s, c, i) matches Some(k) ==> i <= k < s.len() && s[k] == c,
        find_from(s, c, i) is None ==> forall|k: int| i <= k < s.len() ==> s[k] != c,
    decreases s.len() - i,
{
    if i < s.len() && s[i] != c {
        lemma_find_from_bounds(s, c, i + 1);
    }
}

pub proof fn lemma_rfind_before_bounds(s: Seq<char>, c: char, j: int)
    requires
        j <= s.len(),
    ensures
        rfind_before(s, c, j) matches Some(k) ==> 0 <= k < j && s[k] == c,
        rfind_before(s, c, j) is None ==> forall|k: int| 0 <= k < j ==> s[k] != c,
    decreases j,
{
    if j > 0 && s[j - 1] != c {
        lemma_rfind_before_bounds(s, c, j - 1);
    }
}

// ---------------------------------------------------------------------------
// Trusted std calls
// ---------------------------------------------------------------------------

/// `String::push` of std: appends one character to the end of the string.
#[verifier::external_body]
fn push_char(s: &mut String, c: char)
    ensures
        final(s)@ == old(s)@.push(c),
{
    s.push(c);
}

// ---------------------------------------------------------------------------
// Executable helpers
// ---------------------------------------------------------------------------

/// Copies the characters of a string slice into a vector.
pub fn chars_of(s: &str) -> (v: Vec<char>)
    ensures
        v@ == s@,
{
    let mut v: Vec<char> = Vec::new();
    for c in iter: s.chars()
        invariant
            v@ == iter.seq().take(iter.index() as int),
    {
        v.push(c);
    }
    v
}

/// Builds a `String` holding the given characters.
pub fn string_of(v: &[char]) -> (s: String)
    ensures
        s@ == v@,
{
    let mut s = String::new();
    let mut i: usize = 0;
    while i < v.len()
        invariant
            i <= v.len(),
            s@ == v@.take(i as int),
        decreases v.len() - i,
    {
        push_char(&mut s, v[i]);
        i = i + 1;
        assert(v@.take(i as int) == v@.take(i - 1).push(v@[i - 1]));
    }
    assert(v@.take(v.len() as int) == v@);
    s
}

/// Appends `src` to `dst`.
pub fn push_all(dst: &mut Vec<char>, src: &[char])
    ensures
        final(dst)@ == old(dst)@ + src@,
{
    let mut i: usize = 0;
    while i < src.len()
        invariant
            i <= src.len(),
            dst@ == old(dst)@ + src@.take(i as int),
        decreases src.len() - i,
    {
        dst.push(src[i]);
        i = i + 1;
        assert(src@.take(i as int) == src@.take(i - 1).push(src@[i - 1]));
    }
    assert(src@.take(src.len() as int) == src@);
}

/// Appends the characters of `src` to `dst`.
pub fn push_str(dst: &mut Vec<char>, src: &str)
    ensures
        final(dst)@ == old(dst)@ + src@,
{
    let cs = chars_of(src);
    push_all(dst, &cs);
}

/// Copies `v[lo..hi]` into a fresh vector.
pub fn slice_of(v: &[char], lo: usize, hi: usize) -> (r: Vec<char>)
    requires
        lo <= hi <= v.len(),
    ensures
        r@ == v@.subrange(lo as int, hi as int),
{
    let mut r: Vec<char> = Vec::new();
    let mut i: usize = lo;
    while i < hi
        invariant
            lo <= i <= hi <= v.len(),
            r@ == v@.subrange(lo as int, i as int),
        decreases hi - i,
    {
        r.push(v[i]);
        i = i + 1;
        assert(v@.subrange(lo as int, i as int) == v@.subrange(lo as int, i - 1).push(v@[i - 1]));
    }
    r
}

/// Whether two character vectors hold the same characters.
pub fn chars_eq(a: &[char], b: &[char]) -> (r: bool)
    ensures
        r == (a@ == b@),
{
    if a.len() != b.len() {
        return false;
    }
    let mut i: usize = 0;
    while i < a.len()
        invariant
            a.len() == b.len(),
            i <= a.len(),
            forall|k: int| 0 <= k < i ==> a@[k] == b@[k],
        decreases a.len() - i,
    {
        if a[i] != b[i] {
            return false;
        }
        i = i + 1;
    }
    assert(a@ =~= b@);
    true
}

/// Whether `a` holds exactly the characters of `lit`.
pub fn eq_str(a: &[char], lit: &str) -> (r: bool)
    ensures
        r == (a@ == lit@),
{
    let b = chars_of(lit);
    chars_eq(a, &b)
}

/// Whether `a` begins with the characters of `lit`.
pub fn starts_with_str(a: &[char], lit: &str) -> (r: bool)
    ensures
        r == has_prefix(a@, lit@),
{
    let b = chars_of(lit);
    if b.len() > a.len() {
        return false;
    }
    let head = slice_of(a, 0, b.len());
    chars_eq(&head, &b)
}

/// Whether `a` ends with the characters of `lit`.
pub fn ends_with_str(a: &[char], lit: &str) -> (r: bool)
    ensures
        r == has_suffix(a@, lit@),
{
    let b = chars_of(lit);
    if b.len() > a.len() {
        return false;
    }
    let tail = slice_of(a, a.len() - b.len(), a.len());
    assert(tail@ == a@.skip(a@.len() - b@.len()));
    chars_eq(&tail, &b)
}

/// `char::is_whitespace`.
pub fn char_is_ws(c: char) -> (r: bool)
    ensures
        r == is_ws(c),
{
    ('\u{9}' <= c && c <= '\u{d}') || c == ' ' || c == '\u{85}' || c == '\u{a0}'
        || c == '\u{1680}' || ('\u{2000}' <= c && c <= '\u{200a}') || c == '\u{2028}'
        || c == '\u{2029}' || c == '\u{202f}' || c == '\u{205f}' || c == '\u{3000}'
}

/// `str::trim` on a character vector.
pub fn trim_chars(v: &[char]) -> (r: Vec<char>)
    ensures
        r@ == trim(v@),
{
    let mut i: usize = 0;
    while i < v.len() && char_is_ws(v[i])
        invariant
            i <= v.len(),
            skip_ws_from(v@, i as int) == skip_ws_from(v@, 0),
        decreases v.len() - i,
    {
        i = i + 1;
    }
    let start = slice_of(v, i, v.len());
    assert(start@ == trim_start(v@));
    let mut j: usize = start.len();
    while j > 0 && char_is_ws(start[j - 1])
        invariant
            j <= start.len(),
            drop_ws_before(start@, j as int) == drop_ws_before(start@, start@.len() as int),
        decreases j,
    {
        j = j - 1;
    }
    slice_of(&start, 0, j)
}

/// Index of the first `c` in `v`, if any.
pub fn find(v: &[char], c: char) -> (r: Option<usize>)
    ensures
        r matches Some(k) ==> find_char(v@, c) == Some(k as int),
        r is None ==> find_char(v@, c) is None,
{
    let mut i: usize = 0;
    while i < v.len()
        invariant
            i <= v.len(),
            find_from(v@, c, i as int) == find_char(v@, c),
        decreases v.len() - i,
    {
        if v[i] == c {
            return Some(i);
        }
        i = i + 1;
    }
    None
}

/// Index of the last `c` in `v`, if any.
pub fn rfind(v: &[char], c: char) -> (r: Option<usize>)
    ensures
        r matches Some(k) ==> rfind_char(v@, c) == Some(k as int),
        r is None ==> rfind_char(v@, c) is None,
{
    let mut j: usize = v.len();
    while j > 0
        invariant
            j <= v.len(),
            rfind_before(v@, c, j as int) == rfind_char(v@, c),
        decreases j,
    {
        if v[j - 1] == c {
            return Some(j - 1);
        }
        j = j - 1;
    }
    None
}

/// The views of a sequence of character vectors.
pub open spec fn views(v: Seq<Vec<char>>) -> Seq<Seq<char>> {
    v.map_values(|p: Vec<char>| p@)
}

/// Joins the pieces with `sep` between them.
pub fn join_chars(parts: &Vec<Vec<char>>, sep: &str) -> (r: Vec<char>)
    ensures
        r@ == join(views(parts@), sep@),
{
    let ghost vs = views(parts@);
    let mut r: Vec<char> = Vec::new();
    let mut i: usize = 0;
    while i < parts.len()
        invariant
            i <= parts.len(),
            vs == views(parts@),
            r@ == join(vs.take(i as int), sep@),
        decreases parts.len() - i,
    {
        assert(vs.take(i + 1).drop_last() == vs.take(i as int));
        if i > 0 {
            push_str(&mut r, sep);
        }
        push_all(&mut r, &parts[i]);
        i = i + 1;
    }
    assert(vs.take(parts.len() as int) == vs);
    r
}

/// Decimal representation of an unsigned number.
pub fn decimal_chars(n: u128) -> (r: Vec<char>)
    ensures
        r@ == decimal(n as nat),
    decreases n,
{
    let d = n % 10;
    let c = if d == 0 { '0' } else if d == 1 { '1' } else if d == 2 { '2' } else if d == 3 {
        '3'
    } else if d == 4 { '4' } else if d == 5 { '5' } else if d == 6 { '6' } else if d == 7 {
        '7'
    } else if d == 8 { '8' } else { '9' };
    if n < 10 {
        let mut r = Vec::new();
        r.push(c);
        r
    } else {
        let mut r = decimal_chars(n / 10);
        r.push(c);
        r
    }
}

/// Index of the first occurrence of `p` in `v`, if any.
pub fn find_chars(v: &[char], p: &[char]) -> (r: Option<usize>)
    ensures
        r matches Some(k) ==> find_sub(v@, p@) == Some(k as int) && k + p@.len() <= v@.len(),
        r is None ==> find_sub(v@, p@) is None,
{
    let n = v.len();
    let m = p.len();
    if m > n {
        return None;
    }
    let lim = n - m;
    let mut i: usize = 0;
    while i <= lim
        invariant
            m == p@.len(),
            n == v@.len(),
            m <= n,
            lim == n - m,
            i <= lim,
            find_sub_from(v@, p@, i as int) == find_sub(v@, p@),
        decreases lim - i,
    {
        let w = slice_of(v, i, i + m);
        if chars_eq(&w, p) {
            return Some(i);
        }
        if i == lim {
            assert(find_sub_from(v@, p@, i + 1) is None);
            return None;
        }
        i = i + 1;
    }
    None
}

/// Index of the first occurrence of `lit` in `v`, if any.
pub fn find_str(v: &[char], lit: &str) -> (r: Option<usize>)
    ensures
        r matches Some(k) ==> find_sub(v@, lit@) == Some(k as int) && k + lit@.len() <= v@.len(),
        r is None ==> find_sub(v@, lit@) is None,
{
    let p = chars_of(lit);
    find_chars(v, &p)
}

/// Whether `v` starts with `p`.
pub fn starts_with_chars(v: &[char], p: &[char]) -> (r: bool)
    ensures
        r == has_prefix(v@, p@),
{
    if p.len() > v.len() {
        return false;
    }
    let w = slice_of(v, 0, p.len());
    chars_eq(&w, p)
}

/// `str::split` of `v` by the non-empty separator `sep`.
pub fn split_str(v: &[char], sep: &str) -> (r: Vec<Vec<char>>)
    requires
        sep@.len() > 0,
    ensures
        views(r@) == split_sep(v@, sep@),
{
    let p = chars_of(sep);
    let n = v.len();
    let m = p.len();
    let mut out: Vec<Vec<char>> = Vec::new();
    let mut start: usize = 0;
    let mut i: usize = 0;
    if m <= n {
        let lim = n - m;
        while i <= lim
            invariant
                p@ == sep@,
                m == p@.len(),
                n == v@.len(),
                m > 0,
                m <= n,
                lim == n - m,
                0 <= start <= i <= n,
                views(out@) + split_sep_from(v@, p@, i as int, start as int) == split_sep(v@, p@),
            decreases n - i,
        {
            let w = slice_of(v, i, i + m);
            if chars_eq(&w, &p) {
                let piece = slice_of(v, start, i);
                let ghost before = views(out@);
                out.push(piece);
                assert(views(out@) == before.push(piece@));
                assert(views(out@) + split_sep_from(v@, p@, (i + m) as int, (i + m) as int)
                    == before + (seq![piece@] + split_sep_from(v@, p@, (i + m) as int, (i + m) as int)));
                i = i + m;
                start = i;
            } else {
                i = i + 1;
            }
        }
    }
    let piece = slice_of(v, start, n);
    let ghost before = views(out@);
    out.push(piece);
    assert(views(out@) == before.push(piece@));
    out
}

/// Number of bytes of the UTF-8 encoding of `c`.
pub fn char_width(c: char) -> (w: usize)
    ensures
        w == utf8_width(c),
{
    if (c as u32) < 0x80 {
        1
    } else if (c as u32) < 0x800 {
        2
    } else if (c as u32) < 0x10000 {
        3
    } else {
        4
    }
}

/// Number of leading characters of `v` that fit in `n` bytes, together with
/// their byte count.
pub fn chars_within_bytes(v: &[char], n: usize) -> (r: (usize, usize))
    ensures
        r.0 == chars_within(v@, n as int),
        r.1 == byte_len(v@.take(r.0 as int)),
        r.0 <= v@.len(),
{
    let mut k: usize = 0;
    let mut used: usize = 0;
    while k < v.len()
        invariant
            k <= v.len(),
            used == byte_len(v@.take(k as int)),
            used <= n,
            chars_within_from(v@, n as int, k as int) == chars_within_from(v@, n as int, 0),
        decreases v.len() - k,
    {
        let w = char_width(v[k]);
        proof {
            lemma_byte_len_take_step(v@, k as int);
        }
        if w > n - used {
            return (k, used);
        }
        used = used + w;
        k = k + 1;
    }
    (k, used)
}

/// The line of `v` at index `idx`, as `str::lines` numbers them.
pub fn line_at(v: &[char], idx: usize) -> (r: Option<Vec<char>>)
    ensures
        r matches Some(l) ==> idx < lines_of(v@).len() && l@ == lines_of(v@)[idx as int],
        r is None ==> idx >= lines_of(v@).len(),
{
    proof {
        reveal_strlit("\n");
        assert("\n"@ =~= seq!['\n']);
        lemma_split_sep_from_nonempty(v@, seq!['\n'], 0, 0);
    }
    let parts = split_str(v, "\n");
    let n = parts.len();
    let count = if parts[n - 1].len() == 0 {
        n - 1
    } else {
        n
    };
    assert(views(parts@)[n - 1] == parts@[n - 1]@);
    if idx >= count {
        return None;
    }
    let piece = &parts[idx];
    assert(views(parts@)[idx as int] == piece@);
    if idx < n - 1 && piece.len() > 0 && piece[piece.len() - 1] == '\r' {
        Some(slice_of(piece, 0, piece.len() - 1))
    } else {
        Some(slice_of(piece, 0, piece.len()))
    }
}

/// Whether `c` is ASCII whitespace.
pub fn char_is_ascii_ws(c: char) -> (r: bool)
    ensures
        r == is_ascii_ws(c),
{
    c == ' ' || c == '\t' || c == '\n' || c == '\u{c}' || c == '\r'
}

/// Whether `c` is an ASCII letter, digit or underscore.
pub fn char_is_ident(c: char) -> (r: bool)
    ensures
        r == is_ident_char(c),
{
    ('a' <= c && c <= 'z') || ('A' <= c && c <= 'Z') || ('0' <= c && c <= '9') || c == '_'
}

/// The bounds of the identifier that ends `v`, trailing ASCII whitespace ignored.
pub fn last_ident_range(v: &[char]) -> (r: (usize, usize))
    ensures
        r.0 <= r.1 <= v@.len(),
        r.1 == ascii_ws_end(v@, v@.len() as int),
        r.0 == ident_start(v@, r.1 as int),
        v@.subrange(r.0 as int, r.1 as int) == last_identifier(v@),
{
    let mut end = v.len();
    while end > 0 && char_is_ascii_ws(v[end - 1])
        invariant
            end <= v.len(),
            ascii_ws_end(v@, end as int) == ascii_ws_end(v@, v@.len() as int),
        decreases end,
    {
        end = end - 1;
    }
    let mut start = end;
    while start > 0 && char_is_ident(v[start - 1])
        invariant
            start <= end <= v.len(),
            end == ascii_ws_end(v@, v@.len() as int),
            ident_start(v@, start as int) == ident_start(v@, end as int),
        decreases start,
    {
        start = start - 1;
    }
    (start, end)
}

/// Whether `a` sorts before `b` (see `label_lt`).
pub fn chars_lt(a: &[char], b: &[char]) -> (r: bool)
    ensures
        r == label_lt(a@, b@),
{
    let mut i: usize = 0;
    assert(a@.skip(0) =~= a@);
    assert(b@.skip(0) =~= b@);
    while i < a.len() && i < b.len()
        invariant
            i <= a.len(),
            i <= b.len(),
            label_lt(a@.skip(i as int), b@.skip(i as int)) == label_lt(a@, b@),
        decreases a.len() - i,
    {
        assert(a@.skip(i as int)[0] == a@[i as int]);
        assert(b@.skip(i as int)[0] == b@[i as int]);
        if a[i] != b[i] {
            return a[i] < b[i];
        }
        assert(a@.skip(i as int).drop_first() =~= a@.skip(i as int + 1));
        assert(b@.skip(i as int).drop_first() =~= b@.skip(i as int + 1));
        i = i + 1;
    }
    i < b.len()
}

/// The lines of `v`, as `str::lines` gives them.
pub fn lines_vec(v: &[char]) -> (r: Vec<Vec<char>>)
    ensures
        views(r@) == lines_of(v@),
{
    proof {
        reveal_strlit("\n");
        assert("\n"@ =~= seq!['\n']);
        lemma_split_sep_from_nonempty(v@, seq!['\n'], 0, 0);
    }
    let parts = split_str(v, "\n");
    let ghost pv = views(parts@);
    let n = parts.len();
    let count = if parts[n - 1].len() == 0 {
        n - 1
    } else {
        n
    };
    assert(pv[n - 1] == parts@[n - 1]@);
    let ghost want = lines_of(v@);
    assert(want.len() == count);
    let mut out: Vec<Vec<char>> = Vec::new();
    let mut i: usize = 0;
    while i < count
        invariant
            i <= count,
            count <= n,
            n == parts@.len(),
            pv == views(parts@),
            pv == split_sep(v@, seq!['\n']),
            want == lines_of(v@),
            want.len() == count,
            views(out@) == want.take(i as int),
        decreases count - i,
    {
        let piece = &parts[i];
        assert(pv[i as int] == piece@);
        let line = if i < n - 1 && piece.len() > 0 && piece[piece.len() - 1] == '\r' {
            slice_of(piece, 0, piece.len() - 1)
        } else {
            slice_of(piece, 0, piece.len())
        };
        assert(line@ == want[i as int]);
        let ghost before = views(out@);
        out.push(line);
        assert(views(out@) =~= before.push(line@));
        assert(want.take(i as int + 1) =~= want.take(i as int).push(want[i as int]));
        i = i + 1;
    }
    assert(want.take(count as int) =~= want);
    out
}

} // verus!
