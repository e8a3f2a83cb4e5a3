//! Character-sequence helpers that the parsers share.
//!
//! Text is handled as `Vec<char>` inside the library; every helper states its
//! result over the mathematical `Seq<char>` view, mirroring the `str`
//! operation of the standard library whose behaviour it reproduces.

use vstd::prelude::*;
use vstd::std_specs::iter::IteratorSpec;

verus! {

// ───────────────────────── specifications ─────────────────────────

/// Unicode `White_Space`, the set that `char::is_whitespace` tests.
pub open spec fn is_white_space(c: char) -> bool {
    ||| ('\t' <= c && c <= '\r')
    ||| c == ' '
    ||| c == '\u{85}'
    ||| c == '\u{a0}'
    ||| c == '\u{1680}'
    ||| ('\u{2000}' <= c && c <= '\u{200a}')
    ||| c == '\u{2028}'
    ||| c == '\u{2029}'
    ||| c == '\u{202f}'
    ||| c == '\u{205f}'
    ||| c == '\u{3000}'
}

pub open spec fn is_ascii_char(c: char) -> bool {
    (c as u32) < 128
}

pub open spec fn is_ascii_seq(s: Seq<char>) -> bool {
    forall|i: int| 0 <= i < s.len() ==> is_ascii_char(#[trigger] s[i])
}

pub open spec fn is_ascii_digit(c: char) -> bool {
    '0' <= c && c <= '9'
}

/// ASCII lower-casing of one character.
pub open spec fn ascii_lower_char(c: char) -> char {
    if 'A' <= c && c <= 'Z' {
        ((c as u32) + 32) as char
    } else {
        c
    }
}

pub open spec fn ascii_lower(s: Seq<char>) -> Seq<char> {
    s.map_values(|c: char| ascii_lower_char(c))
}

/// The views of a sequence of character vectors.
pub open spec fn views(v: Seq<Vec<char>>) -> Seq<Seq<char>> {
    v.map_values(|x: Vec<char>| x@)
}

/// Index of the first character that is not white space, at or after `i`.
pub open spec fn skip_ws_from(s: Seq<char>, i: int) -> int
    decreases s.len() - i,
{
    if i < 0 || i >= s.len() {
        s.len() as int
    } else if is_white_space(s[i]) {
        skip_ws_from(s, i + 1)
    } else {
        i
    }
}

/// End of the text once trailing white space before `j` is dropped.
pub open spec fn back_ws_from(s: Seq<char>, j: int) -> int
    decreases j,
{
    if j <= 0 || j > s.len() {
        0
    } else if is_white_space(s[j - 1]) {
        back_ws_from(s, j - 1)
    } else {
        j
    }
}

/// `str::trim_start`.
pub open spec fn trim_start(s: Seq<char>) -> Seq<char> {
    s.skip(skip_ws_from(s, 0))
}

/// `str::trim_end`.
pub open spec fn trim_end(s: Seq<char>) -> Seq<char> {
    s.take(back_ws_from(s, s.len() as int))
}

/// `str::trim`.
pub open spec fn trim(s: Seq<char>) -> Seq<char> {
    trim_end(trim_start(s))
}

/// `p` occurs in `s` at position `i`.
pub open spec fn matches_at(s: Seq<char>, p: Seq<char>, i: int) -> bool {
    0 <= i && i + p.len() <= s.len() && s.subrange(i, i + p.len()) == p
}

/// The first occurrence of `p` in `s` at or after `i`.
pub open spec fn find_from(s: Seq<char>, p: Seq<char>, i: int) -> Option<int>
    decreases s.len() + 1 - i,
{
    if i < 0 || i > s.len() {
        None
    } else if matches_at(s, p, i) {
        Some(i)
    } else {
        find_from(s, p, i + 1)
    }
}

/// `str::find` with a string pattern.
pub open spec fn find(s: Seq<char>, p: Seq<char>) -> Option<int> {
    find_from(s, p, 0)
}

/// `str::contains` with a string pattern.
pub open spec fn contains(s: Seq<char>, p: Seq<char>) -> bool {
    find(s, p) is Some
}

pub open spec fn starts_with(s: Seq<char>, p: Seq<char>) -> bool {
    p.len() <= s.len() && s.take(p.len() as int) == p
}

pub open spec fn ends_with(s: Seq<char>, p: Seq<char>) -> bool {
    p.len() <= s.len() && s.skip(s.len() - p.len()) == p
}

/// `str::strip_prefix`.
pub open spec fn strip_prefix(s: Seq<char>, p: Seq<char>) -> Option<Seq<char>> {
    if starts_with(s, p) {
        Some(s.skip(p.len() as int))
    } else {
        None
    }
}

/// `str::strip_suffix`.
pub open spec fn strip_suffix(s: Seq<char>, p: Seq<char>) -> Option<Seq<char>> {
    if ends_with(s, p) {
        Some(s.take(s.len() - p.len()))
    } else {
        None
    }
}

/// `str::split_once` with a string pattern.
pub open spec fn split_once(s: Seq<char>, p: Seq<char>) -> Option<(Seq<char>, Seq<char>)> {
    match find(s, p) {
        Some(i) => Some((s.take(i), s.skip(i + p.len()))),
        None => None,
    }
}

/// `str::rfind` with a character pattern.
pub open spec fn rfind_char(s: Seq<char>, c: char) -> Option<int>
    decreases s.len(),
{
    if s.len() == 0 {
        None
    } else if s.last() == c {
        Some(s.len() - 1)
    } else {
        rfind_char(s.drop_last(), c)
    }
}

/// Pieces of `s` cut at every `sep`, with the piece still being read.
pub open spec fn split_fold(s: Seq<char>, sep: char) -> (Seq<Seq<char>>, Seq<char>)
    decreases s.len(),
{
    if s.len() == 0 {
        (Seq::empty(), Seq::empty())
    } else {
        let (done, cur) = split_fold(s.drop_last(), sep);
        if s.last() == sep {
            (done.push(cur), Seq::empty())
        } else {
            (done, cur.push(s.last()))
        }
    }
}

/// `str::split` with a character pattern: always at least one piece.
pub open spec fn split_char(s: Seq<char>, sep: char) -> Seq<Seq<char>> {
    split_fold(s, sep).0.push(split_fold(s, sep).1)
}

pub open spec fn strip_cr(l: Seq<char>) -> Seq<char> {
    if l.len() > 0 && l.last() == '\r' {
        l.drop_last()
    } else {
        l
    }
}

/// Lines of `s` read so far, with the line still being read.
pub open spec fn lines_fold(s: Seq<char>) -> (Seq<Seq<char>>, Seq<char>)
    decreases s.len(),
{
    if s.len() == 0 {
        (Seq::empty(), Seq::empty())
    } else {
        let (done, cur) = lines_fold(s.drop_last());
        if s.last() == '\n' {
            (done.push(strip_cr(cur)), Seq::empty())
        } else {
            (done, cur.push(s.last()))
        }
    }
}

/// `str::lines`: pieces ended by `\n` (a `\r` before it is dropped); a last
/// piece without `\n` counts when it is not empty.
pub open spec fn lines(s: Seq<char>) -> Seq<Seq<char>> {
    let (done, cur) = lines_fold(s);
    if cur.len() > 0 {
        done.push(cur)
    } else {
        done
    }
}

/// Words of `s` read so far, with the word still being read.
pub open spec fn words_fold(s: Seq<char>) -> (Seq<Seq<char>>, Seq<char>)
    decreases s.len(),
{
    if s.len() == 0 {
        (Seq::empty(), Seq::empty())
    } else {
        let (done, cur) = words_fold(s.drop_last());
        if is_white_space(s.last()) {
            if cur.len() > 0 {
                (done.push(cur), Seq::empty())
            } else {
                (done, Seq::empty())
            }
        } else {
            (done, cur.push(s.last()))
        }
    }
}

/// `str::split_whitespace`.
pub open spec fn words(s: Seq<char>) -> Seq<Seq<char>> {
    let (done, cur) = words_fold(s);
    if cur.len() > 0 {
        done.push(cur)
    } else {
        done
    }
}

/// `str::replace` with a non-empty string pattern.
pub open spec fn replace_all(s: Seq<char>, p: Seq<char>, r: Seq<char>) -> Seq<char>
    decreases s.len(),
{
    if p.len() == 0 {
        s
    } else {
        match find(s, p) {
            Some(i) => {
                proof {
                    lemma_find_in_bounds(s, p, 0);
                }
                s.take(i) + r + replace_all(s.skip(i + p.len()), p, r)
            },
            None => s,
        }
    }
}

/// Every occurrence of the character `c` replaced by the text `r`.
pub open spec fn replace_char(s: Seq<char>, c: char, r: Seq<char>) -> Seq<char>
    decreases s.len(),
{
    if s.len() == 0 {
        s
    } else {
        replace_char(s.drop_last(), c, r) + if s.last() == c {
            r
        } else {
            seq![s.last()]
        }
    }
}

pub open spec fn digit_char(d: nat) -> char {
    ((d % 10) + 48) as char
}

/// Decimal digits of `n`, as `Display` writes an unsigned integer.
pub open spec fn decimal(n: nat) -> Seq<char>
    decreases n,
{
    if n < 10 {
        seq![digit_char(n)]
    } else {
        decimal(n / 10).push(digit_char(n % 10))
    }
}

/// Decimal text of a signed integer, as `Display` writes it.
pub open spec fn signed_decimal(n: int) -> Seq<char> {
    if n < 0 {
        seq!['-'] + decimal((-n) as nat)
    } else {
        decimal(n as nat)
    }
}

// ───────────────────────── names for Unicode case tables ─────────────────────────

/// What `str::to_lowercase` returns for a text (Unicode `Lowercase` mapping).
pub uninterp spec fn lowercase(s: Seq<char>) -> Seq<char>;

/// Whether `char::is_uppercase` holds (Unicode `Uppercase` property).
pub uninterp spec fn is_uppercase(c: char) -> bool;

/// Whether `char::is_lowercase` holds (Unicode `Lowercase` property).
pub uninterp spec fn is_lowercase(c: char) -> bool;

/// The characters that `char::to_uppercase` yields.
pub uninterp spec fn uppercase(c: char) -> Seq<char>;

/// Whether `char::is_alphanumeric` holds (Unicode `Alphabetic` or `Numeric`).
pub uninterp spec fn is_alphanumeric(c: char) -> bool;

/// `str::to_lowercase` on the text held in `s`.  The result is named by
/// `lowercase`; on ASCII text, which the Unicode tables map letter by letter,
/// it is the ASCII lower-casing.  Nothing more is stated of other text.
#[verifier::external_body]
pub(crate) fn to_lowercase(s: &Vec<char>) -> (res: Vec<char>)
    ensures
        res@ == lowercase(s@),
        is_ascii_seq(s@) ==> res@ == ascii_lower(s@),
{
    s.iter().collect::<String>().to_lowercase().chars().collect()
}

/// `char::is_uppercase`; the result is named by `is_uppercase`.
#[verifier::external_body]
pub(crate) fn char_is_uppercase(c: char) -> (res: bool)
    ensures
        res == is_uppercase(c),
{
    c.is_uppercase()
}

/// `char::is_lowercase`; the result is named by `is_lowercase`.
#[verifier::external_body]
pub(crate) fn char_is_lowercase(c: char) -> (res: bool)
    ensures
        res == is_lowercase(c),
{
    c.is_lowercase()
}

/// `char::to_uppercase`, collected; the result is named by `uppercase`.
#[verifier::external_body]
pub(crate) fn char_to_uppercase(c: char) -> (res: Vec<char>)
    ensures
        res@ == uppercase(c),
{
    c.to_uppercase().collect()
}

/// `char::is_alphanumeric`; the result is named by `is_alphanumeric`.
#[verifier::external_body]
pub(crate) fn char_is_alphanumeric(c: char) -> (res: bool)
    ensures
        res == is_alphanumeric(c),
{
    c.is_alphanumeric()
}

/// `String::push`: appends one character to the string.
#[verifier::external_body]
pub(crate) fn push_char(s: &mut String, c: char)
    ensures
        final(s)@ == old(s)@.push(c),
{
    s.push(c);
}

// ───────────────────────── executable helpers ─────────────────────────

/// The characters of a string slice, in order.
pub fn chars_of(s: &str) -> (res: Vec<char>)
    ensures
        res@ == s@,
{
    broadcast use vstd::string::group_string_axioms;

    let mut it = s.chars();
    let mut res: Vec<char> = Vec::new();
    let ghost all = s@;
    loop
        invariant
            it.remaining() == all.skip(res@.len() as int),
            res@ == all.take(res@.len() as int),
            res@.len() <= all.len(),
            it.obeys_prophetic_iter_laws(),
        ensures
            res@ == all,
        decreases all.len() - res@.len(),
    {
        match it.next() {
            Some(c) => {
                res.push(c);
                assert(all.take(res@.len() as int) =~= all.take(res@.len() - 1).push(c));
            },
            None => {
                assert(all.take(all.len() as int) =~= all);
                break;
            },
        }
    }
    res
}

/// A `String` holding the given characters.
pub fn string_of(v: &Vec<char>) -> (res: String)
    ensures
        res@ == v@,
{
    let mut res = String::new();
    let mut i: usize = 0;
    while i < v.len()
        invariant
            i <= v.len(),
            res@ == v@.take(i as int),
        decreases v.len() - i,
    {
        push_char(&mut res, v[i]);
        assert(v@.take(i + 1) =~= v@.take(i as int).push(v@[i as int]));
        i = i + 1;
    }
    assert(v@.take(v.len() as int) =~= v@);
    res
}

/// Equality of two character sequences.
pub fn same(a: &Vec<char>, b: &Vec<char>) -> (res: bool)
    ensures
        res == (a@ == b@),
{
    if a.len() != b.len() {
        return false;
    }
    let mut i: usize = 0;
    while i < a.len()
        invariant
            i <= a.len(),
            a.len() == b.len(),
            forall|k: int| 0 <= k < i ==> a@[k] == b@[k],
        decreases a.len() - i,
    {
        if a[i] != b[i] {
            return false;
        }
        i = i + 1;
    }
    assert(a@ =~= b@);
    true
}

/// Whether the characters equal the text of `lit`.
pub fn is_lit(a: &Vec<char>, lit: &str) -> (res: bool)
    ensures
        res == (a@ == lit@),
{
    let l = chars_of(lit);
    same(a, &l)
}

/// The characters `from..to` of `s`.
pub fn slice(s: &Vec<char>, from: usize, to: usize) -> (res: Vec<char>)
    requires
        from <= to <= s.len(),
    ensures
        res@ == s@.subrange(from as int, to as int),
{
    let mut res: Vec<char> = Vec::new();
    let mut i = from;
    while i < to
        invariant
            from <= i <= to,
            to <= s.len(),
            res@ == s@.subrange(from as int, i as int),
        decreases to - i,
    {
        res.push(s[i]);
        assert(s@.subrange(from as int, i + 1) =~= s@.subrange(from as int, i as int).push(
            s@[i as int],
        ));
        i = i + 1;
    }
    res
}

/// `a` followed by `b`.
pub fn concat(a: &Vec<char>, b: &Vec<char>) -> (res: Vec<char>)
    ensures
        res@ == a@ + b@,
{
    let mut res = slice(a, 0, a.len());
    let mut i: usize = 0;
    assert(a@.subrange(0, a@.len() as int) =~= a@);
    while i < b.len()
        invariant
            i <= b.len(),
            res@ == a@ + b@.take(i as int),
        decreases b.len() - i,
    {
        res.push(b[i]);
        assert(a@ + b@.take(i + 1) =~= (a@ + b@.take(i as int)).push(b@[i as int]));
        i = i + 1;
    }
    assert(b@.take(b.len() as int) =~= b@);
    res
}

/// `a` followed by the text of `lit`.
pub fn concat_lit(a: &Vec<char>, lit: &str) -> (res: Vec<char>)
    ensures
        res@ == a@ + lit@,
{
    let l = chars_of(lit);
    concat(a, &l)
}

/// `char::is_whitespace`.
pub fn is_white_space_char(c: char) -> (res: bool)
    ensures
        res == is_white_space(c),
{
    ('\t' <= c && c <= '\r') || c == ' ' || c == '\u{85}' || c == '\u{a0}' || c == '\u{1680}' || (
    '\u{2000}' <= c && c <= '\u{200a}') || c == '\u{2028}' || c == '\u{2029}' || c == '\u{202f}'
        || c == '\u{205f}' || c == '\u{3000}'
}

/// `str::trim_start`.
pub fn trim_start_chars(s: &Vec<char>) -> (res: Vec<char>)
    ensures
        res@ == trim_start(s@),
{
    let mut i: usize = 0;
    while i < s.len() && is_white_space_char(s[i])
        invariant
            i <= s.len(),
            skip_ws_from(s@, i as int) == skip_ws_from(s@, 0),
        decreases s.len() - i,
    {
        i = i + 1;
    }
    slice(s, i, s.len())
}

/// `str::trim_end`.
pub fn trim_end_chars(s: &Vec<char>) -> (res: Vec<char>)
    ensures
        res@ == trim_end(s@),
{
    let mut j: usize = s.len();
    while j > 0 && is_white_space_char(s[j - 1])
        invariant
            j <= s.len(),
            back_ws_from(s@, j as int) == back_ws_from(s@, s@.len() as int),
        decreases j,
    {
        j = j - 1;
    }
    slice(s, 0, j)
}

/// `str::trim`.
pub fn trim_chars(s: &Vec<char>) -> (res: Vec<char>)
    ensures
        res@ == trim(s@),
{
    let t = trim_start_chars(s);
    trim_end_chars(&t)
}

/// Whether `p` occurs in `s` at position `i`.
pub fn matches_at_exec(s: &Vec<char>, p: &Vec<char>, i: usize) -> (res: bool)
    ensures
        res == matches_at(s@, p@, i as int),
{
    if i > s.len() || p.len() > s.len() - i {
        return false;
    }
    let mut j: usize = 0;
    while j < p.len()
        invariant
            j <= p.len(),
            i + p.len() <= s.len(),
            forall|k: int| 0 <= k < j ==> s@[i + k] == p@[k],
        decreases p.len() - j,
    {
        if s[i + j] != p[j] {
            assert(s@.subrange(i as int, i + p.len())[j as int] != p@[j as int]);
            return false;
        }
        j = j + 1;
    }
    assert(s@.subrange(i as int, i + p.len()) =~= p@);
    true
}

/// The first occurrence of `p` in `s` at or after `from`.
pub fn find_from_exec(s: &Vec<char>, p: &Vec<char>, from: usize) -> (res: Option<usize>)
    ensures
        res matches Some(i) ==> find_from(s@, p@, from as int) == Some(i as int),
        res is None ==> find_from(s@, p@, from as int) is None,
{
    if from > s.len() {
        return None;
    }
    let mut i = from;
    while i <= s.len()
        invariant
            from <= i <= s.len() + 1,
            find_from(s@, p@, from as int) == find_from(s@, p@, i as int),
        decreases s.len() + 1 - i,
    {
        if matches_at_exec(s, p, i) {
            return Some(i);
        }
        if i == s.len() {
            assert(find_from(s@, p@, i + 1) is None);
            return None;
        }
        i = i + 1;
    }
    None
}

/// `str::find` with a string pattern.
pub fn find_exec(s: &Vec<char>, p: &Vec<char>) -> (res: Option<usize>)
    ensures
        res matches Some(i) ==> find(s@, p@) == Some(i as int),
        res is None ==> find(s@, p@) is None,
{
    find_from_exec(s, p, 0)
}

/// `str::contains` with a string pattern.
pub fn contains_exec(s: &Vec<char>, p: &Vec<char>) -> (res: bool)
    ensures
        res == contains(s@, p@),
{
    find_exec(s, p).is_some()
}

/// `str::contains` with the text of `lit` as pattern.
pub fn contains_lit(s: &Vec<char>, lit: &str) -> (res: bool)
    ensures
        res == contains(s@, lit@),
{
    let p = chars_of(lit);
    contains_exec(s, &p)
}

/// `str::starts_with` with the text of `lit` as pattern.
pub fn starts_with_lit(s: &Vec<char>, lit: &str) -> (res: bool)
    ensures
        res == starts_with(s@, lit@),
{
    let p = chars_of(lit);
    let r = matches_at_exec(s, &p, 0);
    assert(s@.subrange(0, p@.len() as int) =~= s@.take(p@.len() as int));
    r
}

/// `str::ends_with` with the text of `lit` as pattern.
pub fn ends_with_lit(s: &Vec<char>, lit: &str) -> (res: bool)
    ensures
        res == ends_with(s@, lit@),
{
    let p = chars_of(lit);
    if p.len() > s.len() {
        return false;
    }
    let r = matches_at_exec(s, &p, s.len() - p.len());
    assert(s@.subrange(s.len() - p.len(), s.len() as int) =~= s@.skip(s.len() - p.len()));
    r
}

/// `str::strip_prefix` with the text of `lit` as pattern.
pub fn strip_prefix_lit(s: &Vec<char>, lit: &str) -> (res: Option<Vec<char>>)
    ensures
        res matches Some(r) ==> strip_prefix(s@, lit@) == Some(r@),
        res is None ==> strip_prefix(s@, lit@) is None,
{
    if starts_with_lit(s, lit) {
        let n = chars_of(lit).len();
        Some(slice(s, n, s.len()))
    } else {
        None
    }
}

/// `str::strip_suffix` with the text of `lit` as pattern.
pub fn strip_suffix_lit(s: &Vec<char>, lit: &str) -> (res: Option<Vec<char>>)
    ensures
        res matches Some(r) ==> strip_suffix(s@, lit@) == Some(r@),
        res is None ==> strip_suffix(s@, lit@) is None,
{
    if ends_with_lit(s, lit) {
        let n = chars_of(lit).len();
        Some(slice(s, 0, s.len() - n))
    } else {
        None
    }
}

/// `str::split_once` with the text of `lit` as pattern.
pub fn split_once_lit(s: &Vec<char>, lit: &str) -> (res: Option<(Vec<char>, Vec<char>)>)
    ensures
        res matches Some((a, b)) ==> split_once(s@, lit@) == Some((a@, b@)),
        res is None ==> split_once(s@, lit@) is None,
{
    let p = chars_of(lit);
    match find_exec(s, &p) {
        Some(i) => {
            proof {
                lemma_find_in_bounds(s@, p@, 0);
                assert(matches_at(s@, p@, i as int));
            }
            let n = s.len();
            let a = slice(s, 0, i);
            let b = slice(s, i + p.len(), n);
            assert(a@ =~= s@.take(i as int));
            assert(b@ =~= s@.skip(i + p@.len()));
            Some((a, b))
        },
        None => None,
    }
}

/// A found occurrence lies inside the text.
pub proof fn lemma_find_in_bounds(s: Seq<char>, p: Seq<char>, i: int)
    ensures
        find_from(s, p, i) matches Some(k) ==> i <= k && matches_at(s, p, k),
    decreases s.len() + 1 - i,
{
    if i < 0 || i > s.len() {
    } else if matches_at(s, p, i) {
    } else {
        lemma_find_in_bounds(s, p, i + 1);
    }
}

/// An occurrence at or after `j` is found.
pub proof fn lemma_find_complete(s: Seq<char>, p: Seq<char>, j: int, i: int)
    requires
        0 <= j <= i,
        matches_at(s, p, i),
    ensures
        find_from(s, p, j) is Some,
    decreases i - j,
{
    if !matches_at(s, p, j) {
        lemma_find_complete(s, p, j + 1, i);
    }
}

/// `str::rfind` with a character pattern.
pub fn rfind_char_exec(s: &Vec<char>, c: char) -> (res: Option<usize>)
    ensures
        res matches Some(i) ==> rfind_char(s@, c) == Some(i as int) && i < s.len() && s@[i as int]
            == c,
        res is None ==> rfind_char(s@, c) is None,
{
    let mut j: usize = s.len();
    assert(s@.take(s.len() as int) =~= s@);
    while j > 0
        invariant
            j <= s.len(),
            rfind_char(s@, c) == rfind_char(s@.take(j as int), c),
        decreases j,
    {
        assert(s@.take(j as int).drop_last() =~= s@.take(j - 1));
        if s[j - 1] == c {
            return Some(j - 1);
        }
        j = j - 1;
    }
    None
}

/// `str::split` with a character pattern.
pub fn split_char_exec(s: &Vec<char>, sep: char) -> (res: Vec<Vec<char>>)
    ensures
        views(res@) == split_char(s@, sep),
{
    let mut done: Vec<Vec<char>> = Vec::new();
    let mut cur: Vec<char> = Vec::new();
    let mut i: usize = 0;
    while i < s.len()
        invariant
            i <= s.len(),
            views(done@) == split_fold(s@.take(i as int), sep).0,
            cur@ == split_fold(s@.take(i as int), sep).1,
        decreases s.len() - i,
    {
        let c = s[i];
        assert(s@.take(i + 1).drop_last() =~= s@.take(i as int));
        if c == sep {
            let ghost old_done = done@;
            done.push(cur);
            cur = Vec::new();
            assert(views(done@) =~= views(old_done).push(done@.last()@));
        } else {
            cur.push(c);
        }
        i = i + 1;
    }
    assert(s@.take(s.len() as int) =~= s@);
    let ghost old_done = done@;
    done.push(cur);
    assert(views(done@) =~= views(old_done).push(done@.last()@));
    done
}

/// `str::lines`.
pub fn lines_exec(s: &Vec<char>) -> (res: Vec<Vec<char>>)
    ensures
        views(res@) == lines(s@),
{
    let mut done: Vec<Vec<char>> = Vec::new();
    let mut cur: Vec<char> = Vec::new();
    let mut i: usize = 0;
    while i < s.len()
        invariant
            i <= s.len(),
            views(done@) == lines_fold(s@.take(i as int)).0,
            cur@ == lines_fold(s@.take(i as int)).1,
        decreases s.len() - i,
    {
        let c = s[i];
        assert(s@.take(i + 1).drop_last() =~= s@.take(i as int));
        if c == '\n' {
            let l = if cur.len() > 0 && cur[cur.len() - 1] == '\r' {
                slice(&cur, 0, cur.len() - 1)
            } else {
                slice(&cur, 0, cur.len())
            };
            assert(l@ =~= strip_cr(cur@));
            let ghost old_done = done@;
            done.push(l);
            cur = Vec::new();
            assert(views(done@) =~= views(old_done).push(done@.last()@));
        } else {
            cur.push(c);
        }
        i = i + 1;
    }
    assert(s@.take(s.len() as int) =~= s@);
    if cur.len() > 0 {
        let ghost old_done = done@;
        done.push(cur);
        assert(views(done@) =~= views(old_done).push(done@.last()@));
    }
    done
}

/// `str::split_whitespace`.
pub fn words_exec(s: &Vec<char>) -> (res: Vec<Vec<char>>)
    ensures
        views(res@) == words(s@),
{
    let mut done: Vec<Vec<char>> = Vec::new();
    let mut cur: Vec<char> = Vec::new();
    let mut i: usize = 0;
    while i < s.len()
        invariant
            i <= s.len(),
            views(done@) == words_fold(s@.take(i as int)).0,
            cur@ == words_fold(s@.take(i as int)).1,
        decreases s.len() - i,
    {
        let c = s[i];
        assert(s@.take(i + 1).drop_last() =~= s@.take(i as int));
        if is_white_space_char(c) {
            if cur.len() > 0 {
                let ghost old_done = done@;
                done.push(cur);
                assert(views(done@) =~= views(old_done).push(done@.last()@));
            }
            cur = Vec::new();
        } else {
            cur.push(c);
        }
        i = i + 1;
    }
    assert(s@.take(s.len() as int) =~= s@);
    if cur.len() > 0 {
        let ghost old_done = done@;
        done.push(cur);
        assert(views(done@) =~= views(old_done).push(done@.last()@));
    }
    done
}

/// `str::replace` with a non-empty string pattern.
pub fn replace_all_exec(s: &Vec<char>, p: &Vec<char>, r: &Vec<char>) -> (res: Vec<char>)
    requires
        p.len() > 0,
    ensures
        res@ == replace_all(s@, p@, r@),
    decreases s.len(),
{
    match find_exec(s, p) {
        Some(i) => {
            proof {
                lemma_find_in_bounds(s@, p@, 0);
                assert(matches_at(s@, p@, i as int));
            }
            let n = s.len();
            let head = slice(s, 0, i);
            let tail = slice(s, i + p.len(), n);
            assert(tail@ =~= s@.skip(i + p@.len()));
            let rest = replace_all_exec(&tail, p, r);
            let hr = concat(&head, r);
            let res = concat(&hr, &rest);
            assert(head@ =~= s@.take(i as int));
            res
        },
        None => slice(s, 0, s.len()),
    }
}

/// Every `c` replaced by the text `r`.
pub fn replace_char_exec(s: &Vec<char>, c: char, r: &Vec<char>) -> (res: Vec<char>)
    ensures
        res@ == replace_char(s@, c, r@),
{
    let mut res: Vec<char> = Vec::new();
    let mut i: usize = 0;
    while i < s.len()
        invariant
            i <= s.len(),
            res@ == replace_char(s@.take(i as int), c, r@),
        decreases s.len() - i,
    {
        assert(s@.take(i + 1).drop_last() =~= s@.take(i as int));
        if s[i] == c {
            res = concat(&res, r);
        } else {
            res.push(s[i]);
            assert(res@ =~= replace_char(s@.take(i as int), c, r@) + seq![s@[i as int]]);
        }
        i = i + 1;
    }
    assert(s@.take(s.len() as int) =~= s@);
    res
}

/// Decimal digits of `n`.
pub fn decimal_exec(n: u64) -> (res: Vec<char>)
    ensures
        res@ == decimal(n as nat),
    decreases n,
{
    let d = ((n % 10) as u32 + 48) as u8 as char;
    assert(d == digit_char((n % 10) as nat));
    if n < 10 {
        let mut v: Vec<char> = Vec::new();
        v.push(d);
        assert(v@ =~= seq![digit_char(n as nat)]);
        v
    } else {
        let mut v = decimal_exec(n / 10);
        v.push(d);
        v
    }
}

/// Decimal text of a signed integer.
pub fn signed_decimal_exec(n: i64) -> (res: Vec<char>)
    ensures
        res@ == signed_decimal(n as int),
{
    if n < 0 {
        let m: u64 = if n == i64::MIN {
            9223372036854775808u64
        } else {
            (-n) as u64
        };
        let digits = decimal_exec(m);
        let mut v: Vec<char> = Vec::new();
        v.push('-');
        let res = concat(&v, &digits);
        assert(v@ =~= seq!['-']);
        res
    } else {
        decimal_exec(n as u64)
    }
}


// ───────────────────────── lists of texts ─────────────────────────

/// The views of a list of strings.
pub open spec fn strings_view(v: Seq<String>) -> Seq<Seq<char>> {
    v.map_values(|s: String| s@)
}

/// Appends the text of `lit` to a list of strings.
pub fn push_lit(v: &mut Vec<String>, lit: &str)
    ensures
        strings_view(final(v)@) == strings_view(old(v)@).push(lit@),
{
    let s = String::from_str(lit);
    let ghost sv = s@;
    v.push(s);
    assert(strings_view(v@) =~= strings_view(old(v)@).push(sv));
}

/// Appends a string holding the given characters to a list of strings.
pub fn push_chars(v: &mut Vec<String>, c: &Vec<char>)
    ensures
        strings_view(final(v)@) == strings_view(old(v)@).push(c@),
{
    let s = string_of(c);
    v.push(s);
    assert(strings_view(v@) =~= strings_view(old(v)@).push(c@));
}

// ───────────────────────── optional texts ─────────────────────────

/// The view of an optional text.
pub open spec fn opt_view(o: Option<String>) -> Option<Seq<char>> {
    match o {
        Some(s) => Some(s@),
        None => None,
    }
}

/// The view of an optional character vector.
pub open spec fn opt_chars(o: Option<Vec<char>>) -> Option<Seq<char>> {
    match o {
        Some(v) => Some(v@),
        None => None,
    }
}

/// The view of an optional string slice.
pub open spec fn opt_str(o: Option<&str>) -> Option<Seq<char>> {
    match o {
        Some(v) => Some(v@),
        None => None,
    }
}

/// A copy of an optional text.
pub fn clone_opt(o: &Option<String>) -> (res: Option<String>)
    ensures
        opt_view(res) == opt_view(*o),
{
    match o {
        Some(s) => Some(s.clone()),
        None => None,
    }
}

/// The views of a sequence of key/value text pairs.
pub open spec fn pairs_view(v: Seq<(String, String)>) -> Seq<(Seq<char>, Seq<char>)> {
    v.map_values(|p: (String, String)| (p.0@, p.1@))
}

/// A copy of a list of key/value text pairs.
pub fn clone_pairs(v: &Vec<(String, String)>) -> (res: Vec<(String, String)>)
    ensures
        pairs_view(res@) == pairs_view(v@),
{
    let mut res: Vec<(String, String)> = Vec::new();
    let mut i: usize = 0;
    while i < v.len()
        invariant
            i <= v.len(),
            pairs_view(res@) == pairs_view(v@.take(i as int)),
        decreases v.len() - i,
    {
        let k = v[i].0.clone();
        let val = v[i].1.clone();
        let ghost old_res = res@;
        res.push((k, val));
        assert(pairs_view(res@) =~= pairs_view(old_res).push((v@[i as int].0@, v@[i as int].1@)));
        assert(v@.take(i + 1) =~= v@.take(i as int).push(v@[i as int]));
        assert(pairs_view(v@.take(i + 1)) =~= pairs_view(v@.take(i as int)).push(
            (v@[i as int].0@, v@[i as int].1@),
        ));
        i = i + 1;
    }
    assert(v@.take(v.len() as int) =~= v@);
    res
}

/// No key occurs twice (as in a map from keys to values).
pub open spec fn distinct_keys(v: Seq<(Seq<char>, Seq<char>)>) -> bool {
    forall|i: int, j: int| 0 <= i < j < v.len() ==> #[trigger] v[i].0 != #[trigger] v[j].0
}

/// The value of the first pair whose key is `key`.
pub open spec fn lookup(v: Seq<(Seq<char>, Seq<char>)>, key: Seq<char>) -> Option<Seq<char>>
    decreases v.len(),
{
    if v.len() == 0 {
        None
    } else if v[0].0 == key {
        Some(v[0].1)
    } else {
        lookup(v.drop_first(), key)
    }
}

/// The value of the first pair whose key is the text of `key`.
pub fn lookup_exec(v: &Vec<(String, String)>, key: &str) -> (res: Option<String>)
    ensures
        opt_view(res) == lookup(pairs_view(v@), key@),
{
    let k = chars_of(key);
    let mut i: usize = 0;
    assert(pairs_view(v@).skip(0) =~= pairs_view(v@));
    while i < v.len()
        invariant
            i <= v.len(),
            k@ == key@,
            lookup(pairs_view(v@), key@) == lookup(pairs_view(v@).skip(i as int), key@),
        decreases v.len() - i,
    {
        let entry_key = chars_of(v[i].0.as_str());
        assert(pairs_view(v@).skip(i as int).drop_first() =~= pairs_view(v@).skip(i + 1));
        if same(&entry_key, &k) {
            return Some(v[i].1.clone());
        }
        i = i + 1;
    }
    None
}


// ───────────────────────── integer literals ─────────────────────────

/// The value of a decimal digit character.
pub open spec fn digit_value(c: char) -> nat {
    ((c as u32) - 48) as nat
}

/// The value of a string of decimal digits.
pub open spec fn digits_value(s: Seq<char>) -> nat
    decreases s.len(),
{
    if s.len() == 0 {
        0
    } else {
        digits_value(s.drop_last()) * 10 + digit_value(s.last())
    }
}

pub open spec fn all_digits(s: Seq<char>) -> bool {
    forall|i: int| 0 <= i < s.len() ==> is_ascii_digit(#[trigger] s[i])
}

/// The texts that `str::parse::<i64>` accepts: an optional sign, then one
/// or more decimal digits whose value fits in an `i64`.
pub open spec fn i64_literal(s: Seq<char>) -> bool {
    if s.len() > 0 && (s[0] == '+' || s[0] == '-') {
        let d = s.drop_first();
        &&& d.len() > 0
        &&& all_digits(d)
        &&& digits_value(d) <= if s[0] == '-' {
            9223372036854775808nat
        } else {
            9223372036854775807nat
        }
    } else {
        &&& s.len() > 0
        &&& all_digits(s)
        &&& digits_value(s) <= 9223372036854775807nat
    }
}

proof fn lemma_digits_monotone(s: Seq<char>, j: int)
    requires
        0 <= j <= s.len(),
    ensures
        digits_value(s.take(j)) <= digits_value(s),
    decreases s.len() - j,
{
    if j < s.len() {
        lemma_digits_monotone(s, j + 1);
        assert(s.take(j + 1).drop_last() =~= s.take(j));
    } else {
        assert(s.take(j) =~= s);
    }
}

/// The value of the decimal digits when they are all digits and their value
/// is at most `limit`.
fn digits_at_most(ds: &Vec<char>, limit: u64) -> (res: Option<u64>)
    requires
        ds.len() > 0,
        limit >= 9,
    ensures
        res is Some <==> (all_digits(ds@) && digits_value(ds@) <= limit),
        res matches Some(v) ==> v == digits_value(ds@),
{
    let mut val: u64 = 0;
    let mut i: usize = 0;
    while i < ds.len()
        invariant
            i <= ds.len(),
            limit >= 9,
            val == digits_value(ds@.take(i as int)),
            all_digits(ds@.take(i as int)),
            val <= limit,
        decreases ds.len() - i,
    {
        let c = ds[i];
        assert(ds@.take(i + 1).drop_last() =~= ds@.take(i as int));
        if !('0' <= c && c <= '9') {
            assert(!is_ascii_digit(ds@[i as int]));
            return None;
        }
        let d: u64 = (c as u32 - 48) as u64;
        assert(d == digit_value(c));
        if val > (limit - d) / 10 {
            assert(val * 10 + d > limit) by (nonlinear_arith)
                requires
                    val > (limit - d) / 10,
                    d <= 9,
                    limit >= 9,
            ;
            proof {
                lemma_digits_monotone(ds@, i + 1);
            }
            return None;
        }
        assert(val * 10 + d <= limit) by (nonlinear_arith)
            requires
                val <= (limit - d) / 10,
                d <= 9,
                limit >= 9,
        ;
        val = val * 10 + d;
        assert(all_digits(ds@.take(i + 1))) by {
            assert forall|k: int| 0 <= k < i + 1 implies is_ascii_digit(
                #[trigger] ds@.take(i + 1)[k],
            ) by {
                if k < i {
                    assert(ds@.take(i + 1)[k] == ds@.take(i as int)[k]);
                }
            }
        }
        i = i + 1;
    }
    assert(ds@.take(ds.len() as int) =~= ds@);
    Some(val)
}

/// The value `str::parse::<i64>` gives a text it accepts.
pub open spec fn i64_value(s: Seq<char>) -> int {
    if s.len() > 0 && s[0] == '-' {
        -(digits_value(s.drop_first()) as int)
    } else if s.len() > 0 && s[0] == '+' {
        digits_value(s.drop_first()) as int
    } else {
        digits_value(s) as int
    }
}

/// `str::parse::<i64>`: the value when the text is an `i64` literal.
pub fn parse_i64(s: &Vec<char>) -> (res: Option<i64>)
    ensures
        res is Some <==> i64_literal(s@),
        res matches Some(v) ==> v == i64_value(s@),
{
    if s.len() > 0 && (s[0] == '+' || s[0] == '-') {
        let neg = s[0] == '-';
        let ds = slice(s, 1, s.len());
        assert(ds@ =~= s@.drop_first());
        if ds.len() == 0 {
            return None;
        }
        if neg {
            match digits_at_most(&ds, 9223372036854775808u64) {
                Some(u) => if u == 9223372036854775808u64 {
                    Some(i64::MIN)
                } else {
                    Some(-(u as i64))
                },
                None => None,
            }
        } else {
            match digits_at_most(&ds, 9223372036854775807u64) {
                Some(u) => Some(u as i64),
                None => None,
            }
        }
    } else {
        if s.len() == 0 {
            return None;
        }
        match digits_at_most(s, 9223372036854775807u64) {
            Some(u) => Some(u as i64),
            None => None,
        }
    }
}

} // verus!
