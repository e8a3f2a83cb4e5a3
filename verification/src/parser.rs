//! Filename parsing: which paper size keyword a file name carries.
//!
//! Keywords are matched case-insensitively, must be delimited by a space,
//! underscore, hyphen or dot (or the ends of the name), and the extension is
//! not searched.  When a name carries several keywords, the one that starts
//! first in the name wins.

use vstd::prelude::*;
use crate::text::{
    ascii_lower, chars_of, is_ascii_seq, lowercase, matches_at, matches_at_exec, rfind_char,
    rfind_char_exec, slice, string_of, to_lowercase,
};

verus! {

/// Number of entries in the keyword table.
pub const KEYWORD_COUNT: usize = 11;

/// The keyword at position `k` of the table; longer keywords come first.
pub open spec fn keyword(k: int) -> Seq<char> {
    if k == 0 {
        "8.5x11"@
    } else if k == 1 {
        "letter"@
    } else if k == 2 {
        "8x10"@
    } else if k == 3 {
        "4x6"@
    } else if k == 4 {
        "5x7"@
    } else if k == 5 {
        "4r"@
    } else if k == 6 {
        "kg"@
    } else if k == 7 {
        "5r"@
    } else if k == 8 {
        "a4"@
    } else if k == 9 {
        "a5"@
    } else {
        "a6"@
    }
}

/// The canonical size name of keyword `k` (aliases map to their size).
pub open spec fn canonical(k: int) -> Seq<char> {
    if k == 0 || k == 1 {
        "8.5x11"@
    } else if k == 2 {
        "8x10"@
    } else if k == 3 || k == 5 || k == 6 {
        "4x6"@
    } else if k == 4 || k == 7 {
        "5x7"@
    } else if k == 8 {
        "a4"@
    } else if k == 9 {
        "a5"@
    } else {
        "a6"@
    }
}

/// The canonical size names a file name can be routed to.
pub open spec fn is_canonical_size(s: Seq<char>) -> bool {
    exists|k: int| 0 <= k < KEYWORD_COUNT && s == #[trigger] canonical(k)
}

/// Space, underscore, hyphen and dot separate tokens in file names.
pub open spec fn delimiter(c: char) -> bool {
    c == ' ' || c == '_' || c == '-' || c == '.'
}

/// `kw` occurs in `s` at `i`, with a delimiter or an end of `s` on each side.
pub open spec fn keyword_at(s: Seq<char>, kw: Seq<char>, i: int) -> bool {
    &&& matches_at(s, kw, i)
    &&& (i == 0 || delimiter(s[i - 1]))
    &&& (i + kw.len() == s.len() || delimiter(s[i + kw.len()]))
}

/// The first table entry, from `k` on, that occurs delimited at `i`.
pub open spec fn keyword_index_at(s: Seq<char>, i: int, k: int) -> Option<int>
    decreases KEYWORD_COUNT - k,
{
    if k < 0 || k >= KEYWORD_COUNT {
        None
    } else if keyword_at(s, keyword(k), i) {
        Some(k)
    } else {
        keyword_index_at(s, i, k + 1)
    }
}

/// The table entry of the leftmost delimited keyword at or after `i`.
pub open spec fn first_keyword_from(s: Seq<char>, i: int) -> Option<int>
    decreases s.len() + 1 - i,
{
    if i < 0 || i > s.len() {
        None
    } else {
        match keyword_index_at(s, i, 0) {
            Some(k) => Some(k),
            None => first_keyword_from(s, i + 1),
        }
    }
}

/// The size that a lower-cased name (extension already removed) carries.
pub open spec fn size_keyword(s: Seq<char>) -> Option<Seq<char>> {
    match first_keyword_from(s, 0) {
        Some(k) => Some(canonical(k)),
        None => None,
    }
}

/// Number of bytes of the UTF-8 encoding of one character.
pub open spec fn utf8_width(c: char) -> nat {
    if (c as u32) < 0x80 {
        1
    } else if (c as u32) < 0x800 {
        2
    } else if (c as u32) < 0x10000 {
        3
    } else {
        4
    }
}

/// Number of bytes of the UTF-8 encoding of a text.
pub open spec fn utf8_len(s: Seq<char>) -> nat
    decreases s.len(),
{
    if s.len() == 0 {
        0
    } else {
        utf8_len(s.drop_last()) + utf8_width(s.last())
    }
}

/// The name without its extension: the text after the last dot counts as an
/// extension when it takes at most five bytes.
pub open spec fn without_extension(f: Seq<char>) -> Seq<char> {
    match rfind_char(f, '.') {
        Some(pos) => if utf8_len(f.skip(pos + 1)) <= 5 {
            f.take(pos)
        } else {
            f
        },
        None => f,
    }
}

/// The size keyword that a file name carries.
pub open spec fn keyword_of_filename(f: Seq<char>) -> Option<Seq<char>> {
    size_keyword(lowercase(without_extension(f)))
}

/// Delimiter characters that separate tokens in filenames.
pub fn is_delimiter(c: char) -> (res: bool)
    ensures
        res == delimiter(c),
{
    c == ' ' || c == '_' || c == '-' || c == '.'
}

fn keyword_text(k: usize) -> (res: &'static str)
    requires
        k < KEYWORD_COUNT,
    ensures
        res@ == keyword(k as int),
{
    if k == 0 {
        "8.5x11"
    } else if k == 1 {
        "letter"
    } else if k == 2 {
        "8x10"
    } else if k == 3 {
        "4x6"
    } else if k == 4 {
        "5x7"
    } else if k == 5 {
        "4r"
    } else if k == 6 {
        "kg"
    } else if k == 7 {
        "5r"
    } else if k == 8 {
        "a4"
    } else if k == 9 {
        "a5"
    } else {
        "a6"
    }
}

fn canonical_text(k: usize) -> (res: &'static str)
    requires
        k < KEYWORD_COUNT,
    ensures
        res@ == canonical(k as int),
{
    if k == 0 || k == 1 {
        "8.5x11"
    } else if k == 2 {
        "8x10"
    } else if k == 3 || k == 5 || k == 6 {
        "4x6"
    } else if k == 4 || k == 7 {
        "5x7"
    } else if k == 8 {
        "a4"
    } else if k == 9 {
        "a5"
    } else {
        "a6"
    }
}

fn keyword_at_exec(s: &Vec<char>, kw: &Vec<char>, i: usize) -> (res: bool)
    ensures
        res == keyword_at(s@, kw@, i as int),
{
    let n = s.len();
    if !matches_at_exec(s, kw, i) {
        return false;
    }
    let start_ok = i == 0 || is_delimiter(s[i - 1]);
    let end = i + kw.len();
    let end_ok = end == s.len() || is_delimiter(s[end]);
    start_ok && end_ok
}

/// Whether the UTF-8 encoding of the text takes at most `limit` bytes.
fn utf8_len_at_most(s: &Vec<char>, limit: u64) -> (res: bool)
    ensures
        res == (utf8_len(s@) <= limit),
{
    let mut total: u64 = 0;
    let mut i: usize = 0;
    while i < s.len()
        invariant
            i <= s.len(),
            total == utf8_len(s@.take(i as int)),
            total <= limit,
        decreases s.len() - i,
    {
        assert(s@.take(i + 1).drop_last() =~= s@.take(i as int));
        let c = s[i] as u32;
        let w: u64 = if c < 0x80 {
            1
        } else if c < 0x800 {
            2
        } else if c < 0x10000 {
            3
        } else {
            4
        };
        assert(w == utf8_width(s@[i as int]));
        if w > limit - total {
            proof {
                lemma_utf8_len_prefix(s@, i + 1);
            }
            return false;
        }
        total = total + w;
        i = i + 1;
    }
    assert(s@.take(s.len() as int) =~= s@);
    true
}

/// The byte length of a prefix never exceeds that of the whole text.
proof fn lemma_utf8_len_prefix(s: Seq<char>, n: int)
    requires
        0 <= n <= s.len(),
    ensures
        utf8_len(s.take(n)) <= utf8_len(s),
    decreases s.len() - n,
{
    if n < s.len() {
        lemma_utf8_len_prefix(s, n + 1);
        assert(s.take(n + 1).drop_last() =~= s.take(n));
    } else {
        assert(s.take(n) =~= s);
    }
}

/// The name without its extension (see [`without_extension`]).
pub fn strip_extension(filename: &Vec<char>) -> (res: Vec<char>)
    ensures
        res@ == without_extension(filename@),
{
    match rfind_char_exec(filename, '.') {
        Some(pos) => {
            let ext = slice(filename, pos + 1, filename.len());
            assert(ext@ =~= filename@.skip(pos + 1));
            if utf8_len_at_most(&ext, 5) {
                let r = slice(filename, 0, pos);
                assert(r@ =~= filename@.take(pos as int));
                r
            } else {
                slice(filename, 0, filename.len())
            }
        },
        None => slice(filename, 0, filename.len()),
    }
}

/// The canonical size of the leftmost delimited keyword in a name that is
/// already lower-cased and has no extension.
pub fn find_size_keyword(lowered: &str) -> (res: Option<String>)
    ensures
        res matches Some(r) ==> size_keyword(lowered@) == Some(r@) && is_canonical_size(r@),
        res is None ==> size_keyword(lowered@) is None,
{
    let s = chars_of(lowered);
    let mut i: usize = 0;
    while i <= s.len()
        invariant
            i <= s.len() + 1,
            s@ == lowered@,
            first_keyword_from(s@, 0) == first_keyword_from(s@, i as int),
        decreases s.len() + 1 - i,
    {
        let mut k: usize = 0;
        while k < KEYWORD_COUNT
            invariant
                k <= KEYWORD_COUNT,
                i <= s.len(),
                s@ == lowered@,
                first_keyword_from(s@, 0) == first_keyword_from(s@, i as int),
                keyword_index_at(s@, i as int, 0) == keyword_index_at(s@, i as int, k as int),
            decreases KEYWORD_COUNT - k,
        {
            let kw = chars_of(keyword_text(k));
            if keyword_at_exec(&s, &kw, i) {
                assert(keyword_index_at(s@, i as int, k as int) == Some(k as int));
                assert(first_keyword_from(s@, i as int) == Some(k as int));
                let c = canonical_text(k);
                let r = String::from_str(c);
                assert(r@ == canonical(k as int));
                assert(is_canonical_size(r@));
                assert(size_keyword(lowered@) == Some(r@));
                return Some(r);
            }
            k = k + 1;
        }
        assert(keyword_index_at(s@, i as int, KEYWORD_COUNT as int) is None);
        if i == s.len() {
            assert(first_keyword_from(s@, i + 1) is None);
            return None;
        }
        i = i + 1;
    }
    None
}

/// Parse a filename and return the size keyword it carries: the extension
/// (at most five bytes after the last dot) is dropped, the rest is
/// lower-cased, and the leftmost delimited keyword gives the canonical size.
pub fn parse_size_keyword(filename: &str) -> (res: Option<String>)
    ensures
        res matches Some(r) ==> keyword_of_filename(filename@) == Some(r@) && is_canonical_size(
            r@,
        ),
        res is None ==> keyword_of_filename(filename@) is None,
        is_ascii_seq(filename@) ==> (res matches Some(r) ==> size_keyword(
            ascii_lower(without_extension(filename@)),
        ) == Some(r@)),
        is_ascii_seq(filename@) ==> (res is None ==> size_keyword(
            ascii_lower(without_extension(filename@)),
        ) is None),
{
    let chars = chars_of(filename);
    let name = strip_extension(&chars);
    proof {
        lemma_without_extension_is_prefix(filename@);
    }
    let lower = to_lowercase(&name);
    let lower_text = string_of(&lower);
    find_size_keyword(lower_text.as_str())
}

/// Dropping the extension keeps a prefix of the name.
pub proof fn lemma_without_extension_is_prefix(f: Seq<char>)
    ensures
        without_extension(f).len() <= f.len(),
        without_extension(f) == f.take(without_extension(f).len() as int),
        is_ascii_seq(f) ==> is_ascii_seq(without_extension(f)),
{
    assert(f.take(f.len() as int) =~= f);
    match rfind_char(f, '.') {
        Some(pos) => {
            lemma_rfind_char_in_bounds(f, '.');
            if utf8_len(f.skip(pos + 1)) <= 5 {
                assert(f.take(pos).take(pos) =~= f.take(pos));
            }
        },
        None => {},
    }
}

/// A found character lies inside the text and is the searched one.
pub proof fn lemma_rfind_char_in_bounds(s: Seq<char>, c: char)
    ensures
        rfind_char(s, c) matches Some(i) ==> 0 <= i < s.len() && s[i] == c && forall|j: int|
            i < j < s.len() ==> s[j] != c,
        rfind_char(s, c) is None ==> forall|j: int| 0 <= j < s.len() ==> s[j] != c,
    decreases s.len(),
{
    if s.len() > 0 && s.last() != c {
        lemma_rfind_char_in_bounds(s.drop_last(), c);
        assert forall|j: int| 0 <= j < s.len() - 1 implies s.drop_last()[j] == s[j] by {}
    }
}


// ───────────────────────── laws ─────────────────────────

proof fn lemma_rfind_ascii_lower(f: Seq<char>)
    ensures
        rfind_char(ascii_lower(f), '.') == rfind_char(f, '.'),
    decreases f.len(),
{
    if f.len() > 0 {
        assert(ascii_lower(f).drop_last() =~= ascii_lower(f.drop_last()));
        lemma_rfind_ascii_lower(f.drop_last());
    }
}

proof fn lemma_utf8_len_ascii_lower(f: Seq<char>)
    ensures
        utf8_len(ascii_lower(f)) == utf8_len(f),
    decreases f.len(),
{
    if f.len() > 0 {
        assert(ascii_lower(f).drop_last() =~= ascii_lower(f.drop_last()));
        lemma_utf8_len_ascii_lower(f.drop_last());
    }
}

proof fn lemma_without_extension_ascii_lower(f: Seq<char>)
    ensures
        without_extension(ascii_lower(f)) == ascii_lower(without_extension(f)),
{
    lemma_rfind_ascii_lower(f);
    lemma_rfind_char_in_bounds(f, '.');
    match rfind_char(f, '.') {
        Some(pos) => {
            assert(ascii_lower(f).skip(pos + 1) =~= ascii_lower(f.skip(pos + 1)));
            lemma_utf8_len_ascii_lower(f.skip(pos + 1));
            assert(ascii_lower(f).take(pos) =~= ascii_lower(f.take(pos)));
        },
        None => {},
    }
}

/// Keywords are case-insensitive: two ASCII file names that differ only in
/// the case of their letters carry the same size keyword (the value that
/// [`parse_size_keyword`] returns for ASCII names).
pub proof fn law_keyword_case_insensitive(f: Seq<char>, g: Seq<char>)
    requires
        is_ascii_seq(f),
        is_ascii_seq(g),
        ascii_lower(f) == ascii_lower(g),
    ensures
        size_keyword(ascii_lower(without_extension(f))) == size_keyword(
            ascii_lower(without_extension(g)),
        ),
{
    lemma_without_extension_ascii_lower(f);
    lemma_without_extension_ascii_lower(g);
}

proof fn lemma_rfind_after_last_dot(a: Seq<char>, b: Seq<char>)
    requires
        a.len() > 0,
        a.last() == '.',
        forall|j: int| 0 <= j < b.len() ==> b[j] != '.',
    ensures
        rfind_char(a + b, '.') == Some(a.len() - 1),
    decreases b.len(),
{
    if b.len() == 0 {
        assert(a + b =~= a);
    } else {
        assert((a + b).drop_last() =~= a + b.drop_last());
        lemma_rfind_after_last_dot(a, b.drop_last());
    }
}

/// The extension is not searched: a name followed by a dot and an
/// extension of at most five bytes without a dot loses exactly that suffix.
pub proof fn law_extension_not_searched(name: Seq<char>, ext: Seq<char>)
    requires
        forall|j: int| 0 <= j < ext.len() ==> ext[j] != '.',
        utf8_len(ext) <= 5,
    ensures
        without_extension(name + seq!['.'] + ext) == name,
{
    let a = name + seq!['.'];
    lemma_rfind_after_last_dot(a, ext);
    assert(a + ext == name + seq!['.'] + ext);
    assert((a + ext).skip(name.len() + 1 as int) =~= ext);
    assert((a + ext).take(name.len() as int) =~= name);
}

proof fn lemma_keyword_index_found(s: Seq<char>, i: int, k: int, k0: int)
    requires
        0 <= k0 <= k < KEYWORD_COUNT,
        keyword_at(s, keyword(k), i),
    ensures
        keyword_index_at(s, i, k0) is Some,
    decreases k - k0,
{
    if !keyword_at(s, keyword(k0), i) {
        lemma_keyword_index_found(s, i, k, k0 + 1);
    }
}

proof fn lemma_first_keyword_found(s: Seq<char>, i: int, i0: int, k: int)
    requires
        0 <= i0 <= i,
        0 <= k < KEYWORD_COUNT,
        keyword_at(s, keyword(k), i),
    ensures
        first_keyword_from(s, i0) is Some,
    decreases i - i0,
{
    if keyword_index_at(s, i0, 0) is None {
        if i0 == i {
            lemma_keyword_index_found(s, i, k, 0);
        } else {
            lemma_first_keyword_found(s, i, i0 + 1, k);
        }
    }
}

/// A keyword of the table that stands delimited anywhere in the name is
/// always found: the name is routed to some size.
pub proof fn law_delimited_keyword_found(s: Seq<char>, i: int, k: int)
    requires
        0 <= k < KEYWORD_COUNT,
        keyword_at(s, keyword(k), i),
    ensures
        size_keyword(s) is Some,
{
    lemma_first_keyword_found(s, i, 0, k);
}

proof fn lemma_leftmost(s: Seq<char>, i0: int)
    requires
        0 <= i0,
    ensures
        first_keyword_from(s, i0) matches Some(k) ==> exists|p: int|
            i0 <= p && #[trigger] keyword_index_at(s, p, 0) == Some(k) && forall|q: int|
                i0 <= q < p ==> keyword_index_at(s, q, 0) is None,
    decreases s.len() + 1 - i0,
{
    if i0 <= s.len() && keyword_index_at(s, i0, 0) is None {
        lemma_leftmost(s, i0 + 1);
    }
}

/// The first match wins: the size returned is that of a keyword standing
/// delimited at some position, and no keyword stands delimited before it.
pub proof fn law_first_match_wins(s: Seq<char>)
    ensures
        size_keyword(s) matches Some(c) ==> exists|p: int, k: int|
            0 <= p && 0 <= k < KEYWORD_COUNT && #[trigger] keyword_at(s, keyword(k), p) && c
                == canonical(k) && forall|q: int, k2: int|
                0 <= q < p && 0 <= k2 < KEYWORD_COUNT ==> !keyword_at(s, keyword(k2), q),
{
    lemma_leftmost(s, 0);
    if let Some(k) = first_keyword_from(s, 0) {
        let p = choose|p: int|
            0 <= p && #[trigger] keyword_index_at(s, p, 0) == Some(k) && forall|q: int|
                0 <= q < p ==> keyword_index_at(s, q, 0) is None;
        lemma_keyword_index_sound(s, p, 0);
        assert forall|q: int, k2: int| 0 <= q < p && 0 <= k2 < KEYWORD_COUNT implies !keyword_at(
            s,
            keyword(k2),
            q,
        ) by {
            if keyword_at(s, keyword(k2), q) {
                lemma_keyword_index_found(s, q, k2, 0);
            }
        }
    }
}

proof fn lemma_keyword_index_sound(s: Seq<char>, i: int, k0: int)
    ensures
        keyword_index_at(s, i, k0) matches Some(k) ==> 0 <= k < KEYWORD_COUNT && keyword_at(
            s,
            keyword(k),
            i,
        ),
    decreases KEYWORD_COUNT - k0,
{
    if 0 <= k0 < KEYWORD_COUNT && !keyword_at(s, keyword(k0), i) {
        lemma_keyword_index_sound(s, i, k0 + 1);
    }
}

} // verus!
