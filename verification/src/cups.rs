//! Printing through CUPS: the options set with `lpoptions`, the `lp` command
//! line, the page a PDF wrapper gets, and the borderless scaling factor a
//! printer's PPD declares for a page size.
//!
//! Page dimensions are held in hundredths of a point (1 pt = 1/72 in).

use vstd::prelude::*;
use crate::models::Preset;
use crate::text::{
    chars_of, concat, concat_lit, contains, decimal, decimal_exec, find, is_ascii_digit, is_lit,
    lines, lines_exec, lookup, lookup_exec, opt_view, pairs_view, push_chars, push_lit, same,
    slice, starts_with, starts_with_lit, string_of, strings_view, to_lowercase, trim, trim_chars,
    trim_start, trim_start_chars, matches_at, views, contains_exec, find_exec, lowercase, is_alphanumeric,
    char_is_alphanumeric, lemma_find_in_bounds,
};

verus! {

// ───────────────────────── page size ─────────────────────────

/// The page size a preset selects: its "PageSize" setting, "Letter" when
/// it has none.
pub open spec fn page_size_key_of(settings: Seq<(Seq<char>, Seq<char>)>) -> Seq<char> {
    match lookup(settings, "PageSize"@) {
        Some(v) => v,
        None => "Letter"@,
    }
}

/// The page size a preset selects (see [`page_size_key_of`]).
pub fn page_size_key(preset: &Preset) -> (res: String)
    ensures
        res@ == page_size_key_of(preset@.settings),
{
    match lookup_exec(&preset.settings, "PageSize") {
        Some(v) => v,
        None => String::from_str("Letter"),
    }
}

/// Index of the first `c` in `s` at or after `i`, the length when there is none.
pub open spec fn char_index_from(s: Seq<char>, c: char, i: int) -> int
    decreases s.len() - i,
{
    if i < 0 || i >= s.len() {
        s.len() as int
    } else if s[i] == c {
        i
    } else {
        char_index_from(s, c, i + 1)
    }
}

/// The text before the first `c` (all of it when there is none), as
/// `split(c).next()` gives it.
pub open spec fn before_char(s: Seq<char>, c: char) -> Seq<char> {
    s.take(char_index_from(s, c, 0))
}

proof fn lemma_char_index_bounds(s: Seq<char>, c: char, i: int)
    requires
        0 <= i <= s.len(),
    ensures
        i <= char_index_from(s, c, i) <= s.len(),
    decreases s.len() - i,
{
    if i < s.len() && s[i] != c {
        lemma_char_index_bounds(s, c, i + 1);
    }
}

/// Index of the first `c`, the length when there is none (see
/// [`char_index_from`]).
fn char_index_exec(s: &Vec<char>, c: char) -> (res: usize)
    ensures
        res == char_index_from(s@, c, 0),
        res <= s.len(),
{
    proof {
        lemma_char_index_bounds(s@, c, 0);
    }
    let mut i: usize = 0;
    while i < s.len() && s[i] != c
        invariant
            i <= s.len(),
            char_index_from(s@, c, 0) == char_index_from(s@, c, i as int),
        decreases s.len() - i,
    {
        i = i + 1;
    }
    i
}

/// The text before the first `c` (see [`before_char`]).
pub fn before_char_exec(s: &Vec<char>, c: char) -> (res: Vec<char>)
    ensures
        res@ == before_char(s@, c),
{
    let mut i: usize = 0;
    while i < s.len() && s[i] != c
        invariant
            i <= s.len(),
            char_index_from(s@, c, 0) == char_index_from(s@, c, i as int),
        decreases s.len() - i,
    {
        i = i + 1;
    }
    slice(s, 0, i)
}

/// Known CUPS page sizes, in hundredths of a point, by the part of the
/// PageSize before its first dot.
pub open spec fn cups_paper_size(base: Seq<char>) -> Option<(u32, u32)> {
    if base == "EPKG"@ || base == "4x6"@ {
        Some((28800, 43200))
    } else if base == "EPPhotoPaper2L"@ || base == "5x7"@ {
        Some((36000, 50400))
    } else if base == "EP8x10in"@ || base == "8x10"@ {
        Some((57600, 72000))
    } else if base == "EPPhotoPaperLRoll"@ || base == "3.5x5"@ {
        Some((25200, 36000))
    } else if base == "EPHiVision102x180"@ {
        Some((28910, 51020))
    } else if base == "Letter"@ {
        Some((61200, 79200))
    } else if base == "Legal"@ {
        Some((61200, 100800))
    } else if base == "Executive"@ {
        Some((52200, 75600))
    } else if base == "A4"@ {
        Some((59528, 84189))
    } else if base == "A6"@ {
        Some((29764, 41953))
    } else if base == "EPHalfLetter"@ || base == "Statement"@ {
        Some((39600, 61200))
    } else if base == "Env10"@ {
        Some((29700, 68400))
    } else {
        None
    }
}

/// Width and height of a known CUPS page size, in hundredths of a point.
pub fn paper_size_centipoints(page_size_key: &str) -> (res: Option<(u32, u32)>)
    ensures
        res == cups_paper_size(before_char(page_size_key@, '.')),
{
    let k = chars_of(page_size_key);
    let b = before_char_exec(&k, '.');
    if is_lit(&b, "EPKG") || is_lit(&b, "4x6") {
        Some((28800, 43200))
    } else if is_lit(&b, "EPPhotoPaper2L") || is_lit(&b, "5x7") {
        Some((36000, 50400))
    } else if is_lit(&b, "EP8x10in") || is_lit(&b, "8x10") {
        Some((57600, 72000))
    } else if is_lit(&b, "EPPhotoPaperLRoll") || is_lit(&b, "3.5x5") {
        Some((25200, 36000))
    } else if is_lit(&b, "EPHiVision102x180") {
        Some((28910, 51020))
    } else if is_lit(&b, "Letter") {
        Some((61200, 79200))
    } else if is_lit(&b, "Legal") {
        Some((61200, 100800))
    } else if is_lit(&b, "Executive") {
        Some((52200, 75600))
    } else if is_lit(&b, "A4") {
        Some((59528, 84189))
    } else if is_lit(&b, "A6") {
        Some((29764, 41953))
    } else if is_lit(&b, "EPHalfLetter") || is_lit(&b, "Statement") {
        Some((39600, 61200))
    } else if is_lit(&b, "Env10") {
        Some((29700, 68400))
    } else {
        None
    }
}

/// The preset asks for landscape ("orientation-requested" 4 or 5).
pub open spec fn landscape_requested(settings: Seq<(Seq<char>, Seq<char>)>) -> bool {
    lookup(settings, "orientation-requested"@) == Some("4"@) || lookup(
        settings,
        "orientation-requested"@,
    ) == Some("5"@)
}

fn is_landscape(preset: &Preset) -> (res: bool)
    ensures
        res == landscape_requested(preset@.settings),
{
    match lookup_exec(&preset.settings, "orientation-requested") {
        Some(o) => {
            let c = chars_of(o.as_str());
            is_lit(&c, "4") || is_lit(&c, "5")
        },
        None => false,
    }
}

/// The page a PDF wrapper gets for a preset on CUPS: the size of its
/// PageSize (4 x 6 in when unknown), turned for landscape.
pub open spec fn cups_page(settings: Seq<(Seq<char>, Seq<char>)>) -> (u32, u32) {
    let (w, h) = match cups_paper_size(before_char(page_size_key_of(settings), '.')) {
        Some(d) => d,
        None => (28800, 43200),
    };
    if landscape_requested(settings) {
        (h, w)
    } else {
        (w, h)
    }
}

/// Width and height of the page a preset prints on through CUPS, in
/// hundredths of a point (see [`cups_page`]).
pub fn cups_page_centipoints(preset: &Preset) -> (res: (u32, u32))
    ensures
        res == cups_page(preset@.settings),
{
    let key = page_size_key(preset);
    let (w, h) = match paper_size_centipoints(key.as_str()) {
        Some(d) => d,
        None => (28800, 43200),
    };
    if is_landscape(preset) {
        (h, w)
    } else {
        (w, h)
    }
}

// ───────────────────────── lpoptions and lp ─────────────────────────

/// The preset sets the Epson quality option, which controls the resolution.
pub open spec fn has_vendor_quality(settings: Seq<(Seq<char>, Seq<char>)>) -> bool {
    lookup(settings, "EPIJ_Qual"@) is Some
}

/// `-o key=value` for each setting, in order, leaving out "print-scaling",
/// and "Resolution" when the vendor quality option is set.
pub open spec fn lpoption_pairs(settings: Seq<(Seq<char>, Seq<char>)>, vendor_quality: bool) -> Seq<
    Seq<char>,
>
    decreases settings.len(),
{
    if settings.len() == 0 {
        Seq::empty()
    } else {
        let rest = lpoption_pairs(settings.drop_last(), vendor_quality);
        let (k, v) = settings.last();
        if k == "print-scaling"@ || (vendor_quality && k == "Resolution"@) {
            rest
        } else {
            rest + seq!["-o"@, k + "="@ + v]
        }
    }
}

/// The arguments of `lpoptions` that store a preset's settings as the
/// printer's defaults; with the vendor quality option, 720 dpi is forced.
pub open spec fn lpoptions_arguments(printer_id: Seq<char>, settings: Seq<(Seq<char>, Seq<char>)>) -> Seq<
    Seq<char>,
> {
    let vq = has_vendor_quality(settings);
    seq!["-p"@, printer_id] + lpoption_pairs(settings, vq) + if vq {
        seq!["-o"@, "Resolution=720x720dpi"@]
    } else {
        Seq::empty()
    }
}

/// The arguments of `lpoptions` for a printer and settings (see
/// [`lpoptions_arguments`]).
pub fn lpoptions_args(printer_id: &str, settings: &Vec<(String, String)>) -> (res: Vec<String>)
    ensures
        strings_view(res@) == lpoptions_arguments(printer_id@, pairs_view(settings@)),
{
    let ghost pv = pairs_view(settings@);
    let vq = lookup_exec(settings, "EPIJ_Qual").is_some();
    let mut res: Vec<String> = Vec::new();
    push_lit(&mut res, "-p");
    push_lit(&mut res, printer_id);
    let ghost head = seq!["-p"@, printer_id@];
    assert(strings_view(res@) =~= head + lpoption_pairs(pv.take(0), vq));
    let mut i: usize = 0;
    while i < settings.len()
        invariant
            i <= settings.len(),
            pv == pairs_view(settings@),
            vq == has_vendor_quality(pv),
            strings_view(res@) == head + lpoption_pairs(pv.take(i as int), vq),
        decreases settings.len() - i,
    {
        let k = chars_of(settings[i].0.as_str());
        let v = chars_of(settings[i].1.as_str());
        assert(pv.take(i + 1).drop_last() =~= pv.take(i as int));
        assert(pv.take(i + 1).last() == (k@, v@));
        if is_lit(&k, "print-scaling") || (vq && is_lit(&k, "Resolution")) {
        } else {
            let ghost before = strings_view(res@);
            push_lit(&mut res, "-o");
            let kv = concat_lit(&k, "=");
            let kv = concat(&kv, &v);
            push_chars(&mut res, &kv);
            assert(strings_view(res@) =~= before + seq!["-o"@, k@ + "="@ + v@]);
        }
        i = i + 1;
    }
    assert(pv.take(settings.len() as int) =~= pv);
    if vq {
        push_lit(&mut res, "-o");
        push_lit(&mut res, "Resolution=720x720dpi");
    }
    res
}

/// The arguments of `lp` submitting `copies` copies of a file to a printer.
pub open spec fn lp_arguments(printer_id: Seq<char>, copies: u32, file: Seq<char>) -> Seq<Seq<char>> {
    seq!["-d"@, printer_id, "-n"@, decimal(copies as nat), file]
}

/// The arguments of `lp` (see [`lp_arguments`]).
pub fn lp_args(printer_id: &str, copies: u32, file: &str) -> (res: Vec<String>)
    ensures
        strings_view(res@) == lp_arguments(printer_id@, copies, file@),
{
    let mut res: Vec<String> = Vec::new();
    push_lit(&mut res, "-d");
    push_lit(&mut res, printer_id);
    push_lit(&mut res, "-n");
    let n = decimal_exec(copies as u64);
    push_chars(&mut res, &n);
    push_lit(&mut res, file);
    assert(strings_view(res@) =~= lp_arguments(printer_id@, copies, file@));
    res
}

/// The error of a preset that has no printer.
pub open spec fn no_printer_message() -> Seq<char> {
    "No printer assigned to preset"@
}

/// The printer a preset prints to; an error when it has none.
pub fn preset_printer(preset: &Preset) -> (res: Result<String, String>)
    ensures
        match preset@.printer_id {
            Some(id) => res matches Ok(s) && s@ == id,
            None => res matches Err(e) && e@ == no_printer_message(),
        },
{
    match &preset.printer_id {
        Some(id) => Ok(id.clone()),
        None => Err(String::from_str("No printer assigned to preset")),
    }
}

/// The result of a print job from the exit status of `lp`: a failure
/// carries its error output.
pub fn lp_outcome(success: bool, stderr: &str) -> (res: Result<(), String>)
    ensures
        success ==> res is Ok,
        !success ==> (res matches Err(e) && e@ == "lp failed: "@ + stderr@),
{
    if success {
        Ok(())
    } else {
        let head = chars_of("lp failed: ");
        let e = chars_of(stderr);
        let m = concat(&head, &e);
        Err(string_of(&m))
    }
}

// ───────────────────────── PPD files ─────────────────────────

/// A printer name's character as it stands in its PPD file name.
pub open spec fn ppd_char(c: char) -> char {
    if is_alphanumeric(c) || c == '_' {
        c
    } else {
        '_'
    }
}

/// Where CUPS keeps a printer's PPD.
pub open spec fn ppd_path_of(printer_id: Seq<char>) -> Seq<char> {
    "/private/etc/cups/ppd/"@ + printer_id.map_values(|c: char| ppd_char(c)) + ".ppd"@
}

/// The path of a printer's PPD (see [`ppd_path_of`]).
pub fn ppd_path(printer_id: &str) -> (res: String)
    ensures
        res@ == ppd_path_of(printer_id@),
{
    let id = chars_of(printer_id);
    let mut name: Vec<char> = Vec::new();
    let mut i: usize = 0;
    while i < id.len()
        invariant
            i <= id.len(),
            name@ == id@.take(i as int).map_values(|c: char| ppd_char(c)),
        decreases id.len() - i,
    {
        let c = id[i];
        let d = if char_is_alphanumeric(c) || c == '_' {
            c
        } else {
            '_'
        };
        name.push(d);
        assert(id@.take(i + 1).map_values(|c: char| ppd_char(c)) =~= id@.take(i as int).map_values(
            |c: char| ppd_char(c),
        ).push(ppd_char(c)));
        i = i + 1;
    }
    assert(id@.take(id.len() as int) =~= id@);
    let head = chars_of("/private/etc/cups/ppd/");
    let p = concat(&head, &name);
    let p = concat_lit(&p, ".ppd");
    string_of(&p)
}

/// The PPD keyword that carries the borderless scaling factor.
pub open spec fn factor_marker() -> Seq<char> {
    "cupsBorderlessScalingFactor"@
}

/// The start of a PPD line that declares a page size.
pub open spec fn page_size_prefix() -> Seq<char> {
    "*PageSize "@
}

/// End of the run of ASCII digits and dots that starts at `i`.
pub open spec fn number_end(s: Seq<char>, i: int) -> int
    decreases s.len() - i,
{
    if i < 0 || i >= s.len() {
        s.len() as int
    } else if is_ascii_digit(s[i]) || s[i] == '.' {
        number_end(s, i + 1)
    } else {
        i
    }
}

proof fn lemma_number_end_bounds(s: Seq<char>, i: int)
    requires
        0 <= i <= s.len(),
    ensures
        i <= number_end(s, i) <= s.len(),
        forall|k: int| i <= k < number_end(s, i) ==> is_ascii_digit(#[trigger] s[k]) || s[k] == '.',
    decreases s.len() - i,
{
    if i < s.len() && (is_ascii_digit(s[i]) || s[i] == '.') {
        lemma_number_end_bounds(s, i + 1);
    }
}

/// The digits and dots after the first scaling factor keyword of a line,
/// past any white space; `None` when the line has no such keyword.
pub open spec fn scaling_token(line: Seq<char>) -> Option<Seq<char>> {
    match find(line, factor_marker()) {
        Some(pos) => {
            let after = trim_start(line.skip(pos + factor_marker().len()));
            Some(after.take(number_end(after, 0)))
        },
        None => None,
    }
}

/// Number of occurrences of `c`.
pub open spec fn count_char(s: Seq<char>, c: char) -> nat
    decreases s.len(),
{
    if s.len() == 0 {
        0
    } else {
        count_char(s.drop_last(), c) + if s.last() == c {
            1nat
        } else {
            0nat
        }
    }
}

/// Digits and dots that `f32`'s `FromStr` reads as a number: at most one
/// dot and at least one digit.
pub open spec fn number_literal(t: Seq<char>) -> bool {
    &&& forall|i: int| 0 <= i < t.len() ==> is_ascii_digit(#[trigger] t[i]) || t[i] == '.'
    &&& count_char(t, '.') <= 1
    &&& exists|i: int| 0 <= i < t.len() && is_ascii_digit(#[trigger] t[i])
}

fn scaling_token_exec(line: &Vec<char>) -> (res: Option<Vec<char>>)
    ensures
        opt_chars_view(res) == scaling_token(line@),
        res matches Some(t) ==> forall|i: int| 0 <= i < t@.len() ==> is_ascii_digit(#[trigger] t@[i]) || t@[i] == '.',
{
    let marker = chars_of("cupsBorderlessScalingFactor");
    match find_exec(line, &marker) {
        Some(pos) => {
            proof {
                lemma_find_in_bounds(line@, marker@, 0);
                assert(matches_at(line@, marker@, pos as int));
            }
            let n = line.len();
            let start: usize = pos + marker.len();
            let after_all = slice(line, start, n);
            assert(after_all@ =~= line@.skip(pos + factor_marker().len()));
            let after = trim_start_chars(&after_all);
            let mut j: usize = 0;
            while j < after.len() && (('0' <= after[j] && after[j] <= '9') || after[j] == '.')
                invariant
                    j <= after.len(),
                    number_end(after@, 0) == number_end(after@, j as int),
                    forall|k: int| 0 <= k < j ==> is_ascii_digit(#[trigger] after@[k]) || after@[k] == '.',
                decreases after.len() - j,
            {
                j = j + 1;
            }
            let t = slice(&after, 0, j);
            Some(t)
        },
        None => None,
    }
}

/// The view of an optional character vector.
pub open spec fn opt_chars_view(o: Option<Vec<char>>) -> Option<Seq<char>> {
    match o {
        Some(v) => Some(v@),
        None => None,
    }
}

fn is_number_literal(t: &Vec<char>) -> (res: bool)
    requires
        forall|i: int| 0 <= i < t@.len() ==> is_ascii_digit(#[trigger] t@[i]) || t@[i] == '.',
    ensures
        res == number_literal(t@),
{
    let mut dots: usize = 0;
    let mut digit = false;
    let mut i: usize = 0;
    while i < t.len()
        invariant
            i <= t.len(),
            dots == count_char(t@.take(i as int), '.'),
            dots <= i,
            forall|k: int| 0 <= k < t@.len() ==> is_ascii_digit(#[trigger] t@[k]) || t@[k] == '.',
            digit == exists|k: int| 0 <= k < i && is_ascii_digit(#[trigger] t@[k]),
        decreases t.len() - i,
    {
        assert(t@.take(i + 1).drop_last() =~= t@.take(i as int));
        if t[i] == '.' {
            dots = dots + 1;
        } else {
            assert(is_ascii_digit(t@[i as int]));
            digit = true;
        }
        i = i + 1;
    }
    assert(t@.take(t.len() as int) =~= t@);
    dots <= 1 && digit
}

/// The page size a `*PageSize` line declares: the text after the prefix up
/// to the first '/' (which starts the label, "KEY/Label: ...") or the first
/// ':' (which ends the key, "KEY: ..."), whichever comes first, trimmed.
pub open spec fn page_size_line_key(l: Seq<char>) -> Seq<char> {
    let rest = l.skip(page_size_prefix().len() as int);
    let slash = char_index_from(rest, '/', 0);
    let colon = char_index_from(rest, ':', 0);
    let end = if slash <= colon {
        slash
    } else {
        colon
    };
    trim(rest.take(end))
}

/// The factor the PPD declares for the page size: the token of the first
/// `*PageSize` line for it, when that token is a number; the search stops
/// at that line either way.
pub open spec fn factor_for_page_size(ls: Seq<Seq<char>>, key: Seq<char>) -> Option<Seq<char>>
    decreases ls.len(),
{
    if ls.len() == 0 {
        None
    } else {
        let l = trim(ls[0]);
        if !starts_with(l, page_size_prefix()) || page_size_line_key(l) != key {
            factor_for_page_size(ls.drop_first(), key)
        } else {
            match scaling_token(l) {
                Some(t) => if number_literal(t) {
                    Some(t)
                } else {
                    None
                },
                None => None,
            }
        }
    }
}

fn page_size_line_key_exec(l: &Vec<char>) -> (res: Vec<char>)
    requires
        starts_with(l@, page_size_prefix()),
    ensures
        res@ == page_size_line_key(l@),
{
    let prefix = chars_of("*PageSize ");
    let rest = slice(l, prefix.len(), l.len());
    assert(rest@ =~= l@.skip(page_size_prefix().len() as int));
    let slash = char_index_exec(&rest, '/');
    let colon = char_index_exec(&rest, ':');
    let end = if slash <= colon {
        slash
    } else {
        colon
    };
    let k = slice(&rest, 0, end);
    assert(k@ =~= rest@.take(end as int));
    trim_chars(&k)
}

/// The text of the borderless scaling factor that a PPD declares for a
/// page size (see [`factor_for_page_size`]); the caller reads it as a number.
pub fn cups_scaling_factor_text(ppd: &str, page_size_key: &str) -> (res: Option<String>)
    ensures
        opt_view(res) == factor_for_page_size(lines(ppd@), page_size_key@),
{
    let content = chars_of(ppd);
    let ls = lines_exec(&content);
    let key = chars_of(page_size_key);
    let ghost lv = lines(ppd@);
    let mut i: usize = 0;
    assert(lv.skip(0) =~= lv);
    while i < ls.len()
        invariant
            i <= ls.len(),
            views(ls@) == lv,
            lv == lines(ppd@),
            key@ == page_size_key@,
            factor_for_page_size(lv, key@) == factor_for_page_size(lv.skip(i as int), key@),
        decreases ls.len() - i,
    {
        assert(lv.skip(i as int).drop_first() =~= lv.skip(i + 1));
        assert(lv.skip(i as int)[0] == ls@[i as int]@);
        let l = trim_chars(&ls[i]);
        if starts_with_lit(&l, "*PageSize ") {
            let k = page_size_line_key_exec(&l);
            if same(&k, &key) {
                return match scaling_token_exec(&l) {
                    Some(t) => if is_number_literal(&t) {
                        Some(string_of(&t))
                    } else {
                        None
                    },
                    None => None,
                };
            }
        }
        i = i + 1;
    }
    None
}

/// The label texts searched for a size keyword (lower-cased and trimmed).
pub open spec fn keyword_patterns(kw: Seq<char>) -> Seq<Seq<char>> {
    if kw == "4x6"@ || kw == "kg"@ || kw == "4r"@ {
        seq!["4x6"@, "4 x 6"@, "kg"@]
    } else if kw == "5x7"@ || kw == "5r"@ || kw == "2l"@ {
        seq!["5x7"@, "5 x 7"@]
    } else if kw == "8x10"@ {
        seq!["8x10"@, "8 x 10"@]
    } else if kw == "3.5x5"@ || kw == "l"@ {
        seq!["3.5x5"@, "3.5 x 5"@]
    } else if kw == "letter"@ || kw == "8.5x11"@ {
        seq!["letter"@, "8.5x11"@]
    } else if kw == "a4"@ {
        seq!["a4"@]
    } else if kw == "a6"@ {
        seq!["a6"@]
    } else {
        seq![kw]
    }
}

fn keyword_patterns_exec(kw: &Vec<char>) -> (res: Vec<Vec<char>>)
    ensures
        views(res@) == keyword_patterns(kw@),
{
    let r: Vec<Vec<char>> = if is_lit(kw, "4x6") || is_lit(kw, "kg") || is_lit(kw, "4r") {
        vec![chars_of("4x6"), chars_of("4 x 6"), chars_of("kg")]
    } else if is_lit(kw, "5x7") || is_lit(kw, "5r") || is_lit(kw, "2l") {
        vec![chars_of("5x7"), chars_of("5 x 7")]
    } else if is_lit(kw, "8x10") {
        vec![chars_of("8x10"), chars_of("8 x 10")]
    } else if is_lit(kw, "3.5x5") || is_lit(kw, "l") {
        vec![chars_of("3.5x5"), chars_of("3.5 x 5")]
    } else if is_lit(kw, "letter") || is_lit(kw, "8.5x11") {
        vec![chars_of("letter"), chars_of("8.5x11")]
    } else if is_lit(kw, "a4") {
        vec![chars_of("a4")]
    } else if is_lit(kw, "a6") {
        vec![chars_of("a6")]
    } else {
        vec![kw.clone()]
    };
    assert(views(r@) =~= keyword_patterns(kw@));
    r
}

/// Some pattern occurs in the text.
pub open spec fn mentions_any(s: Seq<char>, ps: Seq<Seq<char>>) -> bool {
    exists|i: int| 0 <= i < ps.len() && contains(s, #[trigger] ps[i])
}

/// The factor of the first borderless `*PageSize` line whose lower-cased
/// text mentions a pattern and whose token is a number.
pub open spec fn factor_for_patterns(ls: Seq<Seq<char>>, ps: Seq<Seq<char>>) -> Option<Seq<char>>
    decreases ls.len(),
{
    if ls.len() == 0 {
        None
    } else {
        let l = trim(ls[0]);
        let rest = factor_for_patterns(ls.drop_first(), ps);
        if starts_with(l, page_size_prefix()) && contains(l, factor_marker()) && mentions_any(
            lowercase(l),
            ps,
        ) {
            match scaling_token(l) {
                Some(t) => if number_literal(t) {
                    Some(t)
                } else {
                    rest
                },
                None => rest,
            }
        } else {
            rest
        }
    }
}

fn mentions_any_exec(s: &Vec<char>, ps: &Vec<Vec<char>>) -> (res: bool)
    ensures
        res == mentions_any(s@, views(ps@)),
{
    let mut i: usize = 0;
    while i < ps.len()
        invariant
            i <= ps.len(),
            forall|k: int| 0 <= k < i ==> !contains(s@, #[trigger] views(ps@)[k]),
        decreases ps.len() - i,
    {
        assert(views(ps@)[i as int] == ps@[i as int]@);
        if contains_exec(s, &ps[i]) {
            return true;
        }
        i = i + 1;
    }
    false
}

/// The text of the borderless scaling factor that a PPD declares for a
/// size keyword such as "4x6" or "kg" (see [`factor_for_patterns`] and
/// [`keyword_patterns`]); the caller reads it as a number.
pub fn cups_scaling_factor_text_by_keyword(ppd: &str, keyword: &str) -> (res: Option<String>)
    ensures
        opt_view(res) == factor_for_patterns(
            lines(ppd@),
            keyword_patterns(lowercase(trim(keyword@))),
        ),
{
    let kc = chars_of(keyword);
    let kt = trim_chars(&kc);
    let kl = to_lowercase(&kt);
    let ps = keyword_patterns_exec(&kl);
    let ghost pv = views(ps@);
    let content = chars_of(ppd);
    let ls = lines_exec(&content);
    let ghost lv = lines(ppd@);
    let mut i: usize = 0;
    assert(lv.skip(0) =~= lv);
    while i < ls.len()
        invariant
            i <= ls.len(),
            views(ls@) == lv,
            lv == lines(ppd@),
            pv == views(ps@),
            pv == keyword_patterns(lowercase(trim(keyword@))),
            factor_for_patterns(lv, pv) == factor_for_patterns(lv.skip(i as int), pv),
        decreases ls.len() - i,
    {
        assert(lv.skip(i as int).drop_first() =~= lv.skip(i + 1));
        assert(lv.skip(i as int)[0] == ls@[i as int]@);
        let l = trim_chars(&ls[i]);
        if starts_with_lit(&l, "*PageSize ") && contains_lit_marker(&l) {
            let ll = to_lowercase(&l);
            if mentions_any_exec(&ll, &ps) {
                match scaling_token_exec(&l) {
                    Some(t) => {
                        if is_number_literal(&t) {
                            return Some(string_of(&t));
                        }
                    },
                    None => {},
                }
            }
        }
        i = i + 1;
    }
    None
}

fn contains_lit_marker(l: &Vec<char>) -> (res: bool)
    ensures
        res == contains(l@, factor_marker()),
{
    let marker = chars_of("cupsBorderlessScalingFactor");
    contains_exec(l, &marker)
}

/// Each CUPS page-size base, looked up.
proof fn lemma_cups_size_table()
    ensures
        cups_paper_size("EPKG"@) == Some((28800u32, 43200u32)),
        cups_paper_size("4x6"@) == Some((28800u32, 43200u32)),
        cups_paper_size("EPPhotoPaper2L"@) == Some((36000u32, 50400u32)),
        cups_paper_size("5x7"@) == Some((36000u32, 50400u32)),
        cups_paper_size("EP8x10in"@) == Some((57600u32, 72000u32)),
        cups_paper_size("8x10"@) == Some((57600u32, 72000u32)),
        cups_paper_size("EPPhotoPaperLRoll"@) == Some((25200u32, 36000u32)),
        cups_paper_size("3.5x5"@) == Some((25200u32, 36000u32)),
        cups_paper_size("EPHiVision102x180"@) == Some((28910u32, 51020u32)),
        cups_paper_size("Letter"@) == Some((61200u32, 79200u32)),
        cups_paper_size("Legal"@) == Some((61200u32, 100800u32)),
        cups_paper_size("Executive"@) == Some((52200u32, 75600u32)),
        cups_paper_size("A4"@) == Some((59528u32, 84189u32)),
        cups_paper_size("A6"@) == Some((29764u32, 41953u32)),
        cups_paper_size("EPHalfLetter"@) == Some((39600u32, 61200u32)),
        cups_paper_size("Statement"@) == Some((39600u32, 61200u32)),
        cups_paper_size("Env10"@) == Some((29700u32, 68400u32)),
{
    reveal_strlit("EPKG");
    assert("EPKG"@ =~= seq!['E', 'P', 'K', 'G']);
    reveal_strlit("4x6");
    assert("4x6"@ =~= seq!['4', 'x', '6']);
    reveal_strlit("EPPhotoPaper2L");
    assert("EPPhotoPaper2L"@ =~= seq!['E', 'P', 'P', 'h', 'o', 't', 'o', 'P', 'a', 'p', 'e', 'r', '2', 'L']);
    reveal_strlit("5x7");
    assert("5x7"@ =~= seq!['5', 'x', '7']);
    reveal_strlit("EP8x10in");
    assert("EP8x10in"@ =~= seq!['E', 'P', '8', 'x', '1', '0', 'i', 'n']);
    reveal_strlit("8x10");
    assert("8x10"@ =~= seq!['8', 'x', '1', '0']);
    reveal_strlit("EPPhotoPaperLRoll");
    assert("EPPhotoPaperLRoll"@ =~= seq!['E', 'P', 'P', 'h', 'o', 't', 'o', 'P', 'a', 'p', 'e', 'r', 'L', 'R', 'o', 'l', 'l']);
    reveal_strlit("3.5x5");
    assert("3.5x5"@ =~= seq!['3', '.', '5', 'x', '5']);
    reveal_strlit("EPHiVision102x180");
    assert("EPHiVision102x180"@ =~= seq!['E', 'P', 'H', 'i', 'V', 'i', 's', 'i', 'o', 'n', '1', '0', '2', 'x', '1', '8', '0']);
    reveal_strlit("Letter");
    assert("Letter"@ =~= seq!['L', 'e', 't', 't', 'e', 'r']);
    reveal_strlit("Legal");
    assert("Legal"@ =~= seq!['L', 'e', 'g', 'a', 'l']);
    reveal_strlit("Executive");
    assert("Executive"@ =~= seq!['E', 'x', 'e', 'c', 'u', 't', 'i', 'v', 'e']);
    reveal_strlit("A4");
    assert("A4"@ =~= seq!['A', '4']);
    reveal_strlit("A6");
    assert("A6"@ =~= seq!['A', '6']);
    reveal_strlit("EPHalfLetter");
    assert("EPHalfLetter"@ =~= seq!['E', 'P', 'H', 'a', 'l', 'f', 'L', 'e', 't', 't', 'e', 'r']);
    reveal_strlit("Statement");
    assert("Statement"@ =~= seq!['S', 't', 'a', 't', 'e', 'm', 'e', 'n', 't']);
    reveal_strlit("Env10");
    assert("Env10"@ =~= seq!['E', 'n', 'v', '1', '0']);
}

/// The CUPS page sizes are the standard paper dimensions, in hundredths of
/// a point (7200 per inch): whatever follows the first dot of a PageSize
/// (a borderless or feed variant) does not change its size.
pub proof fn law_cups_paper_sizes(key: Seq<char>)
    ensures
        ({
            let b = before_char(key, '.');
            let size = cups_paper_size(b);
            &&& (b == "EPKG"@ || b == "4x6"@) ==> size == Some((28800u32, 43200u32))
            &&& (b == "EPPhotoPaper2L"@ || b == "5x7"@) ==> size == Some((36000u32, 50400u32))
            &&& (b == "EP8x10in"@ || b == "8x10"@) ==> size == Some((57600u32, 72000u32))
            &&& (b == "EPPhotoPaperLRoll"@ || b == "3.5x5"@) ==> size == Some((25200u32, 36000u32))
            &&& b == "EPHiVision102x180"@ ==> size == Some((28910u32, 51020u32))
            &&& b == "Letter"@ ==> size == Some((61200u32, 79200u32))
            &&& b == "Legal"@ ==> size == Some((61200u32, 100800u32))
            &&& b == "Executive"@ ==> size == Some((52200u32, 75600u32))
            &&& b == "A4"@ ==> size == Some((59528u32, 84189u32))
            &&& b == "A6"@ ==> size == Some((29764u32, 41953u32))
            &&& (b == "EPHalfLetter"@ || b == "Statement"@) ==> size == Some((39600u32, 61200u32))
            &&& b == "Env10"@ ==> size == Some((29700u32, 68400u32))
        }),
{
    lemma_cups_size_table();
}

/// The page a preset prints on through CUPS is upright (narrower than it
/// is tall) exactly when the preset does not ask for landscape, and is
/// 4 x 6 in when its page size is unknown.
pub proof fn law_cups_page_orientation(settings: Seq<(Seq<char>, Seq<char>)>)
    ensures
        landscape_requested(settings) <==> cups_page(settings).0 > cups_page(settings).1,
        cups_paper_size(before_char(page_size_key_of(settings), '.')) is None ==> (
        cups_page(settings) == (28800u32, 43200u32) || cups_page(settings) == (43200u32, 28800u32)),
{
}

} // verus!
