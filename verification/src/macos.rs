//! Printing through the native macOS helper: the helper's command lines,
//! the settings a preset needs for it, the page its PDF wrapper gets, and
//! the message reported when the helper fails.
//!
//! Page dimensions are held in hundredths of a point (1 pt = 1/72 in).

use vstd::prelude::*;
use crate::cups::{before_char, before_char_exec, landscape_requested};
use crate::models::{Preset, Timestamp};
use crate::printing::PrinterInfo;
use crate::text::{
    chars_of, concat, concat_lit, decimal, decimal_exec, is_lit, lines, lines_exec, lookup,
    lookup_exec, lowercase, push_chars, push_lit, signed_decimal, signed_decimal_exec,
    string_of, strings_view, to_lowercase, trim, trim_chars, views,
};

verus! {

/// The native print settings captured from the macOS print dialog.
pub struct MacOSPrintConfiguration {
    pub printer_name: String,
    pub print_info_base64: String,
    pub page_format_base64: String,
    pub print_settings_base64: String,
}

/// What `Path::join` gives for a base path and a relative path, as text.
pub uninterp spec fn joined_path(base: Seq<char>, rel: Seq<char>) -> Seq<char>;

/// `Path::join` of two texts, converted back to text.  The result is named
/// by `joined_path`.
#[verifier::external_body]
fn path_join(base: &str, rel: &str) -> (res: String)
    ensures
        res@ == joined_path(base@, rel@),
{
    std::path::Path::new(base).join(rel).to_string_lossy().into_owned()
}

/// The Swift source of the helper, relative to the application's manifest
/// directory.
pub open spec fn helper_source() -> Seq<char> {
    "macos-helper/PrintQueueMacHelper.swift"@
}

/// Where the helper's Swift source lies, given the manifest directory.
pub fn helper_source_path(manifest_dir: &str) -> (res: String)
    ensures
        res@ == joined_path(manifest_dir@, helper_source()),
{
    path_join(manifest_dir, "macos-helper/PrintQueueMacHelper.swift")
}

/// A printer the helper lists: its driver is not reported and it counts as
/// online.
pub fn helper_printer(id: String, name: String, is_default: bool) -> (res: PrinterInfo)
    ensures
        res@.id == id@,
        res@.name == name@,
        res@.driver.len() == 0,
        res@.is_default == is_default,
        res@.is_online,
{
    PrinterInfo { id, name, driver: String::new(), is_default, is_online: true }
}

// ───────────────────────── paper sizes ─────────────────────────

/// Known page sizes, in hundredths of a point, by the lower-cased part of a
/// size keyword or PageSize before its first dot.
pub open spec fn macos_paper_size(base: Seq<char>) -> Option<(u32, u32)> {
    if base == "epkg"@ || base == "4x6"@ || base == "kg"@ || base == "4r"@ {
        Some((28800, 43200))
    } else if base == "epphotopaper2l"@ || base == "5x7"@ || base == "5r"@ || base == "2l"@ {
        Some((36000, 50400))
    } else if base == "ep8x10in"@ || base == "8x10"@ {
        Some((57600, 72000))
    } else if base == "epphotopaperlroll"@ || base == "3.5x5"@ || base == "l"@ {
        Some((25200, 36000))
    } else if base == "ephivision102x180"@ {
        Some((28910, 51020))
    } else if base == "letter"@ || base == "8.5x11"@ {
        Some((61200, 79200))
    } else if base == "legal"@ {
        Some((61200, 100800))
    } else if base == "a4"@ {
        Some((59528, 84189))
    } else if base == "a6"@ {
        Some((29764, 41953))
    } else if base == "ephalfletter"@ || base == "statement"@ {
        Some((39600, 61200))
    } else if base == "env10"@ {
        Some((29700, 68400))
    } else {
        None
    }
}

/// Width and height, in hundredths of a point, of the page size a
/// lower-cased base name stands for (see [`macos_paper_size`]).
pub fn macos_paper_size_of(base_lower: &str) -> (res: Option<(u32, u32)>)
    ensures
        res == macos_paper_size(base_lower@),
{
    let c = chars_of(base_lower);
    let b = &c;
    if is_lit(b, "epkg") || is_lit(b, "4x6") || is_lit(b, "kg") || is_lit(b, "4r") {
        Some((28800, 43200))
    } else if is_lit(b, "epphotopaper2l") || is_lit(b, "5x7") || is_lit(b, "5r") || is_lit(b, "2l") {
        Some((36000, 50400))
    } else if is_lit(b, "ep8x10in") || is_lit(b, "8x10") {
        Some((57600, 72000))
    } else if is_lit(b, "epphotopaperlroll") || is_lit(b, "3.5x5") || is_lit(b, "l") {
        Some((25200, 36000))
    } else if is_lit(b, "ephivision102x180") {
        Some((28910, 51020))
    } else if is_lit(b, "letter") || is_lit(b, "8.5x11") {
        Some((61200, 79200))
    } else if is_lit(b, "legal") {
        Some((61200, 100800))
    } else if is_lit(b, "a4") {
        Some((59528, 84189))
    } else if is_lit(b, "a6") {
        Some((29764, 41953))
    } else if is_lit(b, "ephalfletter") || is_lit(b, "statement") {
        Some((39600, 61200))
    } else if is_lit(b, "env10") {
        Some((29700, 68400))
    } else {
        None
    }
}

/// Width and height of a known page size, in hundredths of a point (see
/// [`macos_paper_size`]).
pub fn macos_paper_size_centipoints(keyword_or_page_size: &str) -> (res: Option<(u32, u32)>)
    ensures
        res == macos_paper_size(lowercase(before_char(keyword_or_page_size@, '.'))),
{
    let k = chars_of(keyword_or_page_size);
    let b = before_char_exec(&k, '.');
    let l = to_lowercase(&b);
    macos_paper_size_of(string_of(&l).as_str())
}

/// The page size a preset selects for the helper: its "PageSize" setting,
/// its size keyword when it has none.
pub open spec fn macos_page_key(p: Seq<(Seq<char>, Seq<char>)>, keyword: Seq<char>) -> Seq<char> {
    match lookup(p, "PageSize"@) {
        Some(v) => v,
        None => keyword,
    }
}

/// The page the helper's PDF wrapper gets: the size of the preset's page
/// size (4 x 6 in when unknown), turned for landscape.
pub open spec fn macos_page(settings: Seq<(Seq<char>, Seq<char>)>, keyword: Seq<char>) -> (u32, u32) {
    let (w, h) = match macos_paper_size(
        lowercase(before_char(macos_page_key(settings, keyword), '.')),
    ) {
        Some(d) => d,
        None => (28800, 43200),
    };
    if landscape_requested(settings) {
        (h, w)
    } else {
        (w, h)
    }
}

/// Width and height of the page a preset prints on through the helper, in
/// hundredths of a point (see [`macos_page`]).
pub fn macos_page_centipoints(preset: &Preset) -> (res: (u32, u32))
    ensures
        res == macos_page(preset@.settings, preset@.paper_size_keyword),
{
    let key = match lookup_exec(&preset.settings, "PageSize") {
        Some(v) => v,
        None => preset.paper_size_keyword.clone(),
    };
    let (w, h) = match macos_paper_size_centipoints(key.as_str()) {
        Some(d) => d,
        None => (28800, 43200),
    };
    let landscape = match lookup_exec(&preset.settings, "orientation-requested") {
        Some(o) => {
            let c = chars_of(o.as_str());
            is_lit(&c, "4") || is_lit(&c, "5")
        },
        None => false,
    };
    if landscape {
        (h, w)
    } else {
        (w, h)
    }
}

// ───────────────────────── configuring a printer ─────────────────────────

/// A size keyword as the sample context reads it: trimmed and lower-cased,
/// empty when absent.
pub open spec fn normalized_keyword(keyword: Option<Seq<char>>) -> Seq<char> {
    lowercase(
        trim(
            match keyword {
                Some(k) => k,
                None => Seq::empty(),
            },
        ),
    )
}

/// Paper sizes offered with the configuration dialog, by normalized keyword.
pub open spec fn sample_paper_size(n: Seq<char>) -> Option<(u32, u32)> {
    if n == "4x6"@ || n == "kg"@ || n == "4r"@ {
        Some((28800, 43200))
    } else if n == "5x7"@ || n == "5r"@ || n == "2l"@ {
        Some((36000, 50400))
    } else if n == "8x10"@ {
        Some((57600, 72000))
    } else if n == "3.5x5"@ || n == "l"@ {
        Some((25200, 36000))
    } else if n == "letter"@ || n == "8.5x11"@ {
        Some((61200, 79200))
    } else if n == "legal"@ {
        Some((61200, 100800))
    } else if n == "a4"@ {
        Some((59528, 84189))
    } else if n == "a6"@ {
        Some((29764, 41953))
    } else {
        None
    }
}

/// The 4 x 6 in sample image goes with these normalized keywords.
pub open spec fn wants_sample_image(n: Seq<char>) -> bool {
    n == "4x6"@ || n == "kg"@ || n == "4r"@
}

/// What the configuration dialog is shown with for a size keyword.
pub struct MacOSSampleContext {
    /// The 4 x 6 in sample image is offered (when it exists).
    pub wants_sample_image: bool,
    /// The paper size, in hundredths of a point.
    pub paper_size: Option<(u32, u32)>,
}

/// The sample context for a normalized size keyword (see
/// [`sample_paper_size`] and [`wants_sample_image`]).
pub fn sample_context_for_normalized(n: &str) -> (res: MacOSSampleContext)
    ensures
        res.wants_sample_image == wants_sample_image(n@),
        res.paper_size == sample_paper_size(n@),
{
    let n = chars_of(n);
    let wants = is_lit(&n, "4x6") || is_lit(&n, "kg") || is_lit(&n, "4r");
    let size = if is_lit(&n, "4x6") || is_lit(&n, "kg") || is_lit(&n, "4r") {
        Some((28800u32, 43200u32))
    } else if is_lit(&n, "5x7") || is_lit(&n, "5r") || is_lit(&n, "2l") {
        Some((36000, 50400))
    } else if is_lit(&n, "8x10") {
        Some((57600, 72000))
    } else if is_lit(&n, "3.5x5") || is_lit(&n, "l") {
        Some((25200, 36000))
    } else if is_lit(&n, "letter") || is_lit(&n, "8.5x11") {
        Some((61200, 79200))
    } else if is_lit(&n, "legal") {
        Some((61200, 100800))
    } else if is_lit(&n, "a4") {
        Some((59528, 84189))
    } else if is_lit(&n, "a6") {
        Some((29764, 41953))
    } else {
        None
    };
    MacOSSampleContext { wants_sample_image: wants, paper_size: size }
}

/// The sample context for a size keyword: the keyword is trimmed and
/// lower-cased first (see [`sample_context_for_normalized`]).
pub fn sample_context_for_keyword(keyword: Option<&str>) -> (res: MacOSSampleContext)
    ensures
        res.wants_sample_image == wants_sample_image(
            normalized_keyword(
                match keyword {
                    Some(k) => Some(k@),
                    None => None,
                },
            ),
        ),
        res.paper_size == sample_paper_size(
            normalized_keyword(
                match keyword {
                    Some(k) => Some(k@),
                    None => None,
                },
            ),
        ),
{
    let raw: Vec<char> = match keyword {
        Some(k) => chars_of(k),
        None => Vec::new(),
    };
    let t = trim_chars(&raw);
    let n = to_lowercase(&t);
    sample_context_for_normalized(string_of(&n).as_str())
}

/// A length in hundredths of a point written in points, as `f64`'s
/// `Display` writes it: no fraction when whole, no trailing zero.
pub open spec fn points_text(n: u32) -> Seq<char> {
    let whole = decimal((n / 100) as nat);
    let tenths = ((n / 10) % 10) as nat;
    let hundredths = (n % 10) as nat;
    if n % 100 == 0 {
        whole
    } else if hundredths == 0 {
        whole + seq!['.', digit(tenths)]
    } else {
        whole + seq!['.', digit(tenths), digit(hundredths)]
    }
}

/// The character of a decimal digit.
pub open spec fn digit(d: nat) -> char {
    ((d % 10) + 48) as char
}

/// A length in hundredths of a point written in points (see [`points_text`]).
pub fn points_to_text(n: u32) -> (res: Vec<char>)
    ensures
        res@ == points_text(n),
{
    let whole = decimal_exec((n / 100) as u64);
    let tenths: u32 = (n / 10) % 10;
    let hundredths: u32 = n % 10;
    let t = ((tenths + 48) as u8) as char;
    let h = ((hundredths + 48) as u8) as char;
    assert(t == digit(tenths as nat));
    assert(h == digit(hundredths as nat));
    if n % 100 == 0 {
        whole
    } else if hundredths == 0 {
        let mut r = whole;
        r.push('.');
        r.push(t);
        assert(r@ =~= decimal((n / 100) as nat) + seq!['.', digit(tenths as nat)]);
        r
    } else {
        let mut r = whole;
        r.push('.');
        r.push(t);
        r.push(h);
        assert(r@ =~= decimal((n / 100) as nat) + seq!['.', digit(tenths as nat), digit(hundredths as nat)]);
        r
    }
}

/// Whether a text holds something other than white space.
pub open spec fn not_blank(s: Seq<char>) -> bool {
    trim(s).len() > 0
}

/// The helper's "configure" command line: the printer to preselect (when
/// not blank), a sample file, and a paper size in points.
pub open spec fn configure_arguments(
    printer_hint: Option<Seq<char>>,
    sample_file: Option<Seq<char>>,
    paper_size: Option<(u32, u32)>,
) -> Seq<Seq<char>> {
    seq!["configure"@] + match printer_hint {
        Some(p) => if not_blank(p) {
            seq!["--printer"@, p]
        } else {
            Seq::empty()
        },
        None => Seq::empty(),
    } + match sample_file {
        Some(f) => seq!["--sample-file"@, f],
        None => Seq::empty(),
    } + match paper_size {
        Some((w, h)) => seq!["--paper-width"@, points_text(w), "--paper-height"@, points_text(h)],
        None => Seq::empty(),
    }
}

/// The helper's "configure" command line (see [`configure_arguments`]).
pub fn configure_args(
    printer_hint: Option<&str>,
    sample_file: Option<&str>,
    paper_size: Option<(u32, u32)>,
) -> (res: Vec<String>)
    ensures
        strings_view(res@) == configure_arguments(
            match printer_hint {
                Some(p) => Some(p@),
                None => None,
            },
            match sample_file {
                Some(f) => Some(f@),
                None => None,
            },
            paper_size,
        ),
{
    let mut res: Vec<String> = Vec::new();
    push_lit(&mut res, "configure");
    let ghost a = strings_view(res@);
    match printer_hint {
        Some(p) => {
            let pc = chars_of(p);
            let pt = trim_chars(&pc);
            if pt.len() > 0 {
                push_lit(&mut res, "--printer");
                push_lit(&mut res, p);
            }
        },
        None => {},
    }
    let ghost b = strings_view(res@);
    match sample_file {
        Some(f) => {
            push_lit(&mut res, "--sample-file");
            push_lit(&mut res, f);
        },
        None => {},
    }
    let ghost c = strings_view(res@);
    match paper_size {
        Some((w, h)) => {
            push_lit(&mut res, "--paper-width");
            let wt = points_to_text(w);
            push_chars(&mut res, &wt);
            push_lit(&mut res, "--paper-height");
            let ht = points_to_text(h);
            push_chars(&mut res, &ht);
        },
        None => {},
    }
    assert(strings_view(res@) =~= configure_arguments(
        match printer_hint {
            Some(p) => Some(p@),
            None => None,
        },
        match sample_file {
            Some(f) => Some(f@),
            None => None,
        },
        paper_size,
    ));
    res
}

// ───────────────────────── printing a file ─────────────────────────

/// The three native settings a preset needs for the helper, or the error
/// for the first one missing.
pub open spec fn native_settings(
    print_info: Option<Seq<char>>,
    page_format: Option<Seq<char>>,
    print_settings: Option<Seq<char>>,
) -> Result<(Seq<char>, Seq<char>, Seq<char>), Seq<char>> {
    match print_info {
        None => Err("Preset is missing macOS native printer settings"@),
        Some(a) => match page_format {
            None => Err("Preset is missing macOS page format settings"@),
            Some(b) => match print_settings {
                None => Err("Preset is missing macOS print settings"@),
                Some(c) => Ok((a, b, c)),
            },
        },
    }
}

/// The native settings of a preset (see [`native_settings`]).
pub fn macos_native_settings(preset: &Preset) -> (res: Result<(String, String, String), String>)
    ensures
        match res {
            Ok((a, b, c)) => native_settings(
                preset@.macos_print_info_base64,
                preset@.macos_page_format_base64,
                preset@.macos_print_settings_base64,
            ) == Ok::<(Seq<char>, Seq<char>, Seq<char>), Seq<char>>((a@, b@, c@)),
            Err(e) => native_settings(
                preset@.macos_print_info_base64,
                preset@.macos_page_format_base64,
                preset@.macos_print_settings_base64,
            ) == Err::<(Seq<char>, Seq<char>, Seq<char>), Seq<char>>(e@),
        },
{
    let a = match &preset.macos_print_info_base64 {
        Some(a) => a.clone(),
        None => {
            return Err(String::from_str("Preset is missing macOS native printer settings"));
        },
    };
    let b = match &preset.macos_page_format_base64 {
        Some(b) => b.clone(),
        None => {
            return Err(String::from_str("Preset is missing macOS page format settings"));
        },
    };
    let c = match &preset.macos_print_settings_base64 {
        Some(c) => c.clone(),
        None => {
            return Err(String::from_str("Preset is missing macOS print settings"));
        },
    };
    Ok((a, b, c))
}

/// The printer the helper prints to: the preset's macOS printer name, else
/// its printer id, unless that is blank.
pub open spec fn target_printer(macos_name: Option<Seq<char>>, printer_id: Option<Seq<char>>) -> Option<
    Seq<char>,
> {
    let cand = match macos_name {
        Some(n) => Some(n),
        None => printer_id,
    };
    match cand {
        Some(n) => if not_blank(n) {
            Some(n)
        } else {
            None
        },
        None => None,
    }
}

/// The helper's "print" command line for a PDF.
pub open spec fn print_arguments(
    pdf_path: Seq<char>,
    copies: u32,
    settings: (Seq<char>, Seq<char>, Seq<char>),
    printer: Option<Seq<char>>,
) -> Seq<Seq<char>> {
    seq![
        "print"@,
        "--file"@,
        pdf_path,
        "--copies"@,
        decimal(copies as nat),
        "--print-info-b64"@,
        settings.0,
        "--page-format-b64"@,
        settings.1,
        "--print-settings-b64"@,
        settings.2,
    ] + match printer {
        Some(n) => seq!["--printer"@, n],
        None => Seq::empty(),
    }
}

/// The helper's "print" command line for a preset and a PDF; the error of
/// [`macos_native_settings`] when a native setting is missing.
pub fn macos_print_args(preset: &Preset, pdf_path: &str) -> (res: Result<Vec<String>, String>)
    ensures
        match native_settings(
            preset@.macos_print_info_base64,
            preset@.macos_page_format_base64,
            preset@.macos_print_settings_base64,
        ) {
            Ok(s) => res matches Ok(v) && strings_view(v@) == print_arguments(
                pdf_path@,
                preset@.copies,
                s,
                target_printer(preset@.macos_printer_name, preset@.printer_id),
            ),
            Err(e) => res matches Err(m) && m@ == e,
        },
{
    let (a, b, c) = match macos_native_settings(preset) {
        Ok(s) => s,
        Err(e) => {
            return Err(e);
        },
    };
    let mut res: Vec<String> = Vec::new();
    push_lit(&mut res, "print");
    push_lit(&mut res, "--file");
    push_lit(&mut res, pdf_path);
    push_lit(&mut res, "--copies");
    let n = decimal_exec(preset.copies as u64);
    push_chars(&mut res, &n);
    push_lit(&mut res, "--print-info-b64");
    push_lit(&mut res, a.as_str());
    push_lit(&mut res, "--page-format-b64");
    push_lit(&mut res, b.as_str());
    push_lit(&mut res, "--print-settings-b64");
    push_lit(&mut res, c.as_str());
    let cand: Option<&String> = match &preset.macos_printer_name {
        Some(n) => Some(n),
        None => match &preset.printer_id {
            Some(p) => Some(p),
            None => None,
        },
    };
    match cand {
        Some(n) => {
            let nc = chars_of(n.as_str());
            let nt = trim_chars(&nc);
            if nt.len() > 0 {
                push_lit(&mut res, "--printer");
                push_lit(&mut res, n.as_str());
            }
        },
        None => {},
    }
    assert(strings_view(res@) =~= print_arguments(
        pdf_path@,
        preset@.copies,
        (a@, b@, c@),
        target_printer(preset@.macos_printer_name, preset@.printer_id),
    ));
    Ok(res)
}

// ───────────────────────── helper failures ─────────────────────────

/// The last line that is not blank.
pub open spec fn last_non_blank(ls: Seq<Seq<char>>) -> Option<Seq<char>>
    decreases ls.len(),
{
    if ls.len() == 0 {
        None
    } else if not_blank(ls.last()) {
        Some(ls.last())
    } else {
        last_non_blank(ls.drop_last())
    }
}

/// `Debug` of an optional exit code.
pub open spec fn exit_code_text(code: Option<i32>) -> Seq<char> {
    match code {
        Some(c) => "Some("@ + signed_decimal(c as int) + ")"@,
        None => "None"@,
    }
}

/// `Debug` of an optional exit code (see [`exit_code_text`]).
pub fn exit_code_chars(code: Option<i32>) -> (res: Vec<char>)
    ensures
        res@ == exit_code_text(code),
{
    match code {
        Some(c) => {
            let open = chars_of("Some(");
            let d = signed_decimal_exec(c as i64);
            let r = concat(&open, &d);
            concat_lit(&r, ")")
        },
        None => chars_of("None"),
    }
}

/// The error reported when the helper fails: the last non-blank line of
/// its trimmed error output (the whole output when none), or its exit code
/// when that is empty.
pub open spec fn helper_failure(stderr: Seq<char>, code: Option<i32>) -> Seq<char> {
    let s = trim(stderr);
    let concise = match last_non_blank(lines(s)) {
        Some(l) => l,
        None => s,
    };
    if concise.len() == 0 {
        "macOS helper exited with code "@ + exit_code_text(code)
    } else {
        concise
    }
}

/// The error reported when the helper fails (see [`helper_failure`]).
pub fn helper_failure_message(stderr: &str, code: Option<i32>) -> (res: String)
    ensures
        res@ == helper_failure(stderr@, code),
{
    let raw = chars_of(stderr);
    let s = trim_chars(&raw);
    let ls = lines_exec(&s);
    let ghost lv = lines(s@);
    let mut j: usize = ls.len();
    let mut found: Option<usize> = None;
    assert(lv.take(j as int) =~= lv);
    while j > 0
        invariant
            j <= ls.len(),
            views(ls@) == lv,
            found is None ==> last_non_blank(lv) == last_non_blank(lv.take(j as int)),
            found is Some ==> j == 0,
            found matches Some(k) ==> k < ls.len() && last_non_blank(lv) == Some(lv[k as int]),
        decreases j,
    {
        assert(lv.take(j as int).drop_last() =~= lv.take(j - 1));
        assert(lv.take(j as int).last() == ls@[j - 1]@);
        let t = trim_chars(&ls[j - 1]);
        if t.len() > 0 {
            found = Some(j - 1);
            j = 0;
        } else {
            j = j - 1;
        }
    }
    assert(lv.take(0) =~= Seq::<Seq<char>>::empty());
    let concise: Vec<char> = match found {
        Some(k) => ls[k].clone(),
        None => s.clone(),
    };
    if concise.len() == 0 {
        let head = chars_of("macOS helper exited with code ");
        let code_text = exit_code_chars(code);
        let m = concat(&head, &code_text);
        string_of(&m)
    } else {
        string_of(&concise)
    }
}

// ───────────────────────── building the helper ─────────────────────────

/// Option order on modification times (`None` before any time): `a` is
/// later than `b`.
pub open spec fn later(a: Option<Timestamp>, b: Option<Timestamp>) -> bool {
    match a {
        Some(x) => match b {
            Some(y) => x.seconds > y.seconds || (x.seconds == y.seconds && x.nanos > y.nanos),
            None => true,
        },
        None => false,
    }
}

/// Whether the helper binary must be (re)built, from the source's
/// metadata (its modification time, or the error reading it) and the
/// binary's (`None` when it cannot be read): a missing source is an error;
/// a missing binary, or one older than its source, is built.
pub open spec fn needs_build(
    source: Result<Option<Timestamp>, Seq<char>>,
    binary: Option<Option<Timestamp>>,
) -> Result<bool, Seq<char>> {
    match source {
        Err(e) => Err("Missing macOS helper source: "@ + e),
        Ok(s) => match binary {
            Some(b) => Ok(later(s, b)),
            None => Ok(true),
        },
    }
}

/// Whether the helper must be built (see [`needs_build`]).
pub fn helper_needs_build(
    source: Result<Option<Timestamp>, String>,
    binary: Option<Option<Timestamp>>,
) -> (res: Result<bool, String>)
    ensures
        match needs_build(
            match source {
                Ok(s) => Ok(s),
                Err(e) => Err(e@),
            },
            binary,
        ) {
            Ok(b) => res == Ok::<bool, String>(b),
            Err(m) => res matches Err(e) && e@ == m,
        },
{
    match source {
        Err(e) => {
            let head = chars_of("Missing macOS helper source: ");
            let ec = chars_of(e.as_str());
            let m = concat(&head, &ec);
            Err(string_of(&m))
        },
        Ok(s) => match binary {
            None => Ok(true),
            Some(b) => {
                let l = match s {
                    Some(x) => match b {
                        Some(y) => x.seconds > y.seconds || (x.seconds == y.seconds && x.nanos
                            > y.nanos),
                        None => true,
                    },
                    None => false,
                };
                Ok(l)
            },
        },
    }
}

/// The arguments of `xcrun` that compile the helper's source into its binary.
pub open spec fn swiftc_arguments(source: Seq<char>, binary: Seq<char>) -> Seq<Seq<char>> {
    seq![
        "swiftc"@,
        "-O"@,
        "-framework"@,
        "AppKit"@,
        "-framework"@,
        "Foundation"@,
        "-framework"@,
        "PDFKit"@,
        source,
        "-o"@,
        binary,
    ]
}

/// The compile command line (see [`swiftc_arguments`]).
pub fn swiftc_args(source: &str, binary: &str) -> (res: Vec<String>)
    ensures
        strings_view(res@) == swiftc_arguments(source@, binary@),
{
    let mut res: Vec<String> = Vec::new();
    push_lit(&mut res, "swiftc");
    push_lit(&mut res, "-O");
    push_lit(&mut res, "-framework");
    push_lit(&mut res, "AppKit");
    push_lit(&mut res, "-framework");
    push_lit(&mut res, "Foundation");
    push_lit(&mut res, "-framework");
    push_lit(&mut res, "PDFKit");
    push_lit(&mut res, source);
    push_lit(&mut res, "-o");
    push_lit(&mut res, binary);
    assert(strings_view(res@) =~= swiftc_arguments(source@, binary@));
    res
}

/// The error of a failed compilation: its trimmed error output.
pub fn compile_failure_message(stderr: &str) -> (res: String)
    ensures
        res@ == "macOS helper compile failed: "@ + trim(stderr@),
{
    let head = chars_of("macOS helper compile failed: ");
    let ec = chars_of(stderr);
    let t = trim_chars(&ec);
    let m = concat(&head, &t);
    string_of(&m)
}

/// Each lower-cased macOS page-size base, looked up.
proof fn lemma_macos_size_table()
    ensures
        macos_paper_size("epkg"@) == Some((28800u32, 43200u32)),
        macos_paper_size("4x6"@) == Some((28800u32, 43200u32)),
        macos_paper_size("kg"@) == Some((28800u32, 43200u32)),
        macos_paper_size("4r"@) == Some((28800u32, 43200u32)),
        macos_paper_size("epphotopaper2l"@) == Some((36000u32, 50400u32)),
        macos_paper_size("5x7"@) == Some((36000u32, 50400u32)),
        macos_paper_size("5r"@) == Some((36000u32, 50400u32)),
        macos_paper_size("2l"@) == Some((36000u32, 50400u32)),
        macos_paper_size("ep8x10in"@) == Some((57600u32, 72000u32)),
        macos_paper_size("8x10"@) == Some((57600u32, 72000u32)),
        macos_paper_size("epphotopaperlroll"@) == Some((25200u32, 36000u32)),
        macos_paper_size("3.5x5"@) == Some((25200u32, 36000u32)),
        macos_paper_size("l"@) == Some((25200u32, 36000u32)),
        macos_paper_size("ephivision102x180"@) == Some((28910u32, 51020u32)),
        macos_paper_size("letter"@) == Some((61200u32, 79200u32)),
        macos_paper_size("8.5x11"@) == Some((61200u32, 79200u32)),
        macos_paper_size("legal"@) == Some((61200u32, 100800u32)),
        macos_paper_size("a4"@) == Some((59528u32, 84189u32)),
        macos_paper_size("a6"@) == Some((29764u32, 41953u32)),
        macos_paper_size("ephalfletter"@) == Some((39600u32, 61200u32)),
        macos_paper_size("statement"@) == Some((39600u32, 61200u32)),
        macos_paper_size("env10"@) == Some((29700u32, 68400u32)),
{
    reveal_strlit("epkg");
    assert("epkg"@ =~= seq!['e', 'p', 'k', 'g']);
    reveal_strlit("4x6");
    assert("4x6"@ =~= seq!['4', 'x', '6']);
    reveal_strlit("kg");
    assert("kg"@ =~= seq!['k', 'g']);
    reveal_strlit("4r");
    assert("4r"@ =~= seq!['4', 'r']);
    reveal_strlit("epphotopaper2l");
    assert("epphotopaper2l"@ =~= seq!['e', 'p', 'p', 'h', 'o', 't', 'o', 'p', 'a', 'p', 'e', 'r', '2', 'l']);
    reveal_strlit("5x7");
    assert("5x7"@ =~= seq!['5', 'x', '7']);
    reveal_strlit("5r");
    assert("5r"@ =~= seq!['5', 'r']);
    reveal_strlit("2l");
    assert("2l"@ =~= seq!['2', 'l']);
    reveal_strlit("ep8x10in");
    assert("ep8x10in"@ =~= seq!['e', 'p', '8', 'x', '1', '0', 'i', 'n']);
    reveal_strlit("8x10");
    assert("8x10"@ =~= seq!['8', 'x', '1', '0']);
    reveal_strlit("epphotopaperlroll");
    assert("epphotopaperlroll"@ =~= seq!['e', 'p', 'p', 'h', 'o', 't', 'o', 'p', 'a', 'p', 'e', 'r', 'l', 'r', 'o', 'l', 'l']);
    reveal_strlit("3.5x5");
    assert("3.5x5"@ =~= seq!['3', '.', '5', 'x', '5']);
    reveal_strlit("l");
    assert("l"@ =~= seq!['l']);
    reveal_strlit("ephivision102x180");
    assert("ephivision102x180"@ =~= seq!['e', 'p', 'h', 'i', 'v', 'i', 's', 'i', 'o', 'n', '1', '0', '2', 'x', '1', '8', '0']);
    reveal_strlit("letter");
    assert("letter"@ =~= seq!['l', 'e', 't', 't', 'e', 'r']);
    reveal_strlit("8.5x11");
    assert("8.5x11"@ =~= seq!['8', '.', '5', 'x', '1', '1']);
    reveal_strlit("legal");
    assert("legal"@ =~= seq!['l', 'e', 'g', 'a', 'l']);
    reveal_strlit("a4");
    assert("a4"@ =~= seq!['a', '4']);
    reveal_strlit("a6");
    assert("a6"@ =~= seq!['a', '6']);
    reveal_strlit("ephalfletter");
    assert("ephalfletter"@ =~= seq!['e', 'p', 'h', 'a', 'l', 'f', 'l', 'e', 't', 't', 'e', 'r']);
    reveal_strlit("statement");
    assert("statement"@ =~= seq!['s', 't', 'a', 't', 'e', 'm', 'e', 'n', 't']);
    reveal_strlit("env10");
    assert("env10"@ =~= seq!['e', 'n', 'v', '1', '0']);
}

/// Each normalized keyword's configuration paper size, looked up.
proof fn lemma_sample_size_table()
    ensures
        sample_paper_size("4x6"@) == Some((28800u32, 43200u32)),
        sample_paper_size("kg"@) == Some((28800u32, 43200u32)),
        sample_paper_size("4r"@) == Some((28800u32, 43200u32)),
        sample_paper_size("5x7"@) == Some((36000u32, 50400u32)),
        sample_paper_size("5r"@) == Some((36000u32, 50400u32)),
        sample_paper_size("2l"@) == Some((36000u32, 50400u32)),
        sample_paper_size("8x10"@) == Some((57600u32, 72000u32)),
        sample_paper_size("3.5x5"@) == Some((25200u32, 36000u32)),
        sample_paper_size("l"@) == Some((25200u32, 36000u32)),
        sample_paper_size("letter"@) == Some((61200u32, 79200u32)),
        sample_paper_size("8.5x11"@) == Some((61200u32, 79200u32)),
        sample_paper_size("legal"@) == Some((61200u32, 100800u32)),
        sample_paper_size("a4"@) == Some((59528u32, 84189u32)),
        sample_paper_size("a6"@) == Some((29764u32, 41953u32)),
{
    reveal_strlit("4x6");
    assert("4x6"@ =~= seq!['4', 'x', '6']);
    reveal_strlit("kg");
    assert("kg"@ =~= seq!['k', 'g']);
    reveal_strlit("4r");
    assert("4r"@ =~= seq!['4', 'r']);
    reveal_strlit("5x7");
    assert("5x7"@ =~= seq!['5', 'x', '7']);
    reveal_strlit("5r");
    assert("5r"@ =~= seq!['5', 'r']);
    reveal_strlit("2l");
    assert("2l"@ =~= seq!['2', 'l']);
    reveal_strlit("8x10");
    assert("8x10"@ =~= seq!['8', 'x', '1', '0']);
    reveal_strlit("3.5x5");
    assert("3.5x5"@ =~= seq!['3', '.', '5', 'x', '5']);
    reveal_strlit("l");
    assert("l"@ =~= seq!['l']);
    reveal_strlit("letter");
    assert("letter"@ =~= seq!['l', 'e', 't', 't', 'e', 'r']);
    reveal_strlit("8.5x11");
    assert("8.5x11"@ =~= seq!['8', '.', '5', 'x', '1', '1']);
    reveal_strlit("legal");
    assert("legal"@ =~= seq!['l', 'e', 'g', 'a', 'l']);
    reveal_strlit("a4");
    assert("a4"@ =~= seq!['a', '4']);
    reveal_strlit("a6");
    assert("a6"@ =~= seq!['a', '6']);
}

/// The page sizes of the helper's PDF are the standard paper dimensions, in
/// hundredths of a point (7200 per inch), looked up by the lower-cased part
/// of the size keyword or PageSize before its first dot.
pub proof fn law_macos_paper_sizes(key: Seq<char>)
    ensures
        ({
            let b = lowercase(before_char(key, '.'));
            let size = macos_paper_size(b);
            &&& (b == "epkg"@ || b == "4x6"@ || b == "kg"@ || b == "4r"@) ==> size == Some(
                (28800u32, 43200u32),
            )
            &&& (b == "epphotopaper2l"@ || b == "5x7"@ || b == "5r"@ || b == "2l"@) ==> size
                == Some((36000u32, 50400u32))
            &&& (b == "ep8x10in"@ || b == "8x10"@) ==> size == Some((57600u32, 72000u32))
            &&& (b == "epphotopaperlroll"@ || b == "3.5x5"@ || b == "l"@) ==> size == Some(
                (25200u32, 36000u32),
            )
            &&& b == "ephivision102x180"@ ==> size == Some((28910u32, 51020u32))
            &&& (b == "letter"@ || b == "8.5x11"@) ==> size == Some((61200u32, 79200u32))
            &&& b == "legal"@ ==> size == Some((61200u32, 100800u32))
            &&& b == "a4"@ ==> size == Some((59528u32, 84189u32))
            &&& b == "a6"@ ==> size == Some((29764u32, 41953u32))
            &&& (b == "ephalfletter"@ || b == "statement"@) ==> size == Some((39600u32, 61200u32))
            &&& b == "env10"@ ==> size == Some((29700u32, 68400u32))
        }),
{
    lemma_macos_size_table();
}

/// The page of the helper's PDF is upright exactly when the preset does
/// not ask for landscape.
pub proof fn law_macos_page_orientation(settings: Seq<(Seq<char>, Seq<char>)>, keyword: Seq<char>)
    ensures
        landscape_requested(settings) <==> macos_page(settings, keyword).0 > macos_page(
            settings,
            keyword,
        ).1,
{
}

/// The configuration dialog is offered the standard paper size of the
/// preset's keyword, in hundredths of a point, and that is the size the
/// helper later prints the keyword on; the sample image goes with the
/// 4 x 6 in keywords.
pub proof fn law_sample_paper_sizes(n: Seq<char>)
    ensures
        (n == "4x6"@ || n == "kg"@ || n == "4r"@) ==> sample_paper_size(n) == Some(
            (28800u32, 43200u32),
        ),
        (n == "5x7"@ || n == "5r"@ || n == "2l"@) ==> sample_paper_size(n) == Some(
            (36000u32, 50400u32),
        ),
        n == "8x10"@ ==> sample_paper_size(n) == Some((57600u32, 72000u32)),
        (n == "3.5x5"@ || n == "l"@) ==> sample_paper_size(n) == Some((25200u32, 36000u32)),
        (n == "letter"@ || n == "8.5x11"@) ==> sample_paper_size(n) == Some((61200u32, 79200u32)),
        n == "legal"@ ==> sample_paper_size(n) == Some((61200u32, 100800u32)),
        n == "a4"@ ==> sample_paper_size(n) == Some((59528u32, 84189u32)),
        n == "a6"@ ==> sample_paper_size(n) == Some((29764u32, 41953u32)),
        sample_paper_size(n) matches Some(d) ==> macos_paper_size(n) == Some(d),
        wants_sample_image(n) ==> sample_paper_size(n) == Some((28800u32, 43200u32)),
{
    lemma_macos_size_table();
    lemma_sample_size_table();
}

} // verus!
