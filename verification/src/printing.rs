//! Printers and their options: what `lpstat` and `lpoptions` report, turned
//! into the records the application shows.

use vstd::prelude::*;
use crate::labels::{
    choice_value_label, color_matching_label, color_settings_label, epson_color_matching_label,
    epson_color_settings_label, epson_expansion_label, epson_media_type_label,
    epson_on_off_label, epson_quality_label, expansion_label, humanize_choice_value,
    humanize_option_key, humanize_page_size, media_type_label, on_off_label, option_key_label,
    page_size_label, quality_label,
};
use crate::text::{
    chars_of, contains, contains_lit, i64_literal, opt_chars, opt_str, is_lit,
    lines, lines_exec, lowercase, opt_view, parse_i64, i64_value, replace_char, replace_char_exec,
    slice, split_char, split_char_exec, split_once, split_once_lit, starts_with, starts_with_lit,
    string_of, strip_prefix, strip_prefix_lit, to_lowercase, trim, trim_chars, views, words,
    words_exec,
};

verus! {

/// A printer the system knows.
pub struct PrinterInfo {
    pub id: String,
    pub name: String,
    pub driver: String,
    pub is_default: bool,
    pub is_online: bool,
}

/// The mathematical model of a [`PrinterInfo`].
pub struct PrinterInfoView {
    pub id: Seq<char>,
    pub name: Seq<char>,
    pub driver: Seq<char>,
    pub is_default: bool,
    pub is_online: bool,
}

impl View for PrinterInfo {
    type V = PrinterInfoView;

    open spec fn view(&self) -> PrinterInfoView {
        PrinterInfoView {
            id: self.id@,
            name: self.name@,
            driver: self.driver@,
            is_default: self.is_default,
            is_online: self.is_online,
        }
    }
}

/// The models of a list of printers.
pub open spec fn printers_view(v: Seq<PrinterInfo>) -> Seq<PrinterInfoView> {
    v.map_values(|p: PrinterInfo| p@)
}

/// One selectable value of a printer option.
pub struct PrinterOptionChoice {
    /// Internal value (e.g. "4x6.Fullbleed", "photographic-glossy")
    pub value: String,
    /// Display label — same as value unless a better one can be derived
    pub label: String,
}

/// The mathematical model of a [`PrinterOptionChoice`].
pub struct ChoiceView {
    pub value: Seq<char>,
    pub label: Seq<char>,
}

impl View for PrinterOptionChoice {
    type V = ChoiceView;

    open spec fn view(&self) -> ChoiceView {
        ChoiceView { value: self.value@, label: self.label@ }
    }
}

/// The models of a list of choices.
pub open spec fn choices_view(v: Seq<PrinterOptionChoice>) -> Seq<ChoiceView> {
    v.map_values(|c: PrinterOptionChoice| c@)
}

/// A single printer option (e.g. "PageSize", "MediaType", "InputSlot").
/// Each has a list of choices and an optional default.
pub struct PrinterOption {
    /// Internal key (e.g. "PageSize", "MediaType", "InputSlot")
    pub key: String,
    /// Human-readable label (e.g. "Media Size", "Media Type", "Media Source")
    pub label: String,
    /// Available choices, in order
    pub choices: Vec<PrinterOptionChoice>,
    /// The key of the default choice, if any
    pub default_choice: Option<String>,
}

/// The mathematical model of a [`PrinterOption`].
pub struct OptionView {
    pub key: Seq<char>,
    pub label: Seq<char>,
    pub choices: Seq<ChoiceView>,
    pub default_choice: Option<Seq<char>>,
}

impl View for PrinterOption {
    type V = OptionView;

    open spec fn view(&self) -> OptionView {
        OptionView {
            key: self.key@,
            label: self.label@,
            choices: choices_view(self.choices@),
            default_choice: opt_view(self.default_choice),
        }
    }
}

/// The models of a list of options.
pub open spec fn options_view(v: Seq<PrinterOption>) -> Seq<OptionView> {
    v.map_values(|o: PrinterOption| o@)
}

/// All options reported by the driver.
pub struct PrinterCapabilities {
    pub options: Vec<PrinterOption>,
}

impl View for PrinterCapabilities {
    type V = Seq<OptionView>;

    open spec fn view(&self) -> Seq<OptionView> {
        options_view(self.options@)
    }
}

/// A choice built from two texts.
pub fn make_choice(value: &str, label: &str) -> (res: PrinterOptionChoice)
    ensures
        res@ == (ChoiceView { value: value@, label: label@ }),
{
    PrinterOptionChoice { value: String::from_str(value), label: String::from_str(label) }
}

proof fn lemma_push_views<A, B>(v: Seq<A>, x: A, f: spec_fn(A) -> B)
    ensures
        v.push(x).map_values(f) == v.map_values(f).push(f(x)),
{
    assert(v.push(x).map_values(f) =~= v.map_values(f).push(f(x)));
}

// ───────────────────────── printer discovery ─────────────────────────

/// The name `lpstat -d` reports as the default destination: the text
/// between the first and second colon, trimmed.
pub open spec fn default_printer_name(out: Option<Seq<char>>) -> Option<Seq<char>> {
    match out {
        Some(t) => if split_char(t, ':').len() > 1 {
            Some(trim(split_char(t, ':')[1]))
        } else {
            None
        },
        None => None,
    }
}

/// The printer an `lpstat -p` line describes: "printer QUEUE ...".
pub open spec fn lpstat_printer(line: Seq<char>, default_name: Option<Seq<char>>) -> Option<
    PrinterInfoView,
> {
    match strip_prefix(line, "printer "@) {
        Some(rest) => if words(rest).len() > 0 {
            let q = words(rest)[0];
            Some(
                PrinterInfoView {
                    id: q,
                    name: replace_char(q, '_', " "@),
                    driver: Seq::empty(),
                    is_default: default_name == Some(q),
                    is_online: !contains(rest, "disabled"@),
                },
            )
        } else {
            None
        },
        None => None,
    }
}

/// The printers the `lpstat -p` lines describe, in order.
pub open spec fn lpstat_printer_list(ls: Seq<Seq<char>>, default_name: Option<Seq<char>>) -> Seq<
    PrinterInfoView,
>
    decreases ls.len(),
{
    if ls.len() == 0 {
        Seq::empty()
    } else {
        lpstat_printer_list(ls.drop_last(), default_name) + match lpstat_printer(
            ls.last(),
            default_name,
        ) {
            Some(p) => seq![p],
            None => Seq::empty(),
        }
    }
}

/// The printers CUPS reports, from the output of `lpstat -d` and `lpstat -p`
/// (each absent when the command failed).
pub open spec fn discovered_printers(default_out: Option<Seq<char>>, list_out: Option<Seq<char>>) -> Seq<
    PrinterInfoView,
> {
    match list_out {
        Some(t) => lpstat_printer_list(lines(t), default_printer_name(default_out)),
        None => Seq::empty(),
    }
}

fn default_printer_name_exec(out: Option<&str>) -> (res: Option<Vec<char>>)
    ensures
        opt_chars(res) == default_printer_name(opt_str(out)),
{
    match out {
        Some(t) => {
            let c = chars_of(t);
            let pieces = split_char_exec(&c, ':');
            if pieces.len() > 1 {
                assert(pieces@[1]@ == views(pieces@)[1]);
                Some(trim_chars(&pieces[1]))
            } else {
                None
            }
        },
        None => None,
    }
}

fn same_opt(a: &Option<Vec<char>>, b: &Vec<char>) -> (res: bool)
    ensures
        res == (opt_chars(*a) == Some(b@)),
{
    match a {
        Some(v) => crate::text::same(v, b),
        None => false,
    }
}

/// The printers CUPS reports.  `lpstat_default` and `lpstat_printers` are
/// the outputs of `lpstat -d` and `lpstat -p`, or `None` where the command
/// failed.  Each "printer QUEUE ..." line gives a printer whose id is the
/// queue name, whose name has underscores shown as spaces, that is online
/// unless the line says "disabled", and that is the default when the queue
/// is the default destination.
pub fn discover_printers(lpstat_default: Option<&str>, lpstat_printers: Option<&str>) -> (res: Vec<
    PrinterInfo,
>)
    ensures
        printers_view(res@) == discovered_printers(
            opt_str(lpstat_default),
            opt_str(lpstat_printers),
        ),
{
    let default_name = default_printer_name_exec(lpstat_default);
    let ghost dn = opt_chars(default_name);
    let mut out: Vec<PrinterInfo> = Vec::new();
    match lpstat_printers {
        Some(t) => {
            let c = chars_of(t);
            let ls = lines_exec(&c);
            let mut i: usize = 0;
            while i < ls.len()
                invariant
                    i <= ls.len(),
                    views(ls@) == lines(t@),
                    dn == opt_chars(default_name),
                    printers_view(out@) == lpstat_printer_list(views(ls@).take(i as int), dn),
                decreases ls.len() - i,
            {
                let line = &ls[i];
                assert(line@ == views(ls@)[i as int]);
                assert(views(ls@).take(i + 1).drop_last() =~= views(ls@).take(i as int));
                match strip_prefix_lit(line, "printer ") {
                    Some(rest) => {
                        let ws = words_exec(&rest);
                        if ws.len() > 0 {
                            let q = &ws[0];
                            assert(q@ == views(ws@)[0]);
                            let under = chars_of(" ");
                            let name = replace_char_exec(q, '_', &under);
                            let is_default = same_opt(&default_name, q);
                            let is_online = !contains_lit(&rest, "disabled");
                            let p = PrinterInfo {
                                id: string_of(q),
                                name: string_of(&name),
                                driver: String::new(),
                                is_default,
                                is_online,
                            };
                            let ghost before = out@;
                            out.push(p);
                            proof {
                                lemma_push_views(before, out@.last(), |p: PrinterInfo| p@);
                            }
                        }
                    },
                    None => {},
                }
                i = i + 1;
            }
            assert(views(ls@).take(ls.len() as int) =~= views(ls@));
        },
        None => {},
    }
    out
}

/// The printers the system printer list reports: `(name, driver)` pairs
/// and the default printer's name.
pub open spec fn system_printers(
    system: Seq<(Seq<char>, Seq<char>)>,
    default_name: Option<Seq<char>>,
) -> Seq<PrinterInfoView> {
    system.map_values(
        |p: (Seq<char>, Seq<char>)|
            PrinterInfoView {
                id: p.0,
                name: p.0,
                driver: p.1,
                is_default: default_name == Some(p.0),
                is_online: true,
            },
    )
}

/// The printers of the system printer list, each online, the default one
/// marked: `system` holds each printer's name and driver name.
pub fn printers_from_system(system: &Vec<(String, String)>, default_name: Option<&str>) -> (res:
    Vec<PrinterInfo>)
    ensures
        printers_view(res@) == system_printers(
            crate::text::pairs_view(system@),
            opt_str(default_name),
        ),
{
    let dn: Option<Vec<char>> = match default_name {
        Some(t) => Some(chars_of(t)),
        None => None,
    };
    let ghost gdn = opt_str(default_name);
    let ghost target = system_printers(crate::text::pairs_view(system@), gdn);
    let mut out: Vec<PrinterInfo> = Vec::new();
    let mut i: usize = 0;
    while i < system.len()
        invariant
            i <= system.len(),
            gdn == opt_chars(dn),
            target == system_printers(crate::text::pairs_view(system@), gdn),
            target.len() == system@.len(),
            printers_view(out@) =~= target.take(i as int),
        decreases system.len() - i,
    {
        let name = chars_of(system[i].0.as_str());
        let is_default = same_opt(&dn, &name);
        let p = PrinterInfo {
            id: system[i].0.clone(),
            name: system[i].0.clone(),
            driver: system[i].1.clone(),
            is_default,
            is_online: true,
        };
        let ghost before = out@;
        out.push(p);
        proof {
            lemma_push_views(before, out@.last(), |p: PrinterInfo| p@);
            assert(target.take(i + 1) =~= target.take(i as int).push(target[i as int]));
        }
        i = i + 1;
    }
    out
}

/// The printers CUPS reports, or, when it reports none, those of the
/// system printer list (`system` holds each printer's name and driver name,
/// `system_default` the default printer's name).
pub fn discover_printers_or_system(
    lpstat_default: Option<&str>,
    lpstat_printers: Option<&str>,
    system: &Vec<(String, String)>,
    system_default: Option<&str>,
) -> (res: Vec<PrinterInfo>)
    ensures
        printers_view(res@) == if discovered_printers(
            opt_str(lpstat_default),
            opt_str(lpstat_printers),
        ).len() == 0 {
            system_printers(crate::text::pairs_view(system@), opt_str(system_default))
        } else {
            discovered_printers(opt_str(lpstat_default), opt_str(lpstat_printers))
        },
{
    let cups = discover_printers(lpstat_default, lpstat_printers);
    if cups.len() == 0 {
        printers_from_system(system, system_default)
    } else {
        cups
    }
}

// ───────────────────────── lpoptions ─────────────────────────

/// Vendor keys kept although they carry a vendor prefix.
pub open spec fn allowlisted(key: Seq<char>) -> bool {
    ||| starts_with(key, "EPIJ_Qual"@)
    ||| starts_with(key, "EPIJ_exmg"@)
    ||| starts_with(key, "EPIJ_DSPr"@)
    ||| starts_with(key, "EPIJ_Silt"@)
    ||| starts_with(key, "EPIJ_OSColMat"@)
    ||| starts_with(key, "EPIJ_CMat"@)
}

/// A vendor-specific option key (Epson, Canon, Brother) that is not allowlisted.
pub open spec fn vendor_option(key: Seq<char>) -> bool {
    &&& (starts_with(key, "EPIJ_"@) || starts_with(key, "EPIJ"@) || starts_with(key, "CNIj"@)
        || starts_with(key, "BR"@))
    &&& !allowlisted(key)
}

fn is_vendor_key(key: &Vec<char>) -> (res: bool)
    ensures
        res == vendor_option(key@),
{
    let is_vendor = starts_with_lit(key, "EPIJ_") || starts_with_lit(key, "EPIJ")
        || starts_with_lit(key, "CNIj") || starts_with_lit(key, "BR");
    if !is_vendor {
        return false;
    }
    let allowed = starts_with_lit(key, "EPIJ_Qual") || starts_with_lit(key, "EPIJ_exmg")
        || starts_with_lit(key, "EPIJ_DSPr") || starts_with_lit(key, "EPIJ_Silt")
        || starts_with_lit(key, "EPIJ_OSColMat") || starts_with_lit(key, "EPIJ_CMat");
    !allowed
}

/// Returns true for vendor-specific option keys that should be filtered out.
/// Allowlisted vendor options are kept.
pub fn is_vendor_option(key: &str) -> (res: bool)
    ensures
        res == vendor_option(key@),
{
    let k = chars_of(key);
    is_vendor_key(&k)
}

/// The value of choice `i` is one more than that of choice `i - 1`.
pub open spec fn consecutive_at(cs: Seq<ChoiceView>, i: int) -> bool {
    i64_value(cs[i].value) == i64_value(cs[i - 1].value) + 1
}

/// Slider-style options: ten or more choices that are consecutive
/// integers, each one more than the one before.
pub open spec fn numeric_range(cs: Seq<ChoiceView>) -> bool {
    &&& cs.len() >= 10
    &&& forall|i: int| 0 <= i < cs.len() ==> i64_literal(#[trigger] cs[i].value)
    &&& forall|i: int| 0 < i < cs.len() ==> #[trigger] consecutive_at(cs, i)
}

/// Detect options that are slider-style ranges (many consecutive integers).
pub fn is_numeric_range(choices: &Vec<PrinterOptionChoice>) -> (res: bool)
    ensures
        res == numeric_range(choices_view(choices@)),
{
    let ghost cs = choices_view(choices@);
    if choices.len() < 10 {
        return false;
    }
    let mut prev: i64 = 0;
    let mut i: usize = 0;
    while i < choices.len()
        invariant
            i <= choices.len(),
            cs == choices_view(choices@),
            cs.len() == choices.len(),
            forall|k: int| 0 <= k < i ==> i64_literal(#[trigger] cs[k].value),
            forall|k: int| 0 < k < i ==> #[trigger] consecutive_at(cs, k),
            i > 0 ==> prev == i64_value(cs[i - 1].value),
        decreases choices.len() - i,
    {
        let v = chars_of(choices[i].value.as_str());
        assert(cs[i as int].value == choices@[i as int].value@);
        match parse_i64(&v) {
            None => {
                return false;
            },
            Some(x) => {
                if i > 0 {
                    if prev == i64::MAX || prev + 1 != x {
                        assert(!consecutive_at(cs, i as int));
                        return false;
                    }
                    assert(consecutive_at(cs, i as int));
                }
                prev = x;
            },
        }
        i = i + 1;
    }
    true
}

/// Which table labels the values of an option key.
pub open spec fn label_kind(key: Seq<char>) -> int {
    if key == "MediaType"@ {
        0
    } else if key == "PageSize"@ {
        1
    } else if starts_with(key, "EPIJ_Qual"@) {
        2
    } else if starts_with(key, "EPIJ_exmg"@) {
        3
    } else if starts_with(key, "EPIJ_DSPr"@) || starts_with(key, "EPIJ_Silt"@) {
        4
    } else if starts_with(key, "EPIJ_OSColMat"@) {
        5
    } else if starts_with(key, "EPIJ_CMat"@) {
        6
    } else {
        7
    }
}

/// Keys whose values have a table of their own (page sizes excepted).
pub open spec fn has_label_mapping(key: Seq<char>) -> bool {
    label_kind(key) != 1 && label_kind(key) != 7
}

/// A table label, or the humanized value where the table has none.
pub open spec fn or_humanized(l: Option<Seq<char>>, value: Seq<char>) -> Seq<char> {
    match l {
        Some(x) => x,
        None => choice_value_label(value),
    }
}

/// The label of a value of the option `key`.
pub open spec fn choice_label(key: Seq<char>, value: Seq<char>) -> Seq<char> {
    let k = label_kind(key);
    if k == 0 {
        or_humanized(media_type_label(value), value)
    } else if k == 1 {
        page_size_label(value)
    } else if k == 2 {
        or_humanized(quality_label(value), value)
    } else if k == 3 {
        or_humanized(expansion_label(value), value)
    } else if k == 4 {
        or_humanized(on_off_label(value), value)
    } else if k == 5 {
        or_humanized(color_matching_label(value), value)
    } else if k == 6 {
        or_humanized(color_settings_label(value), value)
    } else {
        choice_value_label(value)
    }
}

/// A token without the `*` that marks the default.
pub open spec fn token_value(t: Seq<char>) -> Seq<char> {
    if t.len() > 0 && t[0] == '*' {
        t.skip(1)
    } else {
        t
    }
}

/// The choice a token of the option `key` gives.
pub open spec fn token_choice(key: Seq<char>, t: Seq<char>) -> ChoiceView {
    ChoiceView { value: token_value(t), label: choice_label(key, token_value(t)) }
}

/// The last token marked with `*`, without the mark.
pub open spec fn default_token(ts: Seq<Seq<char>>) -> Option<Seq<char>>
    decreases ts.len(),
{
    if ts.len() == 0 {
        None
    } else if ts.last().len() > 0 && ts.last()[0] == '*' {
        Some(ts.last().skip(1))
    } else {
        default_token(ts.drop_last())
    }
}

/// The option one line of `lpoptions -p PRINTER -l` describes:
/// "KeyName/Display Label: choice1 *defaultChoice choice3".  Lines without
/// ": ", vendor options, options with one choice (but PageSize) and
/// slider-style ranges give none.
pub open spec fn lpoptions_line(line: Seq<char>) -> Option<OptionView> {
    let l = trim(line);
    if l.len() == 0 {
        None
    } else {
        match split_once(l, ": "@) {
            None => None,
            Some((kp, cp)) => {
                let key = match split_once(kp, "/"@) {
                    Some((k, _lab)) => trim(k),
                    None => trim(kp),
                };
                let label = match split_once(kp, "/"@) {
                    Some((_k, lab)) => trim(lab),
                    None => option_key_label(trim(kp)),
                };
                if vendor_option(key) {
                    None
                } else {
                    let ts = words(cp);
                    let choices = ts.map_values(|t: Seq<char>| token_choice(key, t));
                    if choices.len() <= 1 && key != "PageSize"@ {
                        None
                    } else if !has_label_mapping(key) && numeric_range(choices) {
                        None
                    } else {
                        Some(
                            OptionView {
                                key: key,
                                label: label,
                                choices: choices,
                                default_choice: default_token(ts),
                            },
                        )
                    }
                }
            },
        }
    }
}

/// The options the lines of `lpoptions -l` describe, in order.
pub open spec fn lpoptions_options(ls: Seq<Seq<char>>) -> Seq<OptionView>
    decreases ls.len(),
{
    if ls.len() == 0 {
        Seq::empty()
    } else {
        lpoptions_options(ls.drop_last()) + match lpoptions_line(ls.last()) {
            Some(o) => seq![o],
            None => Seq::empty(),
        }
    }
}

fn label_kind_exec(key: &Vec<char>) -> (res: u8)
    ensures
        res as int == label_kind(key@),
{
    if is_lit(key, "MediaType") {
        0
    } else if is_lit(key, "PageSize") {
        1
    } else if starts_with_lit(key, "EPIJ_Qual") {
        2
    } else if starts_with_lit(key, "EPIJ_exmg") {
        3
    } else if starts_with_lit(key, "EPIJ_DSPr") || starts_with_lit(key, "EPIJ_Silt") {
        4
    } else if starts_with_lit(key, "EPIJ_OSColMat") {
        5
    } else if starts_with_lit(key, "EPIJ_CMat") {
        6
    } else {
        7
    }
}

fn or_humanized_exec(l: Option<&'static str>, value: &str) -> (res: String)
    ensures
        res@ == or_humanized(
            match l {
                Some(x) => Some(x@),
                None => None,
            },
            value@,
        ),
{
    match l {
        Some(x) => String::from_str(x),
        None => humanize_choice_value(value),
    }
}

fn choice_label_exec(kind: u8, key: &Ghost<Seq<char>>, value: &str) -> (res: String)
    requires
        kind as int == label_kind(key@),
    ensures
        res@ == choice_label(key@, value@),
{
    if kind == 0 {
        or_humanized_exec(epson_media_type_label(value), value)
    } else if kind == 1 {
        humanize_page_size(value)
    } else if kind == 2 {
        or_humanized_exec(epson_quality_label(value), value)
    } else if kind == 3 {
        or_humanized_exec(epson_expansion_label(value), value)
    } else if kind == 4 {
        or_humanized_exec(epson_on_off_label(value), value)
    } else if kind == 5 {
        or_humanized_exec(epson_color_matching_label(value), value)
    } else if kind == 6 {
        or_humanized_exec(epson_color_settings_label(value), value)
    } else {
        humanize_choice_value(value)
    }
}

/// The option one `lpoptions -l` line describes (see [`lpoptions_line`]).
fn parse_lpoptions_line(line: &Vec<char>) -> (res: Option<PrinterOption>)
    ensures
        (match res {
            Some(o) => Some(o@),
            None => None,
        }) == lpoptions_line(line@),
{
    let l = trim_chars(line);
    if l.len() == 0 {
        return None;
    }
    let (kp, cp) = match split_once_lit(&l, ": ") {
        Some(parts) => parts,
        None => {
            return None;
        },
    };
    let (key, label) = match split_once_lit(&kp, "/") {
        Some((k, lab)) => (trim_chars(&k), string_of(&trim_chars(&lab))),
        None => {
            let k = trim_chars(&kp);
            let ks = string_of(&k);
            let lab = humanize_option_key(ks.as_str());
            (k, lab)
        },
    };
    if is_vendor_key(&key) {
        return None;
    }
    let kind = label_kind_exec(&key);
    let ghost gkey = key@;
    let gk = Ghost(gkey);
    let ts = words_exec(&cp);
    let ghost tsv = views(ts@);
    let mut choices: Vec<PrinterOptionChoice> = Vec::new();
    let mut default_choice: Option<String> = None;
    let mut i: usize = 0;
    while i < ts.len()
        invariant
            i <= ts.len(),
            tsv == views(ts@),
            tsv == words(cp@),
            kind as int == label_kind(gkey),
            gk@ == gkey,
            choices_view(choices@) == tsv.take(i as int).map_values(
                |t: Seq<char>| token_choice(gkey, t),
            ),
            opt_view(default_choice) == default_token(tsv.take(i as int)),
        decreases ts.len() - i,
    {
        let tok = &ts[i];
        assert(tok@ == tsv[i as int]);
        let is_default = tok.len() > 0 && tok[0] == '*';
        let value = if is_default {
            slice(tok, 1, tok.len())
        } else {
            slice(tok, 0, tok.len())
        };
        assert(value@ =~= token_value(tok@));
        let vs = string_of(&value);
        let lab = choice_label_exec(kind, &gk, vs.as_str());
        assert(tsv.take(i + 1).drop_last() =~= tsv.take(i as int));
        if is_default {
            default_choice = Some(string_of(&value));
        }
        let ghost before = choices@;
        choices.push(PrinterOptionChoice { value: vs, label: lab });
        proof {
            lemma_push_views(before, choices@.last(), |c: PrinterOptionChoice| c@);
            assert(tsv.take(i + 1) =~= tsv.take(i as int).push(tsv[i as int]));
            lemma_push_views(tsv.take(i as int), tsv[i as int], |t: Seq<char>| token_choice(gkey, t));
        }
        i = i + 1;
    }
    assert(tsv.take(ts.len() as int) =~= tsv);
    let is_page_size = is_lit(&key, "PageSize");
    if choices.len() <= 1 && !is_page_size {
        return None;
    }
    let has_mapping = kind != 1 && kind != 7;
    if !has_mapping && is_numeric_range(&choices) {
        return None;
    }
    Some(PrinterOption { key: string_of(&key), label, choices, default_choice })
}

/// Parse the output of `lpoptions -p <printer> -l` (see [`lpoptions_line`]).
pub fn parse_lpoptions(text: &str) -> (res: Vec<PrinterOption>)
    ensures
        options_view(res@) == lpoptions_options(lines(text@)),
{
    let c = chars_of(text);
    let ls = lines_exec(&c);
    let ghost lv = views(ls@);
    let mut out: Vec<PrinterOption> = Vec::new();
    let mut i: usize = 0;
    while i < ls.len()
        invariant
            i <= ls.len(),
            lv == views(ls@),
            lv == lines(text@),
            options_view(out@) == lpoptions_options(lv.take(i as int)),
        decreases ls.len() - i,
    {
        assert(ls@[i as int]@ == lv[i as int]);
        assert(lv.take(i + 1).drop_last() =~= lv.take(i as int));
        match parse_lpoptions_line(&ls[i]) {
            Some(o) => {
                let ghost before = out@;
                out.push(o);
                proof {
                    lemma_push_views(before, out@.last(), |o: PrinterOption| o@);
                }
            },
            None => {},
        }
        assert(options_view(out@) =~= lpoptions_options(lv.take(i + 1)));
        i = i + 1;
    }
    assert(lv.take(ls.len() as int) =~= lv);
    out
}

// ───────────────────────── CUPS capabilities ─────────────────────────

/// The CUPS print-scaling option, offered when the driver lists none.
pub open spec fn scaling_option() -> OptionView {
    OptionView {
        key: "print-scaling"@,
        label: "Image Scaling"@,
        choices: seq![
            ChoiceView { value: "none"@, label: "None (original size)"@ },
            ChoiceView { value: "fit"@, label: "Fit to page"@ },
            ChoiceView { value: "fill"@, label: "Fill page (may crop)"@ },
            ChoiceView { value: "auto"@, label: "Auto (CUPS default)"@ },
        ],
        default_choice: Some("none"@),
    }
}

/// The CUPS orientation option, offered when the driver lists none.
pub open spec fn cups_orientation_option() -> OptionView {
    OptionView {
        key: "orientation-requested"@,
        label: "Orientation"@,
        choices: seq![
            ChoiceView { value: "3"@, label: "Portrait"@ },
            ChoiceView { value: "4"@, label: "Landscape"@ },
            ChoiceView { value: "5"@, label: "Reverse Landscape"@ },
            ChoiceView { value: "6"@, label: "Reverse Portrait"@ },
        ],
        default_choice: Some("3"@),
    }
}

/// Some option has the key `k`.
pub open spec fn has_key(opts: Seq<OptionView>, k: Seq<char>) -> bool {
    exists|i: int| 0 <= i < opts.len() && #[trigger] opts[i].key == k
}

/// Some option's lower-cased key mentions "orientation".
pub open spec fn has_orientation(opts: Seq<OptionView>) -> bool {
    exists|i: int| 0 <= i < opts.len() && contains(lowercase(#[trigger] opts[i].key), "orientation"@)
}

/// The options CUPS offers for a printer: those `lpoptions -l` reports
/// (none when the command failed), then print-scaling and orientation
/// options where the driver lists none.
pub open spec fn cups_capabilities(out: Option<Seq<char>>) -> Seq<OptionView> {
    let base = match out {
        Some(t) => lpoptions_options(lines(t)),
        None => Seq::empty(),
    };
    let s = if has_key(base, "print-scaling"@) {
        base
    } else {
        base.push(scaling_option())
    };
    if has_orientation(s) {
        s
    } else {
        s.push(cups_orientation_option())
    }
}

fn has_key_exec(opts: &Vec<PrinterOption>, k: &str) -> (res: bool)
    ensures
        res == has_key(options_view(opts@), k@),
{
    let kc = chars_of(k);
    let mut i: usize = 0;
    while i < opts.len()
        invariant
            i <= opts.len(),
            kc@ == k@,
            forall|j: int| 0 <= j < i ==> #[trigger] options_view(opts@)[j].key != k@,
        decreases opts.len() - i,
    {
        let key = chars_of(opts[i].key.as_str());
        assert(options_view(opts@)[i as int].key == opts@[i as int].key@);
        if crate::text::same(&key, &kc) {
            return true;
        }
        i = i + 1;
    }
    false
}

/// Whether some option's lower-cased key mentions "orientation".
pub fn has_orientation_option(opts: &Vec<PrinterOption>) -> (res: bool)
    ensures
        res == has_orientation(options_view(opts@)),
{
    let mut i: usize = 0;
    while i < opts.len()
        invariant
            i <= opts.len(),
            forall|j: int|
                0 <= j < i ==> !contains(
                    lowercase(#[trigger] options_view(opts@)[j].key),
                    "orientation"@,
                ),
        decreases opts.len() - i,
    {
        let key = chars_of(opts[i].key.as_str());
        assert(options_view(opts@)[i as int].key == opts@[i as int].key@);
        let lower = to_lowercase(&key);
        if contains_lit(&lower, "orientation") {
            return true;
        }
        i = i + 1;
    }
    false
}

/// Options of a printer under CUPS: `lpoptions_output` is the output of
/// `lpoptions -p <printer> -l`, or `None` where the command failed.
pub fn get_printer_capabilities(lpoptions_output: Option<&str>) -> (res: PrinterCapabilities)
    ensures
        res@ == cups_capabilities(
            opt_str(lpoptions_output),
        ),
{
    let mut options = match lpoptions_output {
        Some(t) => parse_lpoptions(t),
        None => Vec::new(),
    };
    let ghost base = options_view(options@);
    assert(base == match opt_str(lpoptions_output) {
        Some(t) => lpoptions_options(lines(t)),
        None => Seq::<OptionView>::empty(),
    }) by {
        if lpoptions_output.is_none() {
            assert(base =~= Seq::<OptionView>::empty());
        }
    }
    if !has_key_exec(&options, "print-scaling") {
        let mut choices: Vec<PrinterOptionChoice> = Vec::new();
        choices.push(make_choice("none", "None (original size)"));
        choices.push(make_choice("fit", "Fit to page"));
        choices.push(make_choice("fill", "Fill page (may crop)"));
        choices.push(make_choice("auto", "Auto (CUPS default)"));
        let o = PrinterOption {
            key: String::from_str("print-scaling"),
            label: String::from_str("Image Scaling"),
            choices,
            default_choice: Some(String::from_str("none")),
        };
        assert(o@.choices =~= scaling_option().choices);
        assert(o@ == scaling_option());
        let ghost before = options@;
        options.push(o);
        proof {
            lemma_push_views(before, options@.last(), |o: PrinterOption| o@);
        }
    }
    let ghost with_scaling = options_view(options@);
    assert(with_scaling == if has_key(base, "print-scaling"@) {
        base
    } else {
        base.push(scaling_option())
    });
    if !has_orientation_option(&options) {
        let mut choices: Vec<PrinterOptionChoice> = Vec::new();
        choices.push(make_choice("3", "Portrait"));
        choices.push(make_choice("4", "Landscape"));
        choices.push(make_choice("5", "Reverse Landscape"));
        choices.push(make_choice("6", "Reverse Portrait"));
        let o = PrinterOption {
            key: String::from_str("orientation-requested"),
            label: String::from_str("Orientation"),
            choices,
            default_choice: Some(String::from_str("3")),
        };
        assert(o@.choices =~= cups_orientation_option().choices);
        assert(o@ == cups_orientation_option());
        let ghost before = options@;
        options.push(o);
        proof {
            lemma_push_views(before, options@.last(), |o: PrinterOption| o@);
        }
    }
    PrinterCapabilities { options }
}

// ───────────────────────── laws ─────────────────────────

/// Every option read from `lpoptions -l` is a non-vendor option with at
/// least two choices (a page size may have one) that is not a slider-style
/// range, unless its values have a table of labels.
pub proof fn law_lpoptions_are_filtered(ls: Seq<Seq<char>>)
    ensures
        forall|k: int|
            0 <= k < lpoptions_options(ls).len() ==> {
                let o = #[trigger] lpoptions_options(ls)[k];
                &&& !vendor_option(o.key)
                &&& (o.choices.len() >= 2 || o.key == "PageSize"@)
                &&& (has_label_mapping(o.key) || !numeric_range(o.choices))
            },
    decreases ls.len(),
{
    if ls.len() > 0 {
        law_lpoptions_are_filtered(ls.drop_last());
        let prev = lpoptions_options(ls.drop_last());
        let all = lpoptions_options(ls);
        assert forall|k: int| 0 <= k < all.len() implies {
            let o = #[trigger] all[k];
            &&& !vendor_option(o.key)
            &&& (o.choices.len() >= 2 || o.key == "PageSize"@)
            &&& (has_label_mapping(o.key) || !numeric_range(o.choices))
        } by {
            if k < prev.len() {
                assert(all[k] == prev[k]);
            }
        }
    }
}

/// The options offered under CUPS always include a print-scaling option,
/// and begin with what `lpoptions -l` reported, in its order.
pub proof fn law_cups_capabilities_offer_scaling(out: Option<Seq<char>>)
    ensures
        has_key(cups_capabilities(out), "print-scaling"@),
        ({
            let base = match out {
                Some(t) => lpoptions_options(lines(t)),
                None => Seq::empty(),
            };
            &&& base.len() <= cups_capabilities(out).len()
            &&& cups_capabilities(out).take(base.len() as int) == base
        }),
{
    let base = match out {
        Some(t) => lpoptions_options(lines(t)),
        None => Seq::<OptionView>::empty(),
    };
    let s = if has_key(base, "print-scaling"@) {
        base
    } else {
        base.push(scaling_option())
    };
    if !has_key(base, "print-scaling"@) {
        assert(s[base.len() as int].key == "print-scaling"@);
    }
    assert(has_key(s, "print-scaling"@));
    let c = cups_capabilities(out);
    if !has_orientation(s) {
        let i = choose|i: int| 0 <= i < s.len() && #[trigger] s[i].key == "print-scaling"@;
        assert(c[i] == s[i]);
    }
    assert(c.take(base.len() as int) =~= base);
}

/// The six Epson options kept although they carry the vendor prefix:
/// quality, borderless expansion, 2-sided printing, quiet mode, colour
/// matching and colour settings.  A key starting with any of them is never
/// treated as a vendor option; every other key starting with "EPIJ", "CNIj"
/// or "BR" is, and no other key is.
pub proof fn law_allowlisted_epson_options_kept(key: Seq<char>)
    ensures
        starts_with(key, "EPIJ_Qual"@) ==> !vendor_option(key),
        starts_with(key, "EPIJ_exmg"@) ==> !vendor_option(key),
        starts_with(key, "EPIJ_DSPr"@) ==> !vendor_option(key),
        starts_with(key, "EPIJ_Silt"@) ==> !vendor_option(key),
        starts_with(key, "EPIJ_OSColMat"@) ==> !vendor_option(key),
        starts_with(key, "EPIJ_CMat"@) ==> !vendor_option(key),
        vendor_option(key) <==> {
            &&& (starts_with(key, "EPIJ_"@) || starts_with(key, "EPIJ"@) || starts_with(key, "CNIj"@)
                || starts_with(key, "BR"@))
            &&& !starts_with(key, "EPIJ_Qual"@)
            &&& !starts_with(key, "EPIJ_exmg"@)
            &&& !starts_with(key, "EPIJ_DSPr"@)
            &&& !starts_with(key, "EPIJ_Silt"@)
            &&& !starts_with(key, "EPIJ_OSColMat"@)
            &&& !starts_with(key, "EPIJ_CMat"@)
        },
{
}

} // verus!
