//! Printer options under Windows: the Print Capabilities report, as the
//! PowerShell query prints it ("FEATURE:", "OPTION:" and "PROP:" lines).

use vstd::prelude::*;
use crate::labels::{humanize_option_key, humanize_psk_key, option_key_label, psk_label};
use crate::printing::{
    has_orientation, has_orientation_option, make_choice, options_view, ChoiceView, OptionView,
    PrinterCapabilities, PrinterOption, PrinterOptionChoice, choices_view,
};
use crate::text::{
    chars_of, concat, lines, lines_exec, opt_str, same, split_once, split_once_lit, string_of,
    strip_prefix, strip_prefix_lit, trim, trim_chars, views,
};

verus! {

/// Property names with the values reported for them, in the order the
/// names first appear.
pub open spec fn props_view(v: Seq<(String, Vec<String>)>) -> Seq<(Seq<char>, Seq<Seq<char>>)> {
    v.map_values(|p: (String, Vec<String>)| (p.0@, p.1@.map_values(|s: String| s@)))
}

/// The first position of the property `name`.
pub open spec fn prop_index(props: Seq<(Seq<char>, Seq<Seq<char>>)>, name: Seq<char>) -> Option<
    int,
>
    decreases props.len(),
{
    if props.len() == 0 {
        None
    } else {
        match prop_index(props.drop_last(), name) {
            Some(i) => Some(i),
            None => if props.last().0 == name {
                Some(props.len() - 1)
            } else {
                None
            },
        }
    }
}

/// The properties after `value` is reported for `name`.
pub open spec fn add_prop(
    props: Seq<(Seq<char>, Seq<Seq<char>>)>,
    name: Seq<char>,
    value: Seq<char>,
) -> Seq<(Seq<char>, Seq<Seq<char>>)> {
    match prop_index(props, name) {
        Some(i) => props.update(i, (name, props[i].1.push(value))),
        None => props.push((name, seq![value])),
    }
}

/// The options so far, with the feature being read added when it has choices.
pub open spec fn flush(opts: Seq<OptionView>, cur: Option<OptionView>) -> Seq<OptionView> {
    match cur {
        Some(f) => if f.choices.len() > 0 {
            opts.push(f)
        } else {
            opts
        },
        None => opts,
    }
}

/// What reading the report has gathered: finished options, the feature
/// being read, and the properties.
pub struct ReportState {
    pub options: Seq<OptionView>,
    pub current: Option<OptionView>,
    pub props: Seq<(Seq<char>, Seq<Seq<char>>)>,
}

/// Reading one line of the report.
pub open spec fn report_step(st: ReportState, line: Seq<char>) -> ReportState {
    let l = trim(line);
    match strip_prefix(l, "FEATURE:"@) {
        Some(name) => ReportState {
            options: flush(st.options, st.current),
            current: Some(
                OptionView {
                    key: name,
                    label: psk_label(name),
                    choices: Seq::empty(),
                    default_choice: None,
                },
            ),
            props: st.props,
        },
        None => match strip_prefix(l, "OPTION:"@) {
            Some(o) => match st.current {
                Some(f) => ReportState {
                    current: Some(
                        OptionView {
                            choices: f.choices.push(ChoiceView { value: o, label: psk_label(o) }),
                            ..f
                        },
                    ),
                    ..st
                },
                None => st,
            },
            None => match strip_prefix(l, "PROP:"@) {
                Some(p) => match split_once(p, "="@) {
                    Some((n, v)) => ReportState { props: add_prop(st.props, n, v), ..st },
                    None => st,
                },
                None => st,
            },
        },
    }
}

/// Reading the lines of the report in order.
pub open spec fn report_fold(ls: Seq<Seq<char>>) -> ReportState
    decreases ls.len(),
{
    if ls.len() == 0 {
        ReportState { options: Seq::empty(), current: None, props: Seq::empty() }
    } else {
        report_step(report_fold(ls.drop_last()), ls.last())
    }
}

/// Options made of properties: the name as key, each value as a choice.
pub open spec fn prop_options(props: Seq<(Seq<char>, Seq<Seq<char>>)>) -> Seq<OptionView>
    decreases props.len(),
{
    if props.len() == 0 {
        Seq::empty()
    } else {
        let (n, vs) = props.last();
        prop_options(props.drop_last()) + if vs.len() > 0 {
            seq![
                OptionView {
                    key: n,
                    label: option_key_label(n),
                    choices: vs.map_values(|v: Seq<char>| ChoiceView { value: v, label: v }),
                    default_choice: None,
                },
            ]
        } else {
            Seq::empty()
        }
    }
}

/// The options the report describes: its features with at least one
/// choice; when there are none, its properties.
pub open spec fn windows_options(text: Seq<char>) -> Seq<OptionView> {
    let st = report_fold(lines(text));
    let o = flush(st.options, st.current);
    if o.len() == 0 && st.props.len() > 0 {
        prop_options(st.props)
    } else {
        o
    }
}

spec fn opt_option_view(o: Option<PrinterOption>) -> Option<OptionView> {
    match o {
        Some(f) => Some(f@),
        None => None,
    }
}

fn flush_exec(opts: &mut Vec<PrinterOption>, cur: Option<PrinterOption>)
    ensures
        options_view(final(opts)@) == flush(options_view(old(opts)@), opt_option_view(cur)),
{
    match cur {
        Some(f) => {
            if f.choices.len() > 0 {
                let ghost before = opts@;
                let ghost fv = f@;
                opts.push(f);
                assert(options_view(opts@) =~= options_view(before).push(fv));
            }
        },
        None => {},
    }
}

fn find_prop(props: &Vec<(String, Vec<String>)>, name: &Vec<char>) -> (res: Option<usize>)
    ensures
        res matches Some(i) ==> prop_index(props_view(props@), name@) == Some(i as int) && i
            < props.len(),
        res is None ==> prop_index(props_view(props@), name@) is None,
{
    let mut i: usize = 0;
    while i < props.len()
        invariant
            i <= props.len(),
            prop_index(props_view(props@).take(i as int), name@) is None,
        decreases props.len() - i,
    {
        let n = chars_of(props[i].0.as_str());
        assert(props_view(props@).take(i + 1).drop_last() =~= props_view(props@).take(i as int));
        if same(&n, name) {
            proof {
                lemma_prop_index_prefix(props_view(props@), name@, i as int + 1);
            }
            return Some(i);
        }
        i = i + 1;
    }
    assert(props_view(props@).take(props.len() as int) =~= props_view(props@));
    None
}

proof fn lemma_prop_index_prefix(props: Seq<(Seq<char>, Seq<Seq<char>>)>, name: Seq<char>, n: int)
    requires
        0 <= n <= props.len(),
        prop_index(props.take(n), name) is Some,
    ensures
        prop_index(props, name) == prop_index(props.take(n), name),
    decreases props.len() - n,
{
    if n < props.len() {
        assert(props.take(n + 1).drop_last() =~= props.take(n));
        lemma_prop_index_prefix(props, name, n + 1);
    } else {
        assert(props.take(n) =~= props);
    }
}

fn add_prop_exec(props: &mut Vec<(String, Vec<String>)>, name: &Vec<char>, value: &Vec<char>)
    ensures
        props_view(final(props)@) == add_prop(props_view(old(props)@), name@, value@),
{
    let ghost before = props_view(props@);
    match find_prop(props, name) {
        Some(i) => {
            let mut entry = props.remove(i);
            let ghost old_vals = entry.1@;
            entry.1.push(string_of(value));
            proof {
                assert(entry.1@.map_values(|s: String| s@) =~= old_vals.map_values(
                    |s: String| s@,
                ).push(value@));
            }
            let ghost ev = (entry.0@, entry.1@.map_values(|s: String| s@));
            props.insert(i, entry);
            assert(props_view(props@) =~= before.update(i as int, ev));
            assert(ev == (name@, before[i as int].1.push(value@))) by {
                lemma_prop_index_found(before, name@);
            }
        },
        None => {
            let mut vals: Vec<String> = Vec::new();
            vals.push(string_of(value));
            let ghost ev = (name@, vals@.map_values(|s: String| s@));
            assert(vals@.map_values(|s: String| s@) =~= seq![value@]);
            let ghost old_props = props@;
            props.push((string_of(name), vals));
            assert(props_view(props@) =~= props_view(old_props).push(ev));
        },
    }
}

proof fn lemma_prop_index_found(props: Seq<(Seq<char>, Seq<Seq<char>>)>, name: Seq<char>)
    ensures
        prop_index(props, name) matches Some(i) ==> 0 <= i < props.len() && props[i].0 == name,
    decreases props.len(),
{
    if props.len() > 0 {
        lemma_prop_index_found(props.drop_last(), name);
    }
}

fn prop_options_exec(props: &Vec<(String, Vec<String>)>) -> (res: Vec<PrinterOption>)
    ensures
        options_view(res@) == prop_options(props_view(props@)),
{
    let ghost pv = props_view(props@);
    let mut out: Vec<PrinterOption> = Vec::new();
    let mut i: usize = 0;
    while i < props.len()
        invariant
            i <= props.len(),
            pv == props_view(props@),
            options_view(out@) == prop_options(pv.take(i as int)),
        decreases props.len() - i,
    {
        assert(pv.take(i + 1).drop_last() =~= pv.take(i as int));
        let name = &props[i].0;
        let values = &props[i].1;
        let ghost vs = values@.map_values(|s: String| s@);
        assert(pv[i as int] == (name@, vs));
        let mut choices: Vec<PrinterOptionChoice> = Vec::new();
        let mut j: usize = 0;
        while j < values.len()
            invariant
                j <= values.len(),
                vs == values@.map_values(|s: String| s@),
                choices_view(choices@) =~= vs.take(j as int).map_values(
                    |v: Seq<char>| ChoiceView { value: v, label: v },
                ),
            decreases values.len() - j,
        {
            let c = PrinterOptionChoice { value: values[j].clone(), label: values[j].clone() };
            let ghost before = choices@;
            let ghost cv = c@;
            choices.push(c);
            assert(choices_view(choices@) =~= choices_view(before).push(cv));
            assert(vs[j as int] == values@[j as int]@);
            assert(vs.take(j + 1) =~= vs.take(j as int).push(vs[j as int]));
            j = j + 1;
        }
        assert(vs.take(values.len() as int) =~= vs);
        if choices.len() > 0 {
            let label = humanize_option_key(name.as_str());
            let o = PrinterOption {
                key: name.clone(),
                label,
                choices,
                default_choice: None,
            };
            let ghost ov = o@;
            let ghost before = out@;
            out.push(o);
            assert(options_view(out@) =~= options_view(before).push(ov));
        }
        assert(options_view(out@) =~= prop_options(pv.take(i + 1)));
        i = i + 1;
    }
    assert(pv.take(props.len() as int) =~= pv);
    out
}

/// Parse the Print Capabilities report (see [`windows_options`]).
pub fn parse_windows_capabilities(text: &str) -> (res: Vec<PrinterOption>)
    ensures
        options_view(res@) == windows_options(text@),
{
    let c = chars_of(text);
    let ls = lines_exec(&c);
    let ghost lv = views(ls@);
    let mut options: Vec<PrinterOption> = Vec::new();
    let mut current: Option<PrinterOption> = None;
    let mut props: Vec<(String, Vec<String>)> = Vec::new();
    let mut i: usize = 0;
    while i < ls.len()
        invariant
            i <= ls.len(),
            lv == views(ls@),
            lv == lines(text@),
            options_view(options@) == report_fold(lv.take(i as int)).options,
            opt_option_view(current) == report_fold(lv.take(i as int)).current,
            props_view(props@) == report_fold(lv.take(i as int)).props,
        decreases ls.len() - i,
    {
        assert(ls@[i as int]@ == lv[i as int]);
        assert(lv.take(i + 1).drop_last() =~= lv.take(i as int));
        let line = trim_chars(&ls[i]);
        match strip_prefix_lit(&line, "FEATURE:") {
            Some(name) => {
                let prev = current;
                flush_exec(&mut options, prev);
                let ns = string_of(&name);
                let label = humanize_psk_key(ns.as_str());
                let f = PrinterOption {
                    key: ns,
                    label,
                    choices: Vec::new(),
                    default_choice: None,
                };
                assert(f@.choices =~= Seq::<ChoiceView>::empty());
                current = Some(f);
            },
            None => match strip_prefix_lit(&line, "OPTION:") {
                Some(o) => {
                    let prev = current;
                    current = match prev {
                        Some(mut f) => {
                            let os = string_of(&o);
                            let label = humanize_psk_key(os.as_str());
                            let ghost before = f.choices@;
                            f.choices.push(PrinterOptionChoice { value: os, label });
                            assert(choices_view(f.choices@) =~= choices_view(before).push(
                                ChoiceView { value: o@, label: f.choices@.last().label@ },
                            ));
                            Some(f)
                        },
                        None => None,
                    };
                },
                None => match strip_prefix_lit(&line, "PROP:") {
                    Some(p) => match split_once_lit(&p, "=") {
                        Some((n, v)) => {
                            add_prop_exec(&mut props, &n, &v);
                        },
                        None => {},
                    },
                    None => {},
                },
            },
        }
        i = i + 1;
    }
    assert(lv.take(ls.len() as int) =~= lv);
    flush_exec(&mut options, current);
    if options.len() == 0 && props.len() > 0 {
        prop_options_exec(&props)
    } else {
        options
    }
}

/// The orientation option offered under Windows when the report has none.
pub open spec fn windows_orientation_option() -> OptionView {
    OptionView {
        key: "psk:PageOrientation"@,
        label: "Orientation"@,
        choices: seq![
            ChoiceView { value: "psk:Portrait"@, label: "Portrait"@ },
            ChoiceView { value: "psk:Landscape"@, label: "Landscape"@ },
        ],
        default_choice: Some("psk:Portrait"@),
    }
}

/// The options Windows offers for a printer: those of the report (none
/// when the query could not run), then an orientation option where the
/// report has none.
pub open spec fn windows_capabilities(out: Option<Seq<char>>) -> Seq<OptionView> {
    let base = match out {
        Some(t) => windows_options(t),
        None => Seq::empty(),
    };
    if has_orientation(base) {
        base
    } else {
        base.push(windows_orientation_option())
    }
}

/// Options of a printer under Windows: `report` is what the Print
/// Capabilities query printed, or `None` where PowerShell could not run.
pub fn get_printer_capabilities(report: Option<&str>) -> (res: PrinterCapabilities)
    ensures
        res@ == windows_capabilities(opt_str(report)),
{
    let mut options = match report {
        Some(t) => parse_windows_capabilities(t),
        None => Vec::new(),
    };
    let ghost base = options_view(options@);
    assert(base == match opt_str(report) {
        Some(t) => windows_options(t),
        None => Seq::<OptionView>::empty(),
    }) by {
        if report.is_none() {
            assert(base =~= Seq::<OptionView>::empty());
        }
    }
    if !has_orientation_option(&options) {
        let mut choices: Vec<PrinterOptionChoice> = Vec::new();
        choices.push(make_choice("psk:Portrait", "Portrait"));
        choices.push(make_choice("psk:Landscape", "Landscape"));
        let o = PrinterOption {
            key: String::from_str("psk:PageOrientation"),
            label: String::from_str("Orientation"),
            choices,
            default_choice: Some(String::from_str("psk:Portrait")),
        };
        assert(o@.choices =~= windows_orientation_option().choices);
        assert(o@ == windows_orientation_option());
        let ghost before = options@;
        options.push(o);
        assert(options_view(options@) =~= options_view(before).push(o@));
    }
    PrinterCapabilities { options }
}

// ───────────────────────── the query script ─────────────────────────

/// Query script text before the first printer name.
pub const QUERY_SCRIPT_HEAD: &'static str = "\n$ErrorActionPreference = 'Stop'\ntry {\n    Add-Type -AssemblyName System.Printing\n    $server = New-Object System.Printing.LocalPrintServer\n    $queue = $server.GetPrintQueue('";

/// Query script text between the two printer names.
pub const QUERY_SCRIPT_MID: &'static str = "')\n    $stream = $queue.GetPrintCapabilitiesAsXml()\n    $reader = New-Object System.IO.StreamReader($stream)\n    $xml = [xml]$reader.ReadToEnd()\n    $reader.Close()\n    $stream.Close()\n\n    $ns = New-Object System.Xml.XmlNamespaceManager($xml.NameTable)\n    $ns.AddNamespace('psf', 'http://schemas.microsoft.com/windows/2003/08/printing/printschemaframework')\n    $ns.AddNamespace('psk', 'http://schemas.microsoft.com/windows/2003/08/printing/printschemakeywords')\n    $ns.AddNamespace('xsi', 'http://www.w3.org/2001/XMLSchema-instance')\n\n    $features = $xml.SelectNodes('//psf:Feature', $ns)\n    foreach ($feature in $features) {\n        $featureName = $feature.GetAttribute('name')\n        if (-not $featureName) { continue }\n\n        # Emit feature header\n        Write-Output \"FEATURE:$featureName\"\n\n        $options = $feature.SelectNodes('psf:Option', $ns)\n        $defaultOpt = $null\n        foreach ($opt in $options) {\n            $optName = $opt.GetAttribute('name')\n            if (-not $optName) {\n                # Try to get the constrained value\n                $val = $opt.SelectSingleNode('.//psf:Value', $ns)\n                if ($val) { $optName = $val.InnerText }\n            }\n            if ($optName) {\n                # Check if this is marked as default\n                $constrained = $opt.GetAttribute('constrained')\n                Write-Output \"  OPTION:$optName\"\n            }\n        }\n    }\n} catch {\n    # Fallback: use Get-PrinterProperty\n    try {\n        $props = Get-PrinterProperty -PrinterName '";

/// Query script text after the second printer name.
pub const QUERY_SCRIPT_TAIL: &'static str = "' -ErrorAction Stop\n        foreach ($prop in $props) {\n            Write-Output \"PROP:$($prop.PropertyName)=$($prop.Value)\"\n        }\n    } catch {\n        Write-Output \"ERROR:$($_.Exception.Message)\"\n    }\n}\n";

/// The PowerShell script that prints a printer's Print Capabilities as
/// "FEATURE:" and "OPTION:" lines, or its properties as "PROP:" lines when
/// the capabilities cannot be read.  The printer name is inserted as it is.
pub open spec fn query_script(printer_id: Seq<char>) -> Seq<char> {
    QUERY_SCRIPT_HEAD@ + printer_id + QUERY_SCRIPT_MID@ + printer_id + QUERY_SCRIPT_TAIL@
}

/// The capabilities query script for a printer (see [`query_script`]).
pub fn capabilities_query_script(printer_id: &str) -> (res: String)
    ensures
        res@ == query_script(printer_id@),
{
    let id = chars_of(printer_id);
    let r = chars_of(QUERY_SCRIPT_HEAD);
    let r = concat(&r, &id);
    let r = concat(&r, &chars_of(QUERY_SCRIPT_MID));
    let r = concat(&r, &id);
    let r = concat(&r, &chars_of(QUERY_SCRIPT_TAIL));
    string_of(&r)
}

// ───────────────────────── laws ─────────────────────────

/// All options of a list have at least one choice.
pub open spec fn all_have_choices(opts: Seq<OptionView>) -> bool {
    forall|k: int| 0 <= k < opts.len() ==> (#[trigger] opts[k]).choices.len() > 0
}

proof fn lemma_flush_keeps_choices(opts: Seq<OptionView>, cur: Option<OptionView>)
    requires
        all_have_choices(opts),
    ensures
        all_have_choices(flush(opts, cur)),
{
    let r = flush(opts, cur);
    assert forall|k: int| 0 <= k < r.len() implies (#[trigger] r[k]).choices.len() > 0 by {
        if k < opts.len() {
            assert(r[k] == opts[k]);
        }
    }
}

proof fn lemma_report_fold_choices(ls: Seq<Seq<char>>)
    ensures
        all_have_choices(report_fold(ls).options),
    decreases ls.len(),
{
    if ls.len() > 0 {
        lemma_report_fold_choices(ls.drop_last());
        let st = report_fold(ls.drop_last());
        lemma_flush_keeps_choices(st.options, st.current);
    }
}

proof fn lemma_prop_options_choices(props: Seq<(Seq<char>, Seq<Seq<char>>)>)
    ensures
        all_have_choices(prop_options(props)),
    decreases props.len(),
{
    if props.len() > 0 {
        lemma_prop_options_choices(props.drop_last());
        let prev = prop_options(props.drop_last());
        let all = prop_options(props);
        assert forall|k: int| 0 <= k < all.len() implies (#[trigger] all[k]).choices.len() > 0 by {
            if k < prev.len() {
                assert(all[k] == prev[k]);
            }
        }
    }
}

/// Every option read from the Windows report has at least one choice:
/// features the printer lists without options are left out.
pub proof fn law_windows_options_have_choices(text: Seq<char>)
    ensures
        all_have_choices(windows_options(text)),
{
    let st = report_fold(lines(text));
    lemma_report_fold_choices(lines(text));
    lemma_flush_keeps_choices(st.options, st.current);
    lemma_prop_options_choices(st.props);
}

/// No property name occurs twice.
pub open spec fn distinct_names(props: Seq<(Seq<char>, Seq<Seq<char>>)>) -> bool {
    forall|i: int, j: int| 0 <= i < j < props.len() ==> #[trigger] props[i].0 != #[trigger] props[j].0
}

proof fn lemma_prop_index_absent(props: Seq<(Seq<char>, Seq<Seq<char>>)>, name: Seq<char>)
    ensures
        prop_index(props, name) is None ==> forall|i: int| 0 <= i < props.len() ==> #[trigger] props[i].0 != name,
    decreases props.len(),
{
    if props.len() > 0 {
        lemma_prop_index_absent(props.drop_last(), name);
        if prop_index(props, name) is None {
            assert forall|i: int| 0 <= i < props.len() implies #[trigger] props[i].0 != name by {
                if i < props.len() - 1 {
                    assert(props[i] == props.drop_last()[i]);
                }
            }
        }
    }
}

proof fn lemma_add_prop_distinct(
    props: Seq<(Seq<char>, Seq<Seq<char>>)>,
    name: Seq<char>,
    value: Seq<char>,
)
    requires
        distinct_names(props),
    ensures
        distinct_names(add_prop(props, name, value)),
{
    lemma_prop_index_absent(props, name);
    lemma_prop_index_found(props, name);
    let w = add_prop(props, name, value);
    match prop_index(props, name) {
        Some(k) => {
            assert forall|i: int, j: int| 0 <= i < j < w.len() implies #[trigger] w[i].0
                != #[trigger] w[j].0 by {
                assert(w[i].0 == props[i].0);
                assert(w[j].0 == props[j].0);
            }
        },
        None => {
            assert forall|i: int, j: int| 0 <= i < j < w.len() implies #[trigger] w[i].0
                != #[trigger] w[j].0 by {
                assert(w[i] == props[i]);
                if j < props.len() {
                    assert(w[j] == props[j]);
                } else {
                    assert(w[j].0 == name);
                }
            }
        },
    }
}

/// The properties read from the Windows report are grouped by name: no
/// name occurs twice, as in the map the values are gathered in.
pub proof fn law_windows_property_names_distinct(ls: Seq<Seq<char>>)
    ensures
        distinct_names(report_fold(ls).props),
    decreases ls.len(),
{
    if ls.len() > 0 {
        law_windows_property_names_distinct(ls.drop_last());
        let st = report_fold(ls.drop_last());
        let l = trim(ls.last());
        if strip_prefix(l, "FEATURE:"@) is None && strip_prefix(l, "OPTION:"@) is None {
            match strip_prefix(l, "PROP:"@) {
                Some(p) => match split_once(p, "="@) {
                    Some((n, v)) => {
                        lemma_add_prop_distinct(st.props, n, v);
                    },
                    None => {},
                },
                None => {},
            }
        }
    }
}

/// A feature of the report is kept exactly when it lists at least one
/// option: on reaching the next "FEATURE:" line, the feature being read is
/// added to the options when it has a choice and dropped when it has none.
pub proof fn law_features_kept_with_a_choice(st: ReportState, line: Seq<char>)
    requires
        strip_prefix(trim(line), "FEATURE:"@) is Some,
    ensures
        (match st.current {
            Some(f) => (f.choices.len() >= 1 ==> report_step(st, line).options == st.options.push(f))
                && (f.choices.len() == 0 ==> report_step(st, line).options == st.options),
            None => report_step(st, line).options == st.options,
        }),
{
}

/// At the end of the report, the feature still being read is the last
/// option when it lists at least one option.
pub proof fn law_last_feature_kept_with_a_choice(text: Seq<char>)
    ensures
        (match report_fold(lines(text)).current {
            Some(f) => f.choices.len() >= 1 ==> {
                &&& windows_options(text).len() == report_fold(lines(text)).options.len() + 1
                &&& windows_options(text).last() == f
                &&& windows_options(text).take(report_fold(lines(text)).options.len() as int)
                    == report_fold(lines(text)).options
            },
            None => true,
        }),
{
    let st = report_fold(lines(text));
    if let Some(f) = st.current {
        if f.choices.len() >= 1 {
            assert(st.options.push(f).take(st.options.len() as int) =~= st.options);
        }
    }
}

} // verus!
