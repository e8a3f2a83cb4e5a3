//! Human-readable labels for printer option keys and values.

use vstd::prelude::*;
use crate::text::{
    char_is_lowercase, char_is_uppercase, char_to_uppercase, chars_of, concat, concat_lit,
    contains, contains_lit, ends_with, find, lemma_find_complete, lemma_find_in_bounds, matches_at, ends_with_lit, is_lit, is_lowercase, is_uppercase,
    lowercase, replace_all, replace_all_exec, slice, split_char, split_char_exec, starts_with,
    starts_with_lit, string_of, strip_prefix, strip_prefix_lit, to_lowercase, uppercase, views,
};

verus! {

// ───────────────────────── Epson code tables ─────────────────────────

/// Epson print quality codes (EPIJ_Qual).
pub open spec fn quality_label(c: Seq<char>) -> Option<Seq<char>> {
    if c == "302"@ {
        Some("Economy"@)
    } else if c == "303"@ {
        Some("Normal"@)
    } else if c == "304"@ {
        Some("Fine"@)
    } else if c == "305"@ {
        Some("Quality"@)
    } else if c == "306"@ {
        Some("High Quality"@)
    } else if c == "307"@ {
        Some("Best Quality"@)
    } else if c == "308"@ {
        Some("Draft"@)
    } else {
        None
    }
}

/// Epson borderless expansion levels (EPIJ_exmg).
pub open spec fn expansion_label(c: Seq<char>) -> Option<Seq<char>> {
    if c == "0"@ {
        Some("Min"@)
    } else if c == "1"@ {
        Some("Mid"@)
    } else if c == "2"@ {
        Some("Standard"@)
    } else {
        None
    }
}

/// Epson on/off values (EPIJ_DSPr, EPIJ_Silt).
pub open spec fn on_off_label(c: Seq<char>) -> Option<Seq<char>> {
    if c == "0"@ {
        Some("Off"@)
    } else if c == "1"@ {
        Some("On"@)
    } else if c == "2"@ {
        Some("On (Low Noise)"@)
    } else {
        None
    }
}

/// Epson colour matching values (EPIJ_OSColMat).
pub open spec fn color_matching_label(c: Seq<char>) -> Option<Seq<char>> {
    if c == "1"@ {
        Some("Epson Vendor Matching"@)
    } else if c == "2"@ {
        Some("ColorSync (macOS)"@)
    } else {
        None
    }
}

/// Epson colour settings values (EPIJ_CMat).
pub open spec fn color_settings_label(c: Seq<char>) -> Option<Seq<char>> {
    if c == "0"@ {
        Some("Manual Settings"@)
    } else if c == "1"@ {
        Some("Fix Photo"@)
    } else if c == "3"@ {
        Some("Off (No Color Adjustment)"@)
    } else {
        None
    }
}

/// Epson media type codes (MediaType).
pub open spec fn media_type_label(c: Seq<char>) -> Option<Seq<char>> {
    if c == "0"@ {
        Some("Plain Paper"@)
    } else if c == "2"@ {
        Some("Matte Paper"@)
    } else if c == "12"@ {
        Some("Bright White Paper"@)
    } else if c == "13"@ {
        Some("Photo Quality Ink Jet"@)
    } else if c == "15"@ {
        Some("Premium Glossy Photo Paper"@)
    } else if c == "26"@ {
        Some("Premium Semi-Gloss Photo Paper"@)
    } else if c == "27"@ {
        Some("Ultra Premium Glossy Photo Paper"@)
    } else if c == "53"@ {
        Some("Photo Paper Glossy"@)
    } else if c == "92"@ {
        Some("Premium Photo Paper Glossy"@)
    } else if c == "93"@ {
        Some("Premium Photo Paper Semi-Gloss"@)
    } else if c == "142"@ {
        Some("Epson Premium Photo Paper Glossy"@)
    } else if c == "145"@ {
        Some("Photo Quality Self-Adhesive"@)
    } else if c == "159"@ {
        Some("Ultra Premium Photo Paper Luster"@)
    } else if c == "160"@ {
        Some("Velvet Fine Art Paper"@)
    } else if c == "187"@ {
        Some("Premium Presentation Paper Matte"@)
    } else {
        None
    }
}

/// Map Epson print quality numeric codes to human-readable names.
pub fn epson_quality_label(code: &str) -> (res: Option<&'static str>)
    ensures
        res matches Some(r) ==> quality_label(code@) == Some(r@),
        res is None ==> quality_label(code@) is None,
{
    let c = chars_of(code);
    if is_lit(&c, "302") {
        Some("Economy")
    } else if is_lit(&c, "303") {
        Some("Normal")
    } else if is_lit(&c, "304") {
        Some("Fine")
    } else if is_lit(&c, "305") {
        Some("Quality")
    } else if is_lit(&c, "306") {
        Some("High Quality")
    } else if is_lit(&c, "307") {
        Some("Best Quality")
    } else if is_lit(&c, "308") {
        Some("Draft")
    } else {
        None
    }
}

/// Map Epson borderless expansion values to human-readable names.
pub fn epson_expansion_label(code: &str) -> (res: Option<&'static str>)
    ensures
        res matches Some(r) ==> expansion_label(code@) == Some(r@),
        res is None ==> expansion_label(code@) is None,
{
    let c = chars_of(code);
    if is_lit(&c, "0") {
        Some("Min")
    } else if is_lit(&c, "1") {
        Some("Mid")
    } else if is_lit(&c, "2") {
        Some("Standard")
    } else {
        None
    }
}

/// Map common Epson on/off/mode values.
pub fn epson_on_off_label(code: &str) -> (res: Option<&'static str>)
    ensures
        res matches Some(r) ==> on_off_label(code@) == Some(r@),
        res is None ==> on_off_label(code@) is None,
{
    let c = chars_of(code);
    if is_lit(&c, "0") {
        Some("Off")
    } else if is_lit(&c, "1") {
        Some("On")
    } else if is_lit(&c, "2") {
        Some("On (Low Noise)")
    } else {
        None
    }
}

/// Map Epson ColorMatching values.
pub fn epson_color_matching_label(code: &str) -> (res: Option<&'static str>)
    ensures
        res matches Some(r) ==> color_matching_label(code@) == Some(r@),
        res is None ==> color_matching_label(code@) is None,
{
    let c = chars_of(code);
    if is_lit(&c, "1") {
        Some("Epson Vendor Matching")
    } else if is_lit(&c, "2") {
        Some("ColorSync (macOS)")
    } else {
        None
    }
}

/// Map Epson Color Settings values.
pub fn epson_color_settings_label(code: &str) -> (res: Option<&'static str>)
    ensures
        res matches Some(r) ==> color_settings_label(code@) == Some(r@),
        res is None ==> color_settings_label(code@) is None,
{
    let c = chars_of(code);
    if is_lit(&c, "0") {
        Some("Manual Settings")
    } else if is_lit(&c, "1") {
        Some("Fix Photo")
    } else if is_lit(&c, "3") {
        Some("Off (No Color Adjustment)")
    } else {
        None
    }
}

/// Map Epson media type numeric codes to human-readable names.
pub fn epson_media_type_label(code: &str) -> (res: Option<&'static str>)
    ensures
        res matches Some(r) ==> media_type_label(code@) == Some(r@),
        res is None ==> media_type_label(code@) is None,
{
    let c = chars_of(code);
    if is_lit(&c, "0") {
        Some("Plain Paper")
    } else if is_lit(&c, "2") {
        Some("Matte Paper")
    } else if is_lit(&c, "12") {
        Some("Bright White Paper")
    } else if is_lit(&c, "13") {
        Some("Photo Quality Ink Jet")
    } else if is_lit(&c, "15") {
        Some("Premium Glossy Photo Paper")
    } else if is_lit(&c, "26") {
        Some("Premium Semi-Gloss Photo Paper")
    } else if is_lit(&c, "27") {
        Some("Ultra Premium Glossy Photo Paper")
    } else if is_lit(&c, "53") {
        Some("Photo Paper Glossy")
    } else if is_lit(&c, "92") {
        Some("Premium Photo Paper Glossy")
    } else if is_lit(&c, "93") {
        Some("Premium Photo Paper Semi-Gloss")
    } else if is_lit(&c, "142") {
        Some("Epson Premium Photo Paper Glossy")
    } else if is_lit(&c, "145") {
        Some("Photo Quality Self-Adhesive")
    } else if is_lit(&c, "159") {
        Some("Ultra Premium Photo Paper Luster")
    } else if is_lit(&c, "160") {
        Some("Velvet Fine Art Paper")
    } else if is_lit(&c, "187") {
        Some("Premium Presentation Paper Matte")
    } else {
        None
    }
}

// ───────────────────────── case splitting ─────────────────────────

/// A space is put before every upper-case letter that follows a lower-case one.
pub open spec fn pascal_split(s: Seq<char>) -> Seq<char>
    decreases s.len(),
{
    if s.len() == 0 {
        s
    } else {
        let i = s.len() - 1;
        pascal_split(s.take(i)) + if i > 0 && is_uppercase(s[i]) && is_lowercase(s[i - 1]) {
            seq![' ', s[i]]
        } else {
            seq![s[i]]
        }
    }
}

/// Split PascalCase into words.
pub fn split_pascal_case(s: &str) -> (res: String)
    ensures
        res@ == pascal_split(s@),
{
    let c = chars_of(s);
    let mut out: Vec<char> = Vec::new();
    let mut i: usize = 0;
    while i < c.len()
        invariant
            i <= c.len(),
            c@ == s@,
            out@ == pascal_split(c@.take(i as int)),
        decreases c.len() - i,
    {
        let ch = c[i];
        assert(c@.take(i + 1).take(i as int) =~= c@.take(i as int));
        if i > 0 && char_is_uppercase(ch) && char_is_lowercase(c[i - 1]) {
            out.push(' ');
            out.push(ch);
            assert(out@ =~= pascal_split(c@.take(i as int)) + seq![' ', ch]);
        } else {
            out.push(ch);
            assert(out@ =~= pascal_split(c@.take(i as int)) + seq![ch]);
        }
        i = i + 1;
    }
    assert(c@.take(c.len() as int) =~= c@);
    string_of(&out)
}

/// A word with its first character upper-cased.
pub open spec fn capitalized(w: Seq<char>) -> Seq<char> {
    if w.len() == 0 {
        w
    } else {
        uppercase(w[0]) + w.skip(1)
    }
}

/// Words joined by a separator.
pub open spec fn join(ws: Seq<Seq<char>>, sep: Seq<char>) -> Seq<char>
    decreases ws.len(),
{
    if ws.len() == 0 {
        Seq::empty()
    } else if ws.len() == 1 {
        ws[0]
    } else {
        join(ws.drop_last(), sep) + sep + ws.last()
    }
}

/// Kebab-case words capitalized and joined by spaces.
pub open spec fn kebab_split(s: Seq<char>) -> Seq<char> {
    join(split_char(s, '-').map_values(|w: Seq<char>| capitalized(w)), " "@)
}

/// Turn "photo-paper-glossy" into "Photo Paper Glossy".
pub fn split_kebab_case(s: &str) -> (res: String)
    ensures
        res@ == kebab_split(s@),
{
    let c = chars_of(s);
    let pieces = split_char_exec(&c, '-');
    let ghost ws = split_char(s@, '-').map_values(|w: Seq<char>| capitalized(w));
    let mut out: Vec<char> = Vec::new();
    let mut i: usize = 0;
    while i < pieces.len()
        invariant
            i <= pieces.len(),
            views(pieces@) == split_char(s@, '-'),
            ws == split_char(s@, '-').map_values(|w: Seq<char>| capitalized(w)),
            out@ == join(ws.take(i as int), " "@),
        decreases pieces.len() - i,
    {
        let w = &pieces[i];
        assert(w@ == views(pieces@)[i as int]);
        let cap = if w.len() == 0 {
            Vec::new()
        } else {
            let up = char_to_uppercase(w[0]);
            let rest = slice(w, 1, w.len());
            concat(&up, &rest)
        };
        assert(cap@ =~= capitalized(w@));
        assert(ws.take(i + 1).drop_last() =~= ws.take(i as int));
        if i == 0 {
            out = cap;
            assert(ws.take(1) =~= seq![ws[0]]);
        } else {
            let with_sep = concat_lit(&out, " ");
            out = concat(&with_sep, &cap);
        }
        i = i + 1;
    }
    assert(ws.take(pieces.len() as int) =~= ws);
    string_of(&out)
}

// ───────────────────────── option keys and values ─────────────────────────

/// Labels of well-known CUPS option keys, looked up by the lower-cased key.
pub open spec fn known_key_label(lower: Seq<char>) -> Option<Seq<char>> {
    if lower == "pagesize"@ {
        Some("Paper Size"@)
    } else if lower == "mediatype"@ {
        Some("Media Type"@)
    } else if lower == "inputslot"@ {
        Some("Input Slot"@)
    } else if lower == "colormodel"@ {
        Some("Color Mode"@)
    } else if lower == "cupsprintquality"@ {
        Some("Print Quality"@)
    } else if lower == "duplex"@ {
        Some("Duplex / 2-Sided"@)
    } else if lower == "outputbin"@ {
        Some("Output Bin"@)
    } else if lower == "resolution"@ {
        Some("Resolution"@)
    } else {
        None
    }
}

/// The label of an option key: a known one, or the key split into words.
pub open spec fn option_key_label(key: Seq<char>) -> Seq<char> {
    match known_key_label(lowercase(key)) {
        Some(l) => l,
        None => pascal_split(key),
    }
}

/// Human-readable label of an option key.
pub fn humanize_option_key(key: &str) -> (res: String)
    ensures
        res@ == option_key_label(key@),
{
    let k = chars_of(key);
    let l = to_lowercase(&k);
    if is_lit(&l, "pagesize") {
        String::from_str("Paper Size")
    } else if is_lit(&l, "mediatype") {
        String::from_str("Media Type")
    } else if is_lit(&l, "inputslot") {
        String::from_str("Input Slot")
    } else if is_lit(&l, "colormodel") {
        String::from_str("Color Mode")
    } else if is_lit(&l, "cupsprintquality") {
        String::from_str("Print Quality")
    } else if is_lit(&l, "duplex") {
        String::from_str("Duplex / 2-Sided")
    } else if is_lit(&l, "outputbin") {
        String::from_str("Output Bin")
    } else if is_lit(&l, "resolution") {
        String::from_str("Resolution")
    } else {
        split_pascal_case(key)
    }
}

/// Known CUPS value names and their labels.
pub open spec fn known_value_label(v: Seq<char>) -> Option<Seq<char>> {
    if v == "None"@ {
        Some("Off"@)
    } else if v == "DuplexNoTumble"@ {
        Some("Long Edge"@)
    } else if v == "DuplexTumble"@ {
        Some("Short Edge"@)
    } else if v == "any"@ {
        Some("Any / Auto"@)
    } else if v == "auto"@ {
        Some("Auto"@)
    } else if v == "main"@ {
        Some("Main Tray"@)
    } else if v == "rear"@ {
        Some("Rear Feed"@)
    } else if v == "photo"@ {
        Some("Photo Tray"@)
    } else if v == "manual"@ {
        Some("Manual Feed"@)
    } else if v == "disc"@ {
        Some("Disc Tray"@)
    } else if v == "stationery"@ {
        Some("Plain Paper"@)
    } else if v == "stationery-coated"@ {
        Some("Coated Paper"@)
    } else if v == "stationery-letterhead"@ {
        Some("Letterhead"@)
    } else if v == "stationery-lightweight"@ {
        Some("Lightweight Paper"@)
    } else if v == "photographic"@ {
        Some("Photo Paper"@)
    } else if v == "photographic-glossy"@ {
        Some("Photo Paper Glossy"@)
    } else if v == "photographic-high-gloss"@ {
        Some("Photo Paper High Gloss"@)
    } else if v == "photographic-semi-gloss"@ {
        Some("Photo Paper Semi-Gloss"@)
    } else if v == "photographic-matte"@ {
        Some("Photo Paper Matte"@)
    } else if v == "envelope"@ {
        Some("Envelope"@)
    } else if v == "Normal"@ {
        Some("Normal"@)
    } else if v == "High"@ {
        Some("High"@)
    } else if v == "Draft"@ {
        Some("Draft"@)
    } else if v == "Gray"@ {
        Some("Grayscale"@)
    } else if v == "RGB"@ {
        Some("Color (RGB)"@)
    } else if v == "CMYK"@ {
        Some("Color (CMYK)"@)
    } else {
        None
    }
}

/// `s` without the prefix `p` when it has it.
pub open spec fn without_prefix(s: Seq<char>, p: Seq<char>) -> Seq<char> {
    match strip_prefix(s, p) {
        Some(r) => r,
        None => s,
    }
}

/// A value name without its Print Schema namespace prefix.
pub open spec fn without_namespace(v: Seq<char>) -> Seq<char> {
    without_prefix(without_prefix(v, "psk:"@), "ns0000:"@)
}

/// The label of an option value.
pub open spec fn choice_value_label(value: Seq<char>) -> Seq<char> {
    let v = without_namespace(value);
    match known_value_label(v) {
        Some(l) => l,
        None => match strip_prefix(v, "com.epson-"@) {
            Some(r) => kebab_split(r),
            None => if contains(v, "."@) && contains(v, "Fullbleed"@) {
                replace_all(v, ".Fullbleed"@, ""@) + " (Borderless)"@
            } else {
                v
            },
        },
    }
}

fn without_prefix_exec(s: &Vec<char>, lit: &str) -> (res: Vec<char>)
    ensures
        res@ == without_prefix(s@, lit@),
{
    match strip_prefix_lit(s, lit) {
        Some(r) => r,
        None => slice(s, 0, s.len()),
    }
}

fn known_value_label_exec(v: &Vec<char>) -> (res: Option<&'static str>)
    ensures
        res matches Some(r) ==> known_value_label(v@) == Some(r@),
        res is None ==> known_value_label(v@) is None,
{
    if is_lit(v, "None") {
        Some("Off")
    } else if is_lit(v, "DuplexNoTumble") {
        Some("Long Edge")
    } else if is_lit(v, "DuplexTumble") {
        Some("Short Edge")
    } else if is_lit(v, "any") {
        Some("Any / Auto")
    } else if is_lit(v, "auto") {
        Some("Auto")
    } else if is_lit(v, "main") {
        Some("Main Tray")
    } else if is_lit(v, "rear") {
        Some("Rear Feed")
    } else if is_lit(v, "photo") {
        Some("Photo Tray")
    } else if is_lit(v, "manual") {
        Some("Manual Feed")
    } else if is_lit(v, "disc") {
        Some("Disc Tray")
    } else if is_lit(v, "stationery") {
        Some("Plain Paper")
    } else if is_lit(v, "stationery-coated") {
        Some("Coated Paper")
    } else if is_lit(v, "stationery-letterhead") {
        Some("Letterhead")
    } else if is_lit(v, "stationery-lightweight") {
        Some("Lightweight Paper")
    } else if is_lit(v, "photographic") {
        Some("Photo Paper")
    } else if is_lit(v, "photographic-glossy") {
        Some("Photo Paper Glossy")
    } else if is_lit(v, "photographic-high-gloss") {
        Some("Photo Paper High Gloss")
    } else if is_lit(v, "photographic-semi-gloss") {
        Some("Photo Paper Semi-Gloss")
    } else if is_lit(v, "photographic-matte") {
        Some("Photo Paper Matte")
    } else if is_lit(v, "envelope") {
        Some("Envelope")
    } else if is_lit(v, "Normal") {
        Some("Normal")
    } else if is_lit(v, "High") {
        Some("High")
    } else if is_lit(v, "Draft") {
        Some("Draft")
    } else if is_lit(v, "Gray") {
        Some("Grayscale")
    } else if is_lit(v, "RGB") {
        Some("Color (RGB)")
    } else if is_lit(v, "CMYK") {
        Some("Color (CMYK)")
    } else {
        None
    }
}

/// Human-readable label of an option value.
pub fn humanize_choice_value(value: &str) -> (res: String)
    ensures
        res@ == choice_value_label(value@),
{
    let raw = chars_of(value);
    let v1 = without_prefix_exec(&raw, "psk:");
    let v = without_prefix_exec(&v1, "ns0000:");
    match known_value_label_exec(&v) {
        Some(l) => String::from_str(l),
        None => match strip_prefix_lit(&v, "com.epson-") {
            Some(r) => {
                let rs = string_of(&r);
                split_kebab_case(rs.as_str())
            },
            None => {
                if contains_lit(&v, ".") && contains_lit(&v, "Fullbleed") {
                    let pat = chars_of(".Fullbleed");
                    proof {
                        reveal_strlit(".Fullbleed");
                    }
                    let empty: Vec<char> = Vec::new();
                    assert(empty@ =~= ""@) by {
                        reveal_strlit("");
                    }
                    let replaced = replace_all_exec(&v, &pat, &empty);
                    let out = concat_lit(&replaced, " (Borderless)");
                    string_of(&out)
                } else {
                    string_of(&v)
                }
            },
        },
    }
}

/// The label of a Print Schema key or value: namespace dropped, words split.
pub open spec fn psk_label(key: Seq<char>) -> Seq<char> {
    pascal_split(without_namespace(key))
}

/// Strip the "psk:" prefix and split PascalCase into words.
pub fn humanize_psk_key(key: &str) -> (res: String)
    ensures
        res@ == psk_label(key@),
{
    let raw = chars_of(key);
    let k1 = without_prefix_exec(&raw, "psk:");
    let k = without_prefix_exec(&k1, "ns0000:");
    let ks = string_of(&k);
    split_pascal_case(ks.as_str())
}

// ───────────────────────── page sizes ─────────────────────────

/// The base name of a page size value and the suffix its variant adds.
pub open spec fn page_size_parts(v: Seq<char>) -> (Seq<char>, Seq<char>) {
    if ends_with(v, ".NMgn"@) {
        (v.take(v.len() - 5), " (Borderless)"@)
    } else if contains(v, ".ManuFeedBM"@) {
        (split_char(v, '.')[0], " (Manual Feed)"@)
    } else if ends_with(v, ".ManuCDR"@) {
        (v.take(v.len() - 8), " (CD/DVD Tray)"@)
    } else if ends_with(v, ".Fullbleed"@) {
        (v.take(v.len() - 10), " (Borderless)"@)
    } else {
        (v, ""@)
    }
}

/// Readable names of known page size bases.
pub open spec fn known_page_base(b: Seq<char>) -> Option<Seq<char>> {
    if b == "Letter"@ {
        Some("Letter (8.5x11)"@)
    } else if b == "Legal"@ {
        Some("Legal (8.5x14)"@)
    } else if b == "Executive"@ {
        Some("Executive"@)
    } else if b == "Env10"@ {
        Some("#10 Envelope"@)
    } else if b == "A4"@ {
        Some("A4"@)
    } else if b == "A6"@ {
        Some("A6"@)
    } else if b == "EPKG"@ {
        Some("KG / 4x6"@)
    } else if b == "EP8x10in"@ {
        Some("8x10"@)
    } else if b == "EPPhotoPaper2L"@ {
        Some("2L / 5x7"@)
    } else if b == "EPPhotoPaperLRoll"@ {
        Some("L Roll (3.5x5)"@)
    } else if b == "EPHiVision102x180"@ {
        Some("Hi-Vision (4x7)"@)
    } else if b == "EPHalfLetter"@ {
        Some("Half Letter (5.5x8.5)"@)
    } else if b == "EPOficio9"@ {
        Some("Oficio"@)
    } else if b == "EP216x330mm"@ {
        Some("216x330mm"@)
    } else if b == "FolioSP"@ {
        Some("Folio"@)
    } else if b == "Statement"@ {
        Some("Statement (5.5x8.5)"@)
    } else if b == "FanFoldGermanLegal"@ {
        Some("Fan Fold German Legal"@)
    } else {
        None
    }
}

/// The readable label of a PPD page size value.
pub open spec fn page_size_label(v: Seq<char>) -> Seq<char> {
    let (base, suffix) = page_size_parts(v);
    match known_page_base(base) {
        Some(r) => r + suffix,
        None => if starts_with(base, "Custom."@) {
            "Custom Size"@
        } else if starts_with(base, "EP"@) {
            base.skip(2) + suffix
        } else {
            base + suffix
        },
    }
}

fn known_page_base_exec(b: &Vec<char>) -> (res: Option<&'static str>)
    ensures
        res matches Some(r) ==> known_page_base(b@) == Some(r@),
        res is None ==> known_page_base(b@) is None,
{
    if is_lit(b, "Letter") {
        Some("Letter (8.5x11)")
    } else if is_lit(b, "Legal") {
        Some("Legal (8.5x14)")
    } else if is_lit(b, "Executive") {
        Some("Executive")
    } else if is_lit(b, "Env10") {
        Some("#10 Envelope")
    } else if is_lit(b, "A4") {
        Some("A4")
    } else if is_lit(b, "A6") {
        Some("A6")
    } else if is_lit(b, "EPKG") {
        Some("KG / 4x6")
    } else if is_lit(b, "EP8x10in") {
        Some("8x10")
    } else if is_lit(b, "EPPhotoPaper2L") {
        Some("2L / 5x7")
    } else if is_lit(b, "EPPhotoPaperLRoll") {
        Some("L Roll (3.5x5)")
    } else if is_lit(b, "EPHiVision102x180") {
        Some("Hi-Vision (4x7)")
    } else if is_lit(b, "EPHalfLetter") {
        Some("Half Letter (5.5x8.5)")
    } else if is_lit(b, "EPOficio9") {
        Some("Oficio")
    } else if is_lit(b, "EP216x330mm") {
        Some("216x330mm")
    } else if is_lit(b, "FolioSP") {
        Some("Folio")
    } else if is_lit(b, "Statement") {
        Some("Statement (5.5x8.5)")
    } else if is_lit(b, "FanFoldGermanLegal") {
        Some("Fan Fold German Legal")
    } else {
        None
    }
}

/// Humanize Epson PPD page size values into readable labels.
pub fn humanize_page_size(value: &str) -> (res: String)
    ensures
        res@ == page_size_label(value@),
{
    let v = chars_of(value);
    proof {
        reveal_strlit(".NMgn");
        reveal_strlit(".ManuCDR");
        reveal_strlit(".Fullbleed");
    }
    let (base, suffix): (Vec<char>, &str) = if ends_with_lit(&v, ".NMgn") {
        (slice(&v, 0, v.len() - 5), " (Borderless)")
    } else if contains_lit(&v, ".ManuFeedBM") {
        let pieces = split_char_exec(&v, '.');
        proof {
            assert(split_char(v@, '.').len() >= 1);
        }
        assert(pieces@[0]@ == views(pieces@)[0]);
        (slice(&pieces[0], 0, pieces[0].len()), " (Manual Feed)")
    } else if ends_with_lit(&v, ".ManuCDR") {
        (slice(&v, 0, v.len() - 8), " (CD/DVD Tray)")
    } else if ends_with_lit(&v, ".Fullbleed") {
        (slice(&v, 0, v.len() - 10), " (Borderless)")
    } else {
        (slice(&v, 0, v.len()), "")
    };
    assert(base@ =~= page_size_parts(v@).0);
    assert(suffix@ == page_size_parts(v@).1);
    match known_page_base_exec(&base) {
        Some(r) => {
            let rc = chars_of(r);
            let out = concat_lit(&rc, suffix);
            string_of(&out)
        },
        None => {
            if starts_with_lit(&base, "Custom.") {
                String::from_str("Custom Size")
            } else if starts_with_lit(&base, "EP") {
                proof {
                    reveal_strlit("EP");
                }
                let stripped = slice(&base, 2, base.len());
                assert(stripped@ =~= base@.skip(2));
                let out = concat_lit(&stripped, suffix);
                string_of(&out)
            } else {
                let out = concat_lit(&base, suffix);
                string_of(&out)
            }
        },
    }
}

// ───────────────────────── laws ─────────────────────────

proof fn lemma_no_manual_feed_across(b: Seq<char>, sfx: Seq<char>)
    requires
        !contains(b, ".ManuFeedBM"@),
        0 < sfx.len() < 11,
        sfx[0] == '.',
    ensures
        !contains(b + sfx, ".ManuFeedBM"@),
{
    reveal_strlit(".ManuFeedBM");
    let p = ".ManuFeedBM"@;
    let s = b + sfx;
    assert(p.len() == 11);
    if contains(s, p) {
        lemma_find_in_bounds(s, p, 0);
        let k = find(s, p)->0;
        assert(matches_at(s, p, k));
        if k + 11 <= b.len() {
            assert(b.subrange(k, k + 11) =~= s.subrange(k, k + 11));
            assert(matches_at(b, p, k));
            lemma_find_complete(b, p, 0, k);
            assert(false);
        } else if k < b.len() {
            let d = b.len() - k;
            assert(s[b.len() as int] == '.');
            assert(s.subrange(k, k + 11)[d] == s[b.len() as int]);
            assert(p[d] != '.');
            assert(false);
        } else {
            assert(false);
        }
    }
}

proof fn lemma_label_with_suffix(v: Seq<char>, b: Seq<char>, sl: Seq<char>)
    requires
        page_size_parts(v) == (b, sl),
        page_size_parts(b) == (b, ""@),
        !starts_with(b, "Custom."@),
    ensures
        page_size_label(v) == page_size_label(b) + sl,
{
    reveal_strlit("");
    match known_page_base(b) {
        Some(r) => {
            assert(r + ""@ =~= r);
        },
        None => {
            assert(b.skip(2) + ""@ =~= b.skip(2));
            assert(b + ""@ =~= b);
        },
    }
}

/// A page size value that ends in ".NMgn" or ".Fullbleed" reads as its base
/// followed by " (Borderless)", and one that ends in ".ManuCDR" as its base
/// followed by " (CD/DVD Tray)", for every base that is not a custom size
/// and carries no such variant itself.
pub proof fn law_page_size_suffixes(b: Seq<char>)
    requires
        !starts_with(b, "Custom."@),
        !contains(b, ".ManuFeedBM"@),
        !ends_with(b, ".NMgn"@),
        !ends_with(b, ".ManuCDR"@),
        !ends_with(b, ".Fullbleed"@),
    ensures
        page_size_label(b + ".NMgn"@) == page_size_label(b) + " (Borderless)"@,
        page_size_label(b + ".Fullbleed"@) == page_size_label(b) + " (Borderless)"@,
        page_size_label(b + ".ManuCDR"@) == page_size_label(b) + " (CD/DVD Tray)"@,
{
    reveal_strlit(".NMgn");
    reveal_strlit(".ManuCDR");
    reveal_strlit(".Fullbleed");
    let nm = ".NMgn"@;
    let cd = ".ManuCDR"@;
    let fb = ".Fullbleed"@;
    assert(page_size_parts(b) == (b, ""@));

    let v1 = b + nm;
    assert(v1.skip(v1.len() - 5) =~= nm);
    assert(v1.take(v1.len() - 5) =~= b);
    lemma_label_with_suffix(v1, b, " (Borderless)"@);

    let v2 = b + fb;
    assert(v2.skip(v2.len() - 5)[0] == 'b');
    assert(!ends_with(v2, nm));
    lemma_no_manual_feed_across(b, fb);
    assert(v2.skip(v2.len() - 8)[0] == 'u');
    assert(!ends_with(v2, cd));
    assert(v2.skip(v2.len() - 10) =~= fb);
    assert(v2.take(v2.len() - 10) =~= b);
    lemma_label_with_suffix(v2, b, " (Borderless)"@);

    let v3 = b + cd;
    assert(v3.skip(v3.len() - 5)[0] == 'n');
    assert(!ends_with(v3, nm));
    lemma_no_manual_feed_across(b, cd);
    assert(v3.skip(v3.len() - 8) =~= cd);
    assert(v3.take(v3.len() - 8) =~= b);
    lemma_label_with_suffix(v3, b, " (CD/DVD Tray)"@);
}

} // verus!
