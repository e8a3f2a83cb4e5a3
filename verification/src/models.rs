//! Configuration and preset records, and the edits made to the preset list.
//!
//! Identifiers are held as the 128-bit value of a UUID, instants as seconds
//! and nanoseconds since the Unix epoch in UTC, and floating-point settings
//! as the bit pattern of their `f64` value (the logic never reads them).

use vstd::prelude::*;
use crate::text::{
    chars_of, clone_opt, clone_pairs, concat, concat_lit, distinct_keys, lookup, opt_view,
    pairs_view, string_of,
};

verus! {

/// An instant in UTC: seconds since the Unix epoch and the nanoseconds
/// within that second.
#[derive(Clone, Copy, Debug, PartialEq, Eq, Structural)]
pub struct Timestamp {
    pub seconds: i64,
    pub nanos: u32,
}

/// `Uuid::new_v4`, as the 128-bit value of the UUID.  The value is random;
/// the source sets the version nibble to 4 and the variant bits to `10`.
#[verifier::external_body]
pub(crate) fn new_v4_id() -> (res: u128)
    ensures
        (res >> 76u128) & 0xfu128 == 4,
        (res >> 62u128) & 0x3u128 == 2,
{
    uuid::Uuid::new_v4().as_u128()
}

/// `Utc::now`, as seconds and nanoseconds.  Nothing is stated of the value:
/// it is the time of the machine.
#[verifier::external_body]
pub(crate) fn now() -> (res: Timestamp) {
    let t = chrono::Utc::now();
    Timestamp { seconds: t.timestamp(), nanos: t.timestamp_subsec_nanos() }
}

/// What to do with a file once it has been handled.
#[derive(Clone, Copy, Debug, PartialEq, Eq, Structural)]
pub enum PostFileAction {
    Delete,
    MoveToSubfolder,
    Keep,
}

/// Application settings.
pub struct AppConfig {
    pub watch_folder: Option<String>,
    pub minimize_to_tray: bool,
    pub default_preset_id: Option<u128>,
    pub post_print_action: PostFileAction,
    pub post_zip_action: PostFileAction,
}

impl Default for AppConfig {
    fn default() -> (res: Self)
        ensures
            res.watch_folder is None,
            res.minimize_to_tray,
            res.default_preset_id is None,
            res.post_print_action == PostFileAction::MoveToSubfolder,
            res.post_zip_action == PostFileAction::Delete,
    {
        AppConfig {
            watch_folder: None,
            minimize_to_tray: true,
            default_preset_id: None,
            post_print_action: PostFileAction::MoveToSubfolder,
            post_zip_action: PostFileAction::Delete,
        }
    }
}

/// Bit pattern of the `f64` value `1.0`.
pub const ONE_F64_BITS: u64 = 0x3ff0_0000_0000_0000u64;

/// A named bundle of printer settings, routed to by its paper size keyword.
pub struct Preset {
    pub id: u128,
    pub name: String,
    pub printer_id: Option<String>,
    pub paper_size_keyword: String,
    /// Printer option key and selected value (e.g. "PageSize", "4x6.Fullbleed").
    pub settings: Vec<(String, String)>,
    pub copies: u32,
    pub auto_print: bool,
    /// Bit pattern of the `f64` scale compensation factor.
    pub scale_compensation_bits: u64,
    pub devmode_base64: Option<String>,
    pub macos_print_info_base64: Option<String>,
    pub macos_page_format_base64: Option<String>,
    pub macos_print_settings_base64: Option<String>,
    pub macos_printer_name: Option<String>,
    /// Bit patterns of the `f64` page width and height, in points.
    pub macos_page_width_points_bits: Option<u64>,
    pub macos_page_height_points_bits: Option<u64>,
    /// Bit pattern of the `f64` size compensation, in millimetres.
    pub macos_size_compensation_mm_bits: Option<u64>,
    pub created_at: Timestamp,
    pub updated_at: Timestamp,
}

/// The mathematical model of a [`Preset`].
pub struct PresetView {
    pub id: u128,
    pub name: Seq<char>,
    pub printer_id: Option<Seq<char>>,
    pub paper_size_keyword: Seq<char>,
    pub settings: Seq<(Seq<char>, Seq<char>)>,
    pub copies: u32,
    pub auto_print: bool,
    pub scale_compensation_bits: u64,
    pub devmode_base64: Option<Seq<char>>,
    pub macos_print_info_base64: Option<Seq<char>>,
    pub macos_page_format_base64: Option<Seq<char>>,
    pub macos_print_settings_base64: Option<Seq<char>>,
    pub macos_printer_name: Option<Seq<char>>,
    pub macos_page_width_points_bits: Option<u64>,
    pub macos_page_height_points_bits: Option<u64>,
    pub macos_size_compensation_mm_bits: Option<u64>,
    pub created_at: Timestamp,
    pub updated_at: Timestamp,
}

impl View for Preset {
    type V = PresetView;

    open spec fn view(&self) -> PresetView {
        PresetView {
            id: self.id,
            name: self.name@,
            printer_id: opt_view(self.printer_id),
            paper_size_keyword: self.paper_size_keyword@,
            settings: pairs_view(self.settings@),
            copies: self.copies,
            auto_print: self.auto_print,
            scale_compensation_bits: self.scale_compensation_bits,
            devmode_base64: opt_view(self.devmode_base64),
            macos_print_info_base64: opt_view(self.macos_print_info_base64),
            macos_page_format_base64: opt_view(self.macos_page_format_base64),
            macos_print_settings_base64: opt_view(self.macos_print_settings_base64),
            macos_printer_name: opt_view(self.macos_printer_name),
            macos_page_width_points_bits: self.macos_page_width_points_bits,
            macos_page_height_points_bits: self.macos_page_height_points_bits,
            macos_size_compensation_mm_bits: self.macos_size_compensation_mm_bits,
            created_at: self.created_at,
            updated_at: self.updated_at,
        }
    }
}

/// The models of a list of presets.
pub open spec fn presets_view(v: Seq<Preset>) -> Seq<PresetView> {
    v.map_values(|p: Preset| p@)
}

impl Preset {
    /// A new preset for the given name and paper size keyword, with no
    /// printer, no settings, one copy, printing automatically, and a scale
    /// compensation of 1.0; it gets a fresh random id and the current time.
    pub fn new(name: String, paper_size_keyword: String) -> (res: Self)
        ensures
            res@.name == name@,
            res@.paper_size_keyword == paper_size_keyword@,
            res@.printer_id is None,
            res@.settings.len() == 0,
            res@.copies == 1,
            res@.auto_print,
            res@.scale_compensation_bits == ONE_F64_BITS,
            res@.devmode_base64 is None,
            res@.macos_print_info_base64 is None,
            res@.macos_page_format_base64 is None,
            res@.macos_print_settings_base64 is None,
            res@.macos_printer_name is None,
            res@.macos_page_width_points_bits is None,
            res@.macos_page_height_points_bits is None,
            res@.macos_size_compensation_mm_bits is None,
            res@.created_at == res@.updated_at,
            distinct_keys(res@.settings),
            (res.id >> 76u128) & 0xfu128 == 4,
            (res.id >> 62u128) & 0x3u128 == 2,
    {
        Preset::new_at(new_v4_id(), now(), name, paper_size_keyword)
    }

    /// A new preset as [`Preset::new`] makes it, with the given id and
    /// creation time.
    pub fn new_at(id: u128, at: Timestamp, name: String, paper_size_keyword: String) -> (res: Self)
        ensures
            res@.name == name@,
            res@.paper_size_keyword == paper_size_keyword@,
            res@.printer_id is None,
            res@.settings.len() == 0,
            res@.copies == 1,
            res@.auto_print,
            res@.scale_compensation_bits == ONE_F64_BITS,
            res@.devmode_base64 is None,
            res@.macos_print_info_base64 is None,
            res@.macos_page_format_base64 is None,
            res@.macos_print_settings_base64 is None,
            res@.macos_printer_name is None,
            res@.macos_page_width_points_bits is None,
            res@.macos_page_height_points_bits is None,
            res@.macos_size_compensation_mm_bits is None,
            res@.created_at == res@.updated_at,
            distinct_keys(res@.settings),
            res.id == id,
            res.created_at == at,
    {
        Preset {
            id,
            name,
            printer_id: None,
            paper_size_keyword,
            settings: Vec::new(),
            copies: 1,
            auto_print: true,
            scale_compensation_bits: ONE_F64_BITS,
            devmode_base64: None,
            macos_print_info_base64: None,
            macos_page_format_base64: None,
            macos_print_settings_base64: None,
            macos_printer_name: None,
            macos_page_width_points_bits: None,
            macos_page_height_points_bits: None,
            macos_size_compensation_mm_bits: None,
            created_at: at,
            updated_at: at,
        }
    }

    /// A copy of the preset.
    pub fn duplicate(&self) -> (res: Self)
        ensures
            res@ == self@,
    {
        Preset {
            id: self.id,
            name: self.name.clone(),
            printer_id: clone_opt(&self.printer_id),
            paper_size_keyword: self.paper_size_keyword.clone(),
            settings: clone_pairs(&self.settings),
            copies: self.copies,
            auto_print: self.auto_print,
            scale_compensation_bits: self.scale_compensation_bits,
            devmode_base64: clone_opt(&self.devmode_base64),
            macos_print_info_base64: clone_opt(&self.macos_print_info_base64),
            macos_page_format_base64: clone_opt(&self.macos_page_format_base64),
            macos_print_settings_base64: clone_opt(&self.macos_print_settings_base64),
            macos_printer_name: clone_opt(&self.macos_printer_name),
            macos_page_width_points_bits: self.macos_page_width_points_bits,
            macos_page_height_points_bits: self.macos_page_height_points_bits,
            macos_size_compensation_mm_bits: self.macos_size_compensation_mm_bits,
            created_at: self.created_at,
            updated_at: self.updated_at,
        }
    }
}

/// A record of a processed file.
pub struct ProcessedFile {
    pub filename: String,
    pub hash: String,
    pub processed_at: Timestamp,
    pub job_count: u32,
    pub preset_id: Option<u128>,
}

// ───────────────────────── identifiers as text ─────────────────────────

/// Lower-case hexadecimal digit of a value below 16.
pub open spec fn hex_digit(n: u128) -> char {
    if n < 10 {
        (n + 48) as char
    } else {
        (n + 87) as char
    }
}

/// The `j`-th hexadecimal digit (from the most significant) of a 128-bit value.
pub open spec fn nibble(id: u128, j: int) -> u128 {
    (id >> ((124 - 4 * j) as u128)) & 0xfu128
}

/// The digits `from..to` of the 32-digit hexadecimal form of `id`.
pub open spec fn hex_run(id: u128, from: int, to: int) -> Seq<char> {
    Seq::new((to - from) as nat, |j: int| hex_digit(nibble(id, from + j)))
}

/// The hyphenated form in which a UUID is displayed, e.g.
/// `67e55044-10b1-426f-9247-bb680e5fe0c8`: 32 lower-case hexadecimal
/// digits in groups of 8, 4, 4, 4 and 12.
pub open spec fn uuid_text(id: u128) -> Seq<char> {
    hex_run(id, 0, 8) + seq!['-'] + hex_run(id, 8, 12) + seq!['-'] + hex_run(id, 12, 16) + seq![
        '-',
    ] + hex_run(id, 16, 20) + seq!['-'] + hex_run(id, 20, 32)
}

fn hex_run_exec(id: u128, from: usize, to: usize) -> (res: Vec<char>)
    requires
        from <= to <= 32,
    ensures
        res@ == hex_run(id, from as int, to as int),
{
    let mut res: Vec<char> = Vec::new();
    let mut j = from;
    while j < to
        invariant
            from <= j <= to <= 32,
            res@ =~= hex_run(id, from as int, j as int),
        decreases to - j,
    {
        let shift: u128 = (124 - 4 * j) as u128;
        let n: u128 = (id >> shift) & 0xfu128;
        assert(n < 16) by (bit_vector)
            requires
                n == (id >> shift) & 0xfu128,
        ;
        let c: char = if n < 10 {
            ((n + 48) as u8) as char
        } else {
            ((n + 87) as u8) as char
        };
        assert(c == hex_digit(nibble(id, j as int)));
        res.push(c);
        j = j + 1;
    }
    res
}

/// The hyphenated text of a UUID value (see [`uuid_text`]).
pub fn uuid_to_text(id: u128) -> (res: Vec<char>)
    ensures
        res@ == uuid_text(id),
{
    let mut dash: Vec<char> = Vec::new();
    dash.push('-');
    let a = hex_run_exec(id, 0, 8);
    let b = hex_run_exec(id, 8, 12);
    let c = hex_run_exec(id, 12, 16);
    let d = hex_run_exec(id, 16, 20);
    let e = hex_run_exec(id, 20, 32);
    let r = concat(&a, &dash);
    let r = concat(&r, &b);
    let r = concat(&r, &dash);
    let r = concat(&r, &c);
    let r = concat(&r, &dash);
    let r = concat(&r, &d);
    let r = concat(&r, &dash);
    let r = concat(&r, &e);
    assert(dash@ =~= seq!['-']);
    r
}

// ───────────────────────── preset list edits ─────────────────────────

/// `i` is the first position of a preset with id `id`.
pub open spec fn is_first_preset(v: Seq<PresetView>, id: u128, i: int) -> bool {
    0 <= i < v.len() && v[i].id == id && forall|k: int| 0 <= k < i ==> v[k].id != id
}

/// Some preset of the list has id `id`.
pub open spec fn has_preset(v: Seq<PresetView>, id: u128) -> bool {
    exists|i: int| 0 <= i < v.len() && #[trigger] v[i].id == id
}

/// The first position of a preset with id `id`.
pub open spec fn preset_index(v: Seq<PresetView>, id: u128) -> int {
    choose|i: int| is_first_preset(v, id, i)
}

/// The error text for an id that no preset carries.
pub open spec fn preset_not_found(id: u128) -> Seq<char> {
    "Preset "@ + uuid_text(id) + " not found"@
}

proof fn lemma_first_preset(v: Seq<PresetView>, id: u128, i: int)
    requires
        is_first_preset(v, id, i),
    ensures
        preset_index(v, id) == i,
        has_preset(v, id),
{
    let j = preset_index(v, id);
    assert(is_first_preset(v, id, j));
    assert(v[i].id == id);
}

fn find_preset(presets: &Vec<Preset>, id: u128) -> (res: Option<usize>)
    ensures
        res matches Some(i) ==> is_first_preset(presets_view(presets@), id, i as int),
        res is None ==> !has_preset(presets_view(presets@), id),
{
    let mut i: usize = 0;
    while i < presets.len()
        invariant
            i <= presets.len(),
            forall|k: int| 0 <= k < i ==> presets@[k].id != id,
        decreases presets.len() - i,
    {
        if presets[i].id == id {
            return Some(i);
        }
        i = i + 1;
    }
    assert forall|k: int| 0 <= k < presets@.len() implies #[trigger] presets_view(
        presets@,
    )[k].id != id by {
        assert(presets_view(presets@)[k] == presets@[k]@);
    }
    None
}

fn not_found_error(id: u128) -> (res: String)
    ensures
        res@ == preset_not_found(id),
{
    let head = chars_of("Preset ");
    let t = uuid_to_text(id);
    let r = concat(&head, &t);
    let r = concat_lit(&r, " not found");
    string_of(&r)
}

/// Creates a preset for the name and keyword, appends it to the list and
/// returns a copy of it.
pub fn create_preset(presets: &mut Vec<Preset>, name: String, paper_size_keyword: String) -> (res:
    Preset)
    ensures
        presets_view(final(presets)@) == presets_view(old(presets)@).push(res@),
        res@.name == name@,
        res@.paper_size_keyword == paper_size_keyword@,
        res@.printer_id is None,
        res@.settings.len() == 0,
        res@.copies == 1,
        res@.auto_print,
        res@.scale_compensation_bits == ONE_F64_BITS,
        res@.created_at == res@.updated_at,
        distinct_keys(res@.settings),
{
    let preset = Preset::new(name, paper_size_keyword);
    let copy = preset.duplicate();
    let ghost before = presets@;
    presets.push(preset);
    assert(presets_view(presets@) =~= presets_view(before).push(copy@));
    copy
}

/// Replaces the first preset that has the same id; when none has it, the
/// list stays as it is and the error names the id.
pub fn update_preset(presets: &mut Vec<Preset>, preset: Preset) -> (res: Result<Preset, String>)
    ensures
        has_preset(presets_view(old(presets)@), preset.id) ==> (res matches Ok(p) && p@ == preset@
            && presets_view(final(presets)@) == presets_view(old(presets)@).update(
            preset_index(presets_view(old(presets)@), preset.id),
            preset@,
        )),
        !has_preset(presets_view(old(presets)@), preset.id) ==> (res matches Err(e) && e@
            == preset_not_found(preset.id) && presets_view(final(presets)@) == presets_view(
            old(presets)@,
        )),
{
    match find_preset(presets, preset.id) {
        Some(idx) => {
            proof {
                lemma_first_preset(presets_view(presets@), preset.id, idx as int);
            }
            let copy = preset.duplicate();
            let ghost before = presets@;
            presets.set(idx, preset);
            assert(presets_view(presets@) =~= presets_view(before).update(idx as int, copy@));
            Ok(copy)
        },
        None => Err(not_found_error(preset.id)),
    }
}

/// Removes the first preset with the id; when none has it, the list stays
/// as it is and the error names the id.
pub fn delete_preset(presets: &mut Vec<Preset>, id: u128) -> (res: Result<(), String>)
    ensures
        has_preset(presets_view(old(presets)@), id) ==> (res is Ok && presets_view(final(presets)@)
            == presets_view(old(presets)@).remove(preset_index(presets_view(old(presets)@), id))),
        !has_preset(presets_view(old(presets)@), id) ==> (res matches Err(e) && e@
            == preset_not_found(id) && presets_view(final(presets)@) == presets_view(
            old(presets)@,
        )),
{
    match find_preset(presets, id) {
        Some(idx) => {
            proof {
                lemma_first_preset(presets_view(presets@), id, idx as int);
            }
            let ghost before = presets@;
            presets.remove(idx);
            assert(presets_view(presets@) =~= presets_view(before).remove(idx as int));
            Ok(())
        },
        None => Err(not_found_error(id)),
    }
}

// ───────────────────────── laws ─────────────────────────

/// Creating a preset with an id no other preset has, then deleting that id,
/// gives back the list it started from.
pub proof fn law_create_then_delete_restores(v: Seq<PresetView>, p: PresetView)
    requires
        !has_preset(v, p.id),
    ensures
        has_preset(v.push(p), p.id),
        preset_index(v.push(p), p.id) == v.len(),
        v.push(p).remove(preset_index(v.push(p), p.id)) == v,
{
    let w = v.push(p);
    assert(w[v.len() as int].id == p.id);
    assert forall|k: int| 0 <= k < v.len() implies w[k].id != p.id by {
        assert(w[k] == v[k]);
    }
    assert(is_first_preset(w, p.id, v.len() as int));
    lemma_first_preset(w, p.id, v.len() as int);
    assert(w.remove(v.len() as int) =~= v);
}

/// Updating a preset replaces exactly the first preset with its id: the
/// list keeps its length, that position holds the new preset, and every
/// other position is unchanged.
pub proof fn law_update_replaces_one(v: Seq<PresetView>, p: PresetView)
    requires
        has_preset(v, p.id),
    ensures
        ({
            let i = preset_index(v, p.id);
            let w = v.update(i, p);
            &&& 0 <= i < v.len()
            &&& w.len() == v.len()
            &&& w[i] == p
            &&& forall|k: int| 0 <= k < v.len() && k != i ==> w[k] == v[k]
            &&& preset_index(w, p.id) == i
        }),
{
    let j = choose|j: int| 0 <= j < v.len() && #[trigger] v[j].id == p.id;
    lemma_exists_first_preset(v, p.id, j);
    let i = preset_index(v, p.id);
    let w = v.update(i, p);
    assert(is_first_preset(w, p.id, i));
    lemma_first_preset(w, p.id, i);
}

proof fn lemma_exists_first_preset(v: Seq<PresetView>, id: u128, j: int)
    requires
        0 <= j < v.len(),
        v[j].id == id,
    ensures
        is_first_preset(v, id, preset_index(v, id)),
    decreases j,
{
    if forall|k: int| 0 <= k < j ==> v[k].id != id {
        assert(is_first_preset(v, id, j));
    } else {
        let k = choose|k: int| 0 <= k < j && v[k].id == id;
        lemma_exists_first_preset(v, id, k);
    }
}

/// Deleting a preset removes exactly one preset, the first with that id,
/// and keeps the others in order.
pub proof fn law_delete_removes_one(v: Seq<PresetView>, id: u128)
    requires
        has_preset(v, id),
    ensures
        ({
            let i = preset_index(v, id);
            let w = v.remove(i);
            &&& 0 <= i < v.len()
            &&& v[i].id == id
            &&& w.len() == v.len() - 1
            &&& forall|k: int| 0 <= k < i ==> w[k] == v[k] && v[k].id != id
            &&& forall|k: int| i <= k < w.len() ==> w[k] == v[k + 1]
        }),
{
    let j = choose|j: int| 0 <= j < v.len() && #[trigger] v[j].id == id;
    lemma_exists_first_preset(v, id, j);
}

/// A preset's settings, whose keys are distinct, act as a map: looking up
/// the key of any setting gives that setting's value, wherever it stands.
pub proof fn law_settings_are_a_map(s: Seq<(Seq<char>, Seq<char>)>, i: int)
    requires
        distinct_keys(s),
        0 <= i < s.len(),
    ensures
        lookup(s, s[i].0) == Some(s[i].1),
    decreases i,
{
    if i > 0 {
        assert(s[0].0 != s[i].0);
        let d = s.drop_first();
        assert forall|a: int, b: int| 0 <= a < b < d.len() implies #[trigger] d[a].0
            != #[trigger] d[b].0 by {
            assert(d[a] == s[a + 1] && d[b] == s[b + 1]);
        }
        assert(d[i - 1] == s[i]);
        law_settings_are_a_map(d, i - 1);
    }
}

} // verus!
