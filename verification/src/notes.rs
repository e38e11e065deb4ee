//! The notes of the widget: their metadata, their labels, and the notebook
//! that keeps one of them active.
use vstd::prelude::*;
use vstd::string::*;
use crate::text::{chars_of, collapse_white_space, collapse_whitespace, string_from_chars, trim, trim_bounds};

verus! {

broadcast use vstd::string::group_string_axioms;

/// Version of the persisted state layout.
pub const STATE_VERSION: u32 = 3;

/// Bit pattern of the default editor font size, 15.0 CSS pixels, as an `f64`.
pub const DEFAULT_FONT_SIZE_BITS: u64 = 0x402E_0000_0000_0000;

/// Number of characters of a note's text that its label shows.
pub const LABEL_PREVIEW_CHARS: usize = 28;

/// Metadata of one note.
pub struct NoteMeta {
    pub id: String,
    pub title: Option<String>,
    pub created_at: String,
    pub updated_at: String,
    /// Paper colour; empty for the theme default.
    pub background: String,
    /// Ink colour; empty for the theme default.
    pub foreground: String,
    /// Editor font size in CSS pixels, carried as the bit pattern of an `f64`.
    pub font_size_bits: u64,
}

/// One note: its metadata and its text.
pub struct NoteRecord {
    pub meta: NoteMeta,
    pub text: String,
}

/// What a list of notes shows of each note.
pub struct NoteSummary {
    pub id: String,
    pub label: String,
    pub background: String,
    pub foreground: String,
}

/// The notes and the id of the active one.
pub struct Notebook {
    pub notes: Vec<NoteRecord>,
    pub active_note_id: String,
}

pub struct NoteMetaView {
    pub id: Seq<char>,
    pub title: Option<Seq<char>>,
    pub created_at: Seq<char>,
    pub updated_at: Seq<char>,
    pub background: Seq<char>,
    pub foreground: Seq<char>,
    pub font_size_bits: u64,
}

pub struct NoteRecordView {
    pub meta: NoteMetaView,
    pub text: Seq<char>,
}

pub struct NoteSummaryView {
    pub id: Seq<char>,
    pub label: Seq<char>,
    pub background: Seq<char>,
    pub foreground: Seq<char>,
}

pub struct NotebookView {
    pub notes: Seq<NoteRecordView>,
    pub active_note_id: Seq<char>,
}

pub open spec fn option_string_view(o: Option<String>) -> Option<Seq<char>> {
    match o {
        Some(s) => Some(s@),
        None => None,
    }
}

impl View for NoteMeta {
    type V = NoteMetaView;

    open spec fn view(&self) -> NoteMetaView {
        NoteMetaView {
            id: self.id@,
            title: option_string_view(self.title),
            created_at: self.created_at@,
            updated_at: self.updated_at@,
            background: self.background@,
            foreground: self.foreground@,
            font_size_bits: self.font_size_bits,
        }
    }
}

impl View for NoteRecord {
    type V = NoteRecordView;

    open spec fn view(&self) -> NoteRecordView {
        NoteRecordView { meta: self.meta@, text: self.text@ }
    }
}

impl View for NoteSummary {
    type V = NoteSummaryView;

    open spec fn view(&self) -> NoteSummaryView {
        NoteSummaryView {
            id: self.id@,
            label: self.label@,
            background: self.background@,
            foreground: self.foreground@,
        }
    }
}

impl View for Notebook {
    type V = NotebookView;

    open spec fn view(&self) -> NotebookView {
        NotebookView {
            notes: self.notes@.map_values(|n: NoteRecord| n@),
            active_note_id: self.active_note_id@,
        }
    }
}

/// A lower-case hexadecimal digit.
pub open spec fn is_lower_hex_digit(c: char) -> bool {
    (0x30 <= (c as u32) && (c as u32) <= 0x39) || (0x61 <= (c as u32) && (c as u32) <= 0x66)
}

/// A decimal digit.
pub open spec fn is_decimal_digit(c: char) -> bool {
    0x30 <= (c as u32) && (c as u32) <= 0x39
}

/// The hyphenated lower-case text of a random (version 4) UUID.
pub open spec fn is_uuid_v4_text(s: Seq<char>) -> bool {
    &&& s.len() == 36
    &&& forall|i: int|
        0 <= i < 36 ==> if i == 8 || i == 13 || i == 18 || i == 23 {
            s[i] == '-'
        } else {
            is_lower_hex_digit(#[trigger] s[i])
        }
    &&& s[14] == '4'
    &&& (s[19] == '8' || s[19] == '9' || s[19] == 'a' || s[19] == 'b')
}

/// The lower-case hexadecimal digit for `n` in `0..16`.
pub open spec fn lower_hex_char(n: int) -> char {
    if n < 10 {
        (0x30 + n) as char
    } else {
        (0x61 + n - 10) as char
    }
}

/// Random bytes with the version (4) and variant (RFC 4122) bits of a random
/// UUID set: the high half of byte 6 becomes 4, the top bits of byte 8 become `10`.
pub open spec fn uuid_v4_bytes(b: Seq<u8>) -> Seq<u8> {
    b.update(6, (b[6] % 16 + 0x40) as u8).update(8, (b[8] % 64 + 0x80) as u8)
}

/// Number of hyphens before position `i` of a hyphenated UUID text.
pub open spec fn uuid_hyphens_before(i: int) -> int {
    if i < 8 {
        0
    } else if i < 13 {
        1
    } else if i < 18 {
        2
    } else if i < 23 {
        3
    } else {
        4
    }
}

/// The 16 bytes `b` as hyphenated lower-case hexadecimal text: 32 digits, high
/// half of each byte first, in groups of 8, 4, 4, 4 and 12 joined by hyphens.
pub open spec fn hyphenated_hex(b: Seq<u8>) -> Seq<char> {
    Seq::new(
        36,
        |i: int|
            if i == 8 || i == 13 || i == 18 || i == 23 {
                '-'
            } else {
                let j = i - uuid_hyphens_before(i);
                let byte = b[j / 2];
                lower_hex_char(if j % 2 == 0 { (byte / 16) as int } else { (byte % 16) as int })
            },
    )
}

/// Last second of the year 9999, in seconds since 1970-01-01T00:00:00Z.
pub const LAST_FOUR_DIGIT_YEAR_SECOND: i64 = 253_402_300_799;

/// An RFC 3339 time stamp in UTC with whole seconds: `YYYY-MM-DDTHH:MM:SSZ`.
pub open spec fn is_utc_timestamp(s: Seq<char>) -> bool {
    &&& s.len() == 20
    &&& forall|i: int|
        0 <= i < 20 ==> if i == 4 || i == 7 {
            s[i] == '-'
        } else if i == 10 {
            s[i] == 'T'
        } else if i == 13 || i == 16 {
            s[i] == ':'
        } else if i == 19 {
            s[i] == 'Z'
        } else {
            is_decimal_digit(#[trigger] s[i])
        }
}

/// The RFC 3339 text, in UTC with whole seconds and a `Z` suffix, of the time
/// `secs` seconds after 1970-01-01T00:00:00Z, as chrono writes it.
pub uninterp spec fn rfc3339_utc_of(secs: i64) -> Seq<char>;

/// A time stamp read from the clock: the RFC 3339 text of some time not before
/// 1970, of the `YYYY-MM-DDTHH:MM:SSZ` shape up to the year 9999.
pub open spec fn is_clock_stamp(s: Seq<char>) -> bool {
    exists|secs: i64|
        {
            &&& 0 <= secs
            &&& s == #[trigger] rfc3339_utc_of(secs)
            &&& secs <= LAST_FOUR_DIGIT_YEAR_SECOND ==> is_utc_timestamp(s)
        }
}

/// `getrandom::fill` on 16 bytes: random bytes from the system's source, or
/// `None` when the system offers none. Nothing is said of which bytes come back.
#[verifier::external_body]
fn random_bytes() -> (bytes: Option<[u8; 16]>) {
    let mut bytes = [0u8; 16];
    match getrandom::fill(&mut bytes) {
        Ok(()) => Some(bytes),
        Err(_) => None,
    }
}

/// `uuid::Builder::from_random_bytes(bytes).into_uuid().to_string()`: the
/// random UUID made of `bytes` (version and variant bits set), as hyphenated
/// lower-case text.
#[verifier::external_body]
fn uuid_text_from_random_bytes(bytes: [u8; 16]) -> (s: String)
    ensures
        s@ == hyphenated_hex(uuid_v4_bytes(bytes@)),
{
    uuid::Builder::from_random_bytes(bytes).into_uuid().to_string()
}

#[verifier::external_type_specification]
#[verifier::external_body]
pub struct ExSystemTime(std::time::SystemTime);

/// `SystemTime::now`: the machine's clock; nothing is said of its reading.
#[verifier::external_body]
fn system_time_now() -> (t: std::time::SystemTime) {
    std::time::SystemTime::now()
}

/// `SystemTime::duration_since(UNIX_EPOCH)`: the time elapsed since 1970, or
/// `None` when the time lies before 1970. The time is opaque here, so nothing
/// more is said.
#[verifier::external_body]
fn duration_since_epoch(t: &std::time::SystemTime) -> (d: Option<core::time::Duration>) {
    match t.duration_since(std::time::UNIX_EPOCH) {
        Ok(d) => Some(d),
        Err(_) => None,
    }
}

/// `Duration::as_secs`: the whole seconds of a duration. The duration is opaque
/// here, so nothing is said of the number.
#[verifier::external_body]
fn whole_seconds(d: &core::time::Duration) -> (secs: u64) {
    d.as_secs()
}

/// `chrono::DateTime::from_timestamp(secs, 0)` written with
/// `to_rfc3339_opts(SecondsFormat::Secs, true)`: `None` when the time lies
/// beyond chrono's range of dates; of the `YYYY-MM-DDTHH:MM:SSZ` shape for
/// times from 1970 through the year 9999.
#[verifier::external_body]
fn rfc3339_utc(secs: i64) -> (stamp: Option<String>)
    ensures
        stamp is Some ==> stamp->0@ == rfc3339_utc_of(secs),
        0 <= secs <= LAST_FOUR_DIGIT_YEAR_SECOND ==> stamp is Some && is_utc_timestamp(stamp->0@),
{
    match chrono::DateTime::from_timestamp(secs, 0) {
        Some(t) => Some(t.to_rfc3339_opts(chrono::SecondsFormat::Secs, true)),
        None => None,
    }
}

proof fn lemma_random_uuid_text(b: Seq<u8>)
    requires
        b.len() == 16,
    ensures
        is_uuid_v4_text(hyphenated_hex(uuid_v4_bytes(b))),
{
    let u = uuid_v4_bytes(b);
    let s = hyphenated_hex(u);
    assert forall|i: int| 0 <= i < 36 && !(i == 8 || i == 13 || i == 18 || i == 23) implies is_lower_hex_digit(#[trigger] s[i]) by {
        let j = i - uuid_hyphens_before(i);
        assert(0 <= j / 2 < 16);
        let byte = u[j / 2];
        let n: int = if j % 2 == 0 { (byte / 16) as int } else { (byte % 16) as int };
        assert(0 <= n < 16);
        assert(s[i] == lower_hex_char(n));
    }
    assert(u[6] / 16 == 4);
    assert(s[14] == lower_hex_char(4));
    let v: int = (u[8] / 16) as int;
    assert(8 <= v < 12);
    assert(s[19] == lower_hex_char(v));
}

/// A fresh note id: the text of a random UUID, or `None` when the system
/// offers no random bytes.
pub fn new_note_id() -> (id: Option<String>)
    ensures
        id matches Some(s) ==> is_uuid_v4_text(s@),
{
    match random_bytes() {
        Some(bytes) => {
            let s = uuid_text_from_random_bytes(bytes);
            proof {
                lemma_random_uuid_text(bytes@);
            }
            Some(s)
        },
        None => None,
    }
}

/// The current time as an RFC 3339 time stamp in UTC with whole seconds, or
/// `None` when the clock reads before 1970 or beyond chrono's range of dates.
pub fn now_iso() -> (stamp: Option<String>)
    ensures
        stamp matches Some(s) ==> is_clock_stamp(s@),
{
    let t = system_time_now();
    match duration_since_epoch(&t) {
        Some(d) => {
            let secs = whole_seconds(&d);
            let stamp = stamp_of_seconds(secs);
            proof {
                if stamp is Some {
                    assert(stamp->0@ == rfc3339_utc_of(secs as i64));
                }
            }
            stamp
        },
        None => None,
    }
}

/// The RFC 3339 time stamp of the time `secs` seconds after 1970 began:
/// `None` beyond chrono's range of dates, which includes every `secs` that
/// does not fit an `i64`.
pub fn stamp_of_seconds(secs: u64) -> (stamp: Option<String>)
    ensures
        secs > i64::MAX ==> stamp is None,
        stamp is Some ==> secs <= i64::MAX && stamp->0@ == rfc3339_utc_of(secs as i64),
        secs <= LAST_FOUR_DIGIT_YEAR_SECOND ==> stamp is Some && is_utc_timestamp(stamp->0@),
{
    if secs > 0x7fff_ffff_ffff_ffffu64 {
        return None;
    }
    rfc3339_utc(secs as i64)
}

/// The metadata of a new note with the id `id`, created at `stamp`: no title,
/// both time stamps `stamp`, theme colours, the default font size.
pub open spec fn fresh_meta(id: Seq<char>, stamp: Seq<char>) -> NoteMetaView {
    NoteMetaView {
        id: id,
        title: None,
        created_at: stamp,
        updated_at: stamp,
        background: Seq::empty(),
        foreground: Seq::empty(),
        font_size_bits: DEFAULT_FONT_SIZE_BITS,
    }
}

/// Metadata of a note as it is created: a fresh id, no title, both time stamps
/// the creation time, theme colours, and the default font size.
pub open spec fn is_fresh_meta(m: NoteMetaView) -> bool {
    &&& is_uuid_v4_text(m.id)
    &&& is_clock_stamp(m.created_at)
    &&& m == fresh_meta(m.id, m.created_at)
}

/// A note as it is created: fresh metadata and no text.
pub open spec fn is_fresh_note(n: NoteRecordView) -> bool {
    &&& is_fresh_meta(n.meta)
    &&& n.text == Seq::<char>::empty()
}

/// The label of a note: its title, trimmed, when that is not blank; otherwise
/// the first `LABEL_PREVIEW_CHARS` characters of its text with white space
/// collapsed, followed by an ellipsis when the text goes on, or
/// "Untitled note" when the text is blank.
pub open spec fn note_label(title: Option<Seq<char>>, text: Seq<char>) -> Seq<char> {
    if title is Some && trim(title->0).len() > 0 {
        trim(title->0)
    } else {
        let p = collapse_white_space(text);
        if p.len() == 0 {
            "Untitled note"@
        } else if p.len() <= LABEL_PREVIEW_CHARS {
            p
        } else {
            p.take(LABEL_PREVIEW_CHARS as int).push('\u{2026}')
        }
    }
}

/// What a list shows of a note.
pub open spec fn summary_of(n: NoteRecordView) -> NoteSummaryView {
    NoteSummaryView {
        id: n.meta.id,
        label: note_label(n.meta.title, n.text),
        background: n.meta.background,
        foreground: n.meta.foreground,
    }
}

/// Some note has the id `id`.
pub open spec fn has_note_with_id(notes: Seq<NoteRecordView>, id: Seq<char>) -> bool {
    exists|i: int| 0 <= i < notes.len() && (#[trigger] notes[i]).meta.id == id
}

/// `i` is the position of the first note with the id `id`.
pub open spec fn is_first_with_id(notes: Seq<NoteRecordView>, id: Seq<char>, i: int) -> bool {
    &&& 0 <= i < notes.len()
    &&& notes[i].meta.id == id
    &&& forall|j: int| 0 <= j < i ==> (#[trigger] notes[j]).meta.id != id
}

/// The position of the active note: the first note with the active id, or
/// the first position when no note has it.
pub open spec fn active_index_of(nb: NotebookView) -> int {
    if has_note_with_id(nb.notes, nb.active_note_id) {
        choose|i: int| is_first_with_id(nb.notes, nb.active_note_id, i)
    } else {
        0
    }
}

/// When some note has the id, there is a first one.
pub proof fn lemma_first_with_id_exists(notes: Seq<NoteRecordView>, id: Seq<char>, k: int)
    requires
        0 <= k < notes.len(),
        notes[k].meta.id == id,
    ensures
        exists|i: int| is_first_with_id(notes, id, i),
    decreases k,
{
    if exists|j: int| 0 <= j < k && (#[trigger] notes[j]).meta.id == id {
        let j = choose|j: int| 0 <= j < k && (#[trigger] notes[j]).meta.id == id;
        lemma_first_with_id_exists(notes, id, j);
    } else {
        assert(is_first_with_id(notes, id, k));
    }
}

/// The first position with an id is unique.
pub proof fn lemma_first_with_id_unique(notes: Seq<NoteRecordView>, id: Seq<char>, i: int, k: int)
    requires
        is_first_with_id(notes, id, i),
        is_first_with_id(notes, id, k),
    ensures
        i == k,
{
    if i < k {
        assert(notes[i].meta.id != id);
    } else if k < i {
        assert(notes[k].meta.id != id);
    }
}

/// The active position is that of the first note with the active id when
/// there is one, and 0 otherwise; it lies among the notes when there are any.
pub proof fn lemma_active_index(nb: NotebookView)
    ensures
        has_note_with_id(nb.notes, nb.active_note_id) ==> is_first_with_id(
            nb.notes,
            nb.active_note_id,
            active_index_of(nb),
        ),
        !has_note_with_id(nb.notes, nb.active_note_id) ==> active_index_of(nb) == 0,
        nb.notes.len() > 0 ==> 0 <= active_index_of(nb) < nb.notes.len(),
{
    if has_note_with_id(nb.notes, nb.active_note_id) {
        let k = choose|k: int| 0 <= k < nb.notes.len() && (#[trigger] nb.notes[k]).meta.id == nb.active_note_id;
        lemma_first_with_id_exists(nb.notes, nb.active_note_id, k);
    }
}

/// What `ensure_active` makes of the notebook `o`: an empty notebook gets one
/// new note, which is active; otherwise, when no note has the active id, the
/// first note becomes active; otherwise nothing changes.
pub open spec fn ensure_active_outcome(o: NotebookView, n: NotebookView) -> bool {
    if o.notes.len() == 0 {
        &&& n.notes.len() == 1
        &&& is_fresh_note(n.notes[0])
        &&& n.active_note_id == n.notes[0].meta.id
    } else if !has_note_with_id(o.notes, o.active_note_id) {
        n == NotebookView { active_note_id: o.notes[0].meta.id, ..o }
    } else {
        n == o
    }
}

/// What `migrate` makes of the notebook `o`, given the legacy single note's
/// metadata and text: a notebook without notes gets that note (with fresh
/// metadata when it has no id) as its only, active note; otherwise the active
/// id is made to name a note as `ensure_active` does.
pub open spec fn migrate_outcome(
    o: NotebookView,
    legacy: NoteMetaView,
    legacy_text: Seq<char>,
    n: NotebookView,
) -> bool {
    if o.notes.len() == 0 {
        &&& n.notes.len() == 1
        &&& n.notes[0].text == legacy_text
        &&& legacy.id.len() > 0 ==> n.notes[0].meta == legacy
        &&& legacy.id.len() == 0 ==> is_fresh_meta(n.notes[0].meta)
        &&& n.active_note_id == n.notes[0].meta.id
    } else {
        ensure_active_outcome(o, n)
    }
}

/// The empty string (the theme's default paper colour).
pub fn default_background() -> (s: String)
    ensures
        s@ == Seq::<char>::empty(),
{
    String::new()
}

fn copy_option_string(o: &Option<String>) -> (r: Option<String>)
    ensures
        option_string_view(r) == option_string_view(*o),
{
    match o {
        Some(s) => Some(s.clone()),
        None => None,
    }
}

impl NoteMeta {
    /// A field-for-field copy.
    pub fn copy(&self) -> (m: NoteMeta)
        ensures
            m@ == self@,
    {
        NoteMeta {
            id: self.id.clone(),
            title: copy_option_string(&self.title),
            created_at: self.created_at.clone(),
            updated_at: self.updated_at.clone(),
            background: self.background.clone(),
            foreground: self.foreground.clone(),
            font_size_bits: self.font_size_bits,
        }
    }
}

impl NoteMeta {
    /// The metadata of a new note with the id `id`, created at `stamp`.
    pub fn fresh(id: String, stamp: String) -> (m: Self)
        ensures
            m@ == fresh_meta(id@, stamp@),
    {
        NoteMeta {
            id,
            title: None,
            created_at: stamp.clone(),
            updated_at: stamp,
            background: default_background(),
            foreground: String::new(),
            font_size_bits: DEFAULT_FONT_SIZE_BITS,
        }
    }

    /// Metadata for a new note: a fresh id, both time stamps now, theme colours,
    /// the default font size; `None` when the system offers no random bytes or
    /// the clock cannot be read.
    pub fn try_default() -> (m: Option<Self>)
        ensures
            m matches Some(meta) ==> is_fresh_meta(meta@),
    {
        let stamp = match now_iso() {
            Some(s) => s,
            None => return None,
        };
        let id = match new_note_id() {
            Some(id) => id,
            None => return None,
        };
        Some(NoteMeta::fresh(id, stamp))
    }
}

impl NoteRecord {
    /// A new note without text.
    pub fn new_empty() -> (n: Option<Self>)
        ensures
            n matches Some(note) ==> is_fresh_note(note@),
    {
        match NoteMeta::try_default() {
            Some(meta) => Some(NoteRecord::from_meta(meta)),
            None => None,
        }
    }

    /// A note with the metadata `meta` and no text.
    pub fn from_meta(meta: NoteMeta) -> (n: Self)
        ensures
            n@ == (NoteRecordView { meta: meta@, text: Seq::empty() }),
    {
        NoteRecord { meta, text: String::new() }
    }

    /// A field-for-field copy.
    pub fn copy(&self) -> (n: NoteRecord)
        ensures
            n@ == self@,
    {
        NoteRecord { meta: self.meta.copy(), text: self.text.clone() }
    }

    /// The label that lists show for the note (see `note_label`).
    pub fn label(&self) -> (s: String)
        ensures
            s@ == note_label(self@.meta.title, self@.text),
    {
        if let Some(title) = &self.meta.title {
            let chars = chars_of(title.as_str());
            let (lo, hi) = trim_bounds(&chars);
            if lo < hi {
                return string_from_chars(&chars, lo, hi);
            }
        }
        let preview = collapse_whitespace(self.text.as_str());
        if preview.len() == 0 {
            return String::from_str("Untitled note");
        }
        if preview.len() <= LABEL_PREVIEW_CHARS {
            return string_from_chars(&preview, 0, preview.len());
        }
        let mut head = string_from_chars(&preview, 0, LABEL_PREVIEW_CHARS);
        head.append("\u{2026}");
        proof {
            reveal_strlit("\u{2026}");
            assert(preview@.subrange(0, LABEL_PREVIEW_CHARS as int) =~= preview@.take(LABEL_PREVIEW_CHARS as int));
        }
        head
    }

    /// What a list shows of the note.
    pub fn summary(&self) -> (s: NoteSummary)
        ensures
            s@ == summary_of(self@),
    {
        NoteSummary {
            id: self.meta.id.clone(),
            label: self.label(),
            background: self.meta.background.clone(),
            foreground: self.meta.foreground.clone(),
        }
    }
}


impl Notebook {
    /// A notebook with one new, empty note, which is active; `None` when no
    /// new note can be made.
    pub fn new() -> (nb: Option<Self>)
        ensures
            nb matches Some(nb) ==> {
                &&& nb@.notes.len() == 1
                &&& is_fresh_note(nb@.notes[0])
                &&& nb@.active_note_id == nb@.notes[0].meta.id
            },
    {
        match NoteRecord::new_empty() {
            Some(note) => Some(Notebook::with_note(note)),
            None => None,
        }
    }

    /// A notebook holding the one note `note`, which is active.
    pub fn with_note(note: NoteRecord) -> (nb: Self)
        ensures
            nb@.notes == seq![note@],
            nb@.active_note_id == note@.meta.id,
    {
        let id = note.meta.id.clone();
        let mut notes: Vec<NoteRecord> = Vec::new();
        notes.push(note);
        let nb = Notebook { notes, active_note_id: id };
        proof {
            assert(nb@.notes =~= seq![note@]);
        }
        nb
    }

    /// Add the note `note` at the end and make its id the active one; the
    /// active note is then `note` unless an older note has the same id.
    pub fn add_note(&mut self, note: NoteRecord) -> (n: &NoteRecord)
        ensures
            final(self)@.notes == old(self)@.notes.push(note@),
            final(self)@.active_note_id == note@.meta.id,
            n@ == final(self)@.notes[active_index_of(final(self)@)],
            !has_note_with_id(old(self)@.notes, note@.meta.id) ==> n@ == note@,
    {
        self.active_note_id = note.meta.id.clone();
        let ghost added = note@;
        self.notes.push(note);
        proof {
            assert(self@.notes =~= old(self)@.notes.push(added));
            let last = self@.notes.len() - 1;
            assert(self@.notes[last].meta.id == self@.active_note_id);
            if !has_note_with_id(old(self)@.notes, added.meta.id) {
                assert forall|j: int| 0 <= j < last implies (#[trigger] self@.notes[j]).meta.id
                    != self@.active_note_id by {
                    assert(self@.notes[j] == old(self)@.notes[j]);
                }
                assert(is_first_with_id(self@.notes, self@.active_note_id, last));
                lemma_active_index(self@);
                lemma_first_with_id_unique(self@.notes, self@.active_note_id, last, active_index_of(self@));
            }
        }
        self.active_note()
    }

    /// The position of the first note with the id `id`, if any.
    fn position_of(&self, id: &String) -> (r: Option<usize>)
        ensures
            r matches Some(i) ==> is_first_with_id(self@.notes, id@, i as int),
            r is None ==> !has_note_with_id(self@.notes, id@),
    {
        let mut i: usize = 0;
        while i < self.notes.len()
            invariant
                i <= self.notes.len(),
                forall|j: int| 0 <= j < i ==> (#[trigger] self@.notes[j]).meta.id != id@,
            decreases self.notes.len() - i,
        {
            if self.notes[i].meta.id == *id {
                return Some(i);
            }
            i = i + 1;
        }
        None
    }

    /// The position of the active note: the first note with the active id, or
    /// 0 when no note has it.
    pub fn active_index(&self) -> (i: usize)
        ensures
            i == active_index_of(self@),
    {
        proof {
            lemma_active_index(self@);
        }
        match self.position_of(&self.active_note_id) {
            Some(i) => {
                proof {
                    lemma_first_with_id_unique(self@.notes, self@.active_note_id, i as int, active_index_of(self@));
                }
                i
            },
            None => 0,
        }
    }

    /// The active note.
    pub fn active_note(&self) -> (n: &NoteRecord)
        requires
            self@.notes.len() > 0,
        ensures
            n@ == self@.notes[active_index_of(self@)],
    {
        proof {
            lemma_active_index(self@);
        }
        let i = self.active_index();
        &self.notes[i]
    }

    /// Make sure that the active id names a note: an empty notebook gets a new
    /// note, which becomes active; otherwise, when no note has the active id,
    /// the first note becomes active. Reports `false`, and changes nothing, when
    /// an empty notebook needs a new note and none can be made.
    pub fn ensure_active(&mut self) -> (ok: bool)
        ensures
            ok ==> ensure_active_outcome(old(self)@, final(self)@),
            !ok ==> old(self)@.notes.len() == 0 && final(self)@ == old(self)@,
    {
        if self.notes.len() == 0 {
            let note = match NoteRecord::new_empty() {
                Some(n) => n,
                None => return false,
            };
            self.add_note(note);
            proof {
                assert(self@.notes =~= seq![self@.notes[0]]);
            }
            return true;
        }
        if self.position_of(&self.active_note_id).is_none() {
            self.active_note_id = self.notes[0].meta.id.clone();
        }
        true
    }

    /// Make the first note with the id `id` active; report whether there is one.
    pub fn switch_note(&mut self, id: &str) -> (found: bool)
        ensures
            found == has_note_with_id(old(self)@.notes, id@),
            found ==> final(self)@ == (NotebookView { active_note_id: id@, ..old(self)@ }),
            !found ==> final(self)@ == old(self)@,
    {
        let wanted = String::from_str(id);
        if self.position_of(&wanted).is_some() {
            self.active_note_id = wanted;
            true
        } else {
            false
        }
    }

    /// Add a new, empty note and make it active; `None`, and no change, when no
    /// new note can be made.
    pub fn create_note(&mut self) -> (n: Option<&NoteRecord>)
        ensures
            n matches Some(n) ==> {
                &&& final(self)@.notes.len() == old(self)@.notes.len() + 1
                &&& final(self)@.notes.drop_last() == old(self)@.notes
                &&& is_fresh_note(final(self)@.notes.last())
                &&& final(self)@.active_note_id == final(self)@.notes.last().meta.id
                &&& n@ == final(self)@.notes[active_index_of(final(self)@)]
            },
            n is None ==> final(self)@ == old(self)@,
    {
        let note = match NoteRecord::new_empty() {
            Some(n) => n,
            None => return None,
        };
        Some(self.add_note(note))
    }

    /// The active note, for changing it in place.
    pub fn active_note_mut(&mut self) -> (n: &mut NoteRecord)
        requires
            old(self)@.notes.len() > 0,
        ensures
            0 <= active_index_of(old(self)@) < old(self)@.notes.len(),
            *n == old(self).notes@[active_index_of(old(self)@)],
            final(self).notes@ == old(self).notes@.update(active_index_of(old(self)@), *final(n)),
            final(self).active_note_id == old(self).active_note_id,
    {
        proof {
            lemma_active_index(self@);
        }
        let i = self.active_index();
        &mut self.notes[i]
    }

    /// Stamp the active note as updated now; `false`, and no change, when the
    /// clock cannot be read.
    pub fn touch_updated(&mut self) -> (ok: bool)
        requires
            old(self)@.notes.len() > 0,
        ensures
            !ok ==> final(self)@ == old(self)@,
            ok ==> ({
                let k = active_index_of(old(self)@);
                let before = old(self)@.notes[k];
                let after = final(self)@.notes[k];
                &&& is_clock_stamp(after.meta.updated_at)
                &&& after == (NoteRecordView {
                    meta: NoteMetaView { updated_at: after.meta.updated_at, ..before.meta },
                    ..before
                })
                &&& final(self)@ == (NotebookView {
                    notes: old(self)@.notes.update(k, after),
                    ..old(self)@
                })
            }),
    {
        let stamp = match now_iso() {
            Some(s) => s,
            None => return false,
        };
        let ghost stamp_view = stamp@;
        proof {
            lemma_active_index(self@);
        }
        self.set_updated_at(stamp);
        proof {
            let k = active_index_of(old(self)@);
            assert(self@.notes[k].meta.updated_at == stamp_view);
        }
        true
    }

    /// Set the active note's update time stamp to `stamp`; nothing else changes.
    pub fn set_updated_at(&mut self, stamp: String)
        requires
            old(self)@.notes.len() > 0,
        ensures
            ({
                let k = active_index_of(old(self)@);
                let before = old(self)@.notes[k];
                final(self)@ == (NotebookView {
                    notes: old(self)@.notes.update(
                        k,
                        NoteRecordView {
                            meta: NoteMetaView { updated_at: stamp@, ..before.meta },
                            ..before
                        },
                    ),
                    ..old(self)@
                })
            }),
    {
        let ghost stamp_view = stamp@;
        let note = self.active_note_mut();
        note.meta.updated_at = stamp;
        proof {
            let k = active_index_of(old(self)@);
            assert(self@.notes[k].meta.updated_at == stamp_view);
            assert(self@.notes =~= old(self)@.notes.update(k, self@.notes[k]));
        }
    }

    /// Bring a notebook read from an older layout up to date: a notebook
    /// without notes gets the single legacy note (with a fresh id when it has
    /// none), which becomes active; then the active id is made to name a note.
    /// Reports `false`, and changes nothing, when a fresh id is needed and
    /// none can be made.
    pub fn migrate(&mut self, legacy_note: &NoteMeta, legacy_text: &String) -> (ok: bool)
        ensures
            old(self)@.notes.len() > 0 || legacy_note@.id.len() > 0 ==> ok,
            !ok ==> final(self)@ == old(self)@,
            ok ==> migrate_outcome(old(self)@, legacy_note@, legacy_text@, final(self)@),
    {
        if self.notes.len() == 0 {
            let mut meta = legacy_note.copy();
            if meta.id.as_str().is_empty() {
                meta = match NoteMeta::try_default() {
                    Some(m) => m,
                    None => return false,
                };
            }
            self.add_note(NoteRecord { meta, text: legacy_text.clone() });
            proof {
                assert(self@.notes =~= seq![self@.notes[0]]);
                assert(has_note_with_id(self@.notes, self@.active_note_id)) by {
                    assert(self@.notes[0].meta.id == self@.active_note_id);
                }
            }
        }
        self.ensure_active()
    }

    /// What a list shows of each note, in order.
    pub fn summaries(&self) -> (s: Vec<NoteSummary>)
        ensures
            s@.len() == self@.notes.len(),
            forall|i: int| 0 <= i < s@.len() ==> (#[trigger] s@[i])@ == summary_of(self@.notes[i]),
    {
        let mut out: Vec<NoteSummary> = Vec::new();
        let mut i: usize = 0;
        while i < self.notes.len()
            invariant
                i <= self.notes.len(),
                out@.len() == i,
                forall|j: int| 0 <= j < i ==> (#[trigger] out@[j])@ == summary_of(self@.notes[j]),
            decreases self.notes.len() - i,
        {
            out.push(self.notes[i].summary());
            i = i + 1;
        }
        out
    }
}

/// The notes part of the persisted state: the layout version, the notebook,
/// and the single-note fields of older layouts.
pub struct StoredNotes {
    pub version: u32,
    pub notebook: Notebook,
    /// Text of the single note of older layouts.
    pub legacy_text: String,
    /// Metadata of the single note of older layouts.
    pub legacy_note: NoteMeta,
}

impl StoredNotes {
    /// Bring the stored notes up to the current layout: the notebook is
    /// migrated (see `Notebook::migrate`), the version becomes
    /// `STATE_VERSION` and the legacy text is cleared. Reports `false`, and
    /// changes nothing, when a fresh id is needed and none can be made.
    pub fn migrate(&mut self) -> (ok: bool)
        ensures
            old(self).notebook@.notes.len() > 0 || old(self).legacy_note@.id.len() > 0 ==> ok,
            ok ==> {
                &&& migrate_outcome(
                    old(self).notebook@,
                    old(self).legacy_note@,
                    old(self).legacy_text@,
                    final(self).notebook@,
                )
                &&& final(self).version == STATE_VERSION
                &&& final(self).legacy_text@ == Seq::<char>::empty()
                &&& final(self).legacy_note@ == old(self).legacy_note@
            },
            !ok ==> {
                &&& final(self).version == old(self).version
                &&& final(self).notebook@ == old(self).notebook@
                &&& final(self).legacy_text@ == old(self).legacy_text@
                &&& final(self).legacy_note@ == old(self).legacy_note@
            },
    {
        if !self.notebook.migrate(&self.legacy_note, &self.legacy_text) {
            return false;
        }
        self.version = STATE_VERSION;
        self.legacy_text = String::new();
        true
    }
}

} // verus!
