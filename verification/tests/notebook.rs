use shy_notes::notes::{
    default_background, new_note_id, now_iso, stamp_of_seconds, NoteMeta, NoteRecord, Notebook,
    StoredNotes, DEFAULT_FONT_SIZE_BITS, STATE_VERSION,
};
use shy_notes::permissions::{
    exe_display_text, is_accessibility_trusted, open_accessibility_settings,
};

fn note(id: &str, title: Option<&str>, text: &str) -> NoteRecord {
    NoteRecord {
        meta: NoteMeta {
            id: id.to_string(),
            title: title.map(|t| t.to_string()),
            created_at: "2024-01-01T00:00:00Z".to_string(),
            updated_at: "2024-01-01T00:00:00Z".to_string(),
            background: "#fff".to_string(),
            foreground: String::new(),
            font_size_bits: DEFAULT_FONT_SIZE_BITS,
        },
        text: text.to_string(),
    }
}

fn is_uuid_v4(s: &str) -> bool {
    let b = s.as_bytes();
    b.len() == 36
        && b.iter().enumerate().all(|(i, c)| match i {
            8 | 13 | 18 | 23 => *c == b'-',
            _ => c.is_ascii_digit() || (b'a'..=b'f').contains(c),
        })
        && b[14] == b'4'
        && matches!(b[19], b'8' | b'9' | b'a' | b'b')
}

fn is_timestamp(s: &str) -> bool {
    let b = s.as_bytes();
    b.len() == 20
        && b.iter().enumerate().all(|(i, c)| match i {
            4 | 7 => *c == b'-',
            10 => *c == b'T',
            13 | 16 => *c == b':',
            19 => *c == b'Z',
            _ => c.is_ascii_digit(),
        })
}

#[test]
fn fresh_metadata_from_id_and_stamp() {
    let m = NoteMeta::fresh("n1".to_string(), "2024-05-06T07:08:09Z".to_string());
    assert_eq!(m.id, "n1");
    assert_eq!(m.title, None);
    assert_eq!(m.created_at, "2024-05-06T07:08:09Z");
    assert_eq!(m.updated_at, "2024-05-06T07:08:09Z");
    assert_eq!(m.background, "");
    assert_eq!(m.foreground, "");
    assert_eq!(m.font_size_bits, DEFAULT_FONT_SIZE_BITS);
}

#[test]
fn ids_and_stamps_from_the_system() {
    let a = new_note_id().unwrap();
    let b = new_note_id().unwrap();
    assert!(is_uuid_v4(&a) && is_uuid_v4(&b));
    assert_ne!(a, b);
    let stamp = now_iso().unwrap();
    assert!(is_timestamp(&stamp), "{stamp}");
    assert!(stamp.as_str() > "2020-01-01T00:00:00Z");
}

#[test]
fn fresh_metadata_shape() {
    let m = NoteMeta::try_default().unwrap();
    assert!(is_uuid_v4(&m.id), "{}", m.id);
    assert_eq!(m.title, None);
    assert_eq!(m.created_at, m.updated_at);
    assert!(is_timestamp(&m.created_at), "{}", m.created_at);
    assert_eq!(m.background, "");
    assert_eq!(m.foreground, "");
    assert_eq!(f64::from_bits(m.font_size_bits), 15.0);
    assert_eq!(default_background(), "");
    assert_ne!(NoteMeta::try_default().unwrap().id, m.id);
    assert_eq!(STATE_VERSION, 3);
}

#[test]
fn label_prefers_trimmed_title() {
    assert_eq!(note("a", Some("  Groceries \t"), "milk").label(), "Groceries");
    assert_eq!(note("a", Some(" \u{a0}\u{3000} "), "milk eggs").label(), "milk eggs");
}

#[test]
fn label_collapses_white_space_of_text() {
    assert_eq!(note("a", None, "  hello \n\n  world\tfoo  ").label(), "hello world foo");
    assert_eq!(note("a", None, " \n\t ").label(), "Untitled note");
    assert_eq!(note("a", None, "").label(), "Untitled note");
}

#[test]
fn label_truncates_long_text_with_ellipsis() {
    let exact = "abcdefghijklmnopqrstuvwxyz12";
    assert_eq!(note("a", None, exact).label(), exact);
    let long = format!("{exact}3 more words");
    assert_eq!(note("a", None, &long).label(), format!("{exact}\u{2026}"));
    let wide = "é".repeat(30);
    assert_eq!(note("a", None, &wide).label().chars().count(), 29);
}

#[test]
fn new_notebook_has_one_active_note() {
    let nb = Notebook::new().unwrap();
    assert_eq!(nb.notes.len(), 1);
    assert_eq!(nb.active_note_id, nb.notes[0].meta.id);
    assert_eq!(nb.active_note().text, "");
    assert_eq!(nb.active_note().label(), "Untitled note");
}

#[test]
fn ensure_active_repairs_the_active_id() {
    let mut empty = Notebook { notes: Vec::new(), active_note_id: "gone".to_string() };
    assert!(empty.ensure_active());
    assert_eq!(empty.notes.len(), 1);
    assert_eq!(empty.active_note_id, empty.notes[0].meta.id);

    let mut nb = Notebook {
        notes: vec![note("a", None, "x"), note("b", None, "y")],
        active_note_id: "zzz".to_string(),
    };
    assert_eq!(nb.active_index(), 0);
    assert!(nb.ensure_active());
    assert_eq!(nb.active_note_id, "a");
    assert!(nb.ensure_active());
    assert_eq!(nb.active_note_id, "a");
    assert_eq!(nb.notes.len(), 2);
    nb.active_note_id = "b".to_string();
    assert!(nb.ensure_active());
    assert_eq!(nb.active_note_id, "b");
    assert_eq!(nb.active_index(), 1);
}

#[test]
fn switch_note_only_to_known_ids() {
    let mut nb = Notebook {
        notes: vec![note("a", None, "x"), note("b", None, "y"), note("b", None, "z")],
        active_note_id: "a".to_string(),
    };
    assert!(nb.switch_note("b"));
    assert_eq!(nb.active_index(), 1);
    assert_eq!(nb.active_note().text, "y");
    assert!(!nb.switch_note("c"));
    assert_eq!(nb.active_note_id, "b");
}

#[test]
fn create_note_appends_and_activates() {
    let mut nb = Notebook { notes: vec![note("a", None, "x")], active_note_id: "a".to_string() };
    let id = nb.create_note().unwrap().meta.id.clone();
    assert_eq!(nb.notes.len(), 2);
    assert_eq!(nb.notes[1].meta.id, id);
    assert_eq!(nb.active_note_id, id);
    assert_eq!(nb.active_index(), 1);
    assert!(is_uuid_v4(&id));
}

#[test]
fn summaries_follow_notes() {
    let nb = Notebook {
        notes: vec![note("a", Some("T"), "x"), note("b", None, "y  z")],
        active_note_id: "a".to_string(),
    };
    let s = nb.summaries();
    assert_eq!(s.len(), 2);
    assert_eq!((s[0].id.as_str(), s[0].label.as_str()), ("a", "T"));
    assert_eq!((s[1].id.as_str(), s[1].label.as_str()), ("b", "y z"));
    assert_eq!(s[1].background, "#fff");
    assert_eq!(s[1].foreground, "");
}

#[test]
fn touch_updated_stamps_only_the_active_note() {
    let mut nb = Notebook {
        notes: vec![note("a", None, "x"), note("b", None, "y")],
        active_note_id: "b".to_string(),
    };
    assert!(nb.touch_updated());
    assert_eq!(nb.notes[0].meta.updated_at, "2024-01-01T00:00:00Z");
    assert!(is_timestamp(&nb.notes[1].meta.updated_at));
    assert_eq!(nb.notes[1].meta.created_at, "2024-01-01T00:00:00Z");
    nb.active_note_mut().text.push_str("!");
    assert_eq!(nb.notes[1].text, "y!");
}

#[test]
fn migrate_turns_legacy_note_into_the_only_note() {
    let legacy = note("old", Some("Legacy"), "").meta;
    let mut nb = Notebook { notes: Vec::new(), active_note_id: String::new() };
    assert!(nb.migrate(&legacy, &"legacy text".to_string()));
    assert_eq!(nb.notes.len(), 1);
    assert_eq!(nb.notes[0].meta.id, "old");
    assert_eq!(nb.notes[0].text, "legacy text");
    assert_eq!(nb.active_note_id, "old");

    let mut anonymous = Notebook { notes: Vec::new(), active_note_id: String::new() };
    let nameless = note("", None, "").meta;
    assert!(anonymous.migrate(&nameless, &String::new()));
    assert!(is_uuid_v4(&anonymous.notes[0].meta.id));
    assert_eq!(anonymous.active_note_id, anonymous.notes[0].meta.id);

    let mut current = Notebook { notes: vec![note("a", None, "x")], active_note_id: "q".to_string() };
    assert!(current.migrate(&legacy, &"ignored".to_string()));
    assert_eq!(current.notes.len(), 1);
    assert_eq!(current.active_note_id, "a");
}

#[test]
fn permissions_are_granted_without_accessibility() {
    assert!(is_accessibility_trusted(false));
    assert!(is_accessibility_trusted(true));
    open_accessibility_settings();
}

#[test]
fn one_step_note_operations() {
    let n = NoteRecord::from_meta(note("m", Some("T"), "ignored").meta);
    assert_eq!(n.meta.id, "m");
    assert_eq!(n.text, "");

    let nb = Notebook::with_note(note("solo", None, "x"));
    assert_eq!(nb.notes.len(), 1);
    assert_eq!(nb.active_note_id, "solo");

    let mut nb = Notebook { notes: vec![note("a", None, "x")], active_note_id: "a".to_string() };
    assert_eq!(nb.add_note(note("b", None, "y")).text, "y");
    assert_eq!(nb.notes.len(), 2);
    assert_eq!(nb.active_note_id, "b");
    // A repeated id keeps the older note active.
    assert_eq!(nb.add_note(note("a", None, "z")).text, "x");
    assert_eq!(nb.notes.len(), 3);

    nb.set_updated_at("2030-01-02T03:04:05Z".to_string());
    assert_eq!(nb.notes[0].meta.updated_at, "2030-01-02T03:04:05Z");
    assert_eq!(nb.notes[1].meta.updated_at, "2024-01-01T00:00:00Z");
    assert_eq!(nb.notes[2].meta.updated_at, "2024-01-01T00:00:00Z");
}

#[test]
fn stamps_of_seconds() {
    assert_eq!(stamp_of_seconds(0).as_deref(), Some("1970-01-01T00:00:00Z"));
    assert_eq!(stamp_of_seconds(1_700_000_000).as_deref(), Some("2023-11-14T22:13:20Z"));
    assert_eq!(stamp_of_seconds(253_402_300_799).as_deref(), Some("9999-12-31T23:59:59Z"));
    assert_eq!(stamp_of_seconds(u64::MAX), None);
}

#[test]
fn stored_notes_migrate_to_current_layout() {
    let mut stored = StoredNotes {
        version: 1,
        notebook: Notebook { notes: Vec::new(), active_note_id: String::new() },
        legacy_text: "old words".to_string(),
        legacy_note: note("legacy", None, "").meta,
    };
    assert!(stored.migrate());
    assert_eq!(stored.version, STATE_VERSION);
    assert_eq!(stored.legacy_text, "");
    assert_eq!(stored.notebook.notes.len(), 1);
    assert_eq!(stored.notebook.notes[0].text, "old words");
    assert_eq!(stored.notebook.active_note_id, "legacy");
}

#[test]
fn executable_text_falls_back_to_unknown() {
    assert_eq!(exe_display_text(None), "(unknown)");
    assert_eq!(exe_display_text(Some("/usr/bin/shy".to_string())), "/usr/bin/shy");
}
