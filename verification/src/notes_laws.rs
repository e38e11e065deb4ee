//! Properties of the notebook and of note labels.
use vstd::prelude::*;
use crate::notes::{
    active_index_of, ensure_active_outcome, has_note_with_id, is_first_with_id, is_fresh_note,
    lemma_active_index, note_label, NotebookView, LABEL_PREVIEW_CHARS,
};
use crate::text::trim;

verus! {

/// After `ensure_active` the notebook has notes and the active id names one of them.
pub proof fn lemma_ensure_active_names_a_note(o: NotebookView, n: NotebookView)
    requires
        ensure_active_outcome(o, n),
    ensures
        n.notes.len() > 0,
        has_note_with_id(n.notes, n.active_note_id),
        is_first_with_id(n.notes, n.active_note_id, active_index_of(n)),
{
    if o.notes.len() == 0 {
        assert(n.notes[0].meta.id == n.active_note_id);
    } else if !has_note_with_id(o.notes, o.active_note_id) {
        assert(n.notes[0].meta.id == n.active_note_id);
    }
    lemma_active_index(n);
}

/// `ensure_active` is idempotent: a second call changes nothing.
pub proof fn lemma_ensure_active_idempotent(o: NotebookView, n: NotebookView, n2: NotebookView)
    requires
        ensure_active_outcome(o, n),
        ensure_active_outcome(n, n2),
    ensures
        n2 == n,
{
    lemma_ensure_active_names_a_note(o, n);
}

/// Switching to an id that some note has makes the first such note active.
pub proof fn lemma_switch_selects_first(o: NotebookView, id: Seq<char>)
    requires
        has_note_with_id(o.notes, id),
    ensures
        is_first_with_id(o.notes, id, active_index_of(NotebookView { active_note_id: id, ..o })),
{
    lemma_active_index(NotebookView { active_note_id: id, ..o });
}

/// A created note is the active note, unless an older note already had its id.
pub proof fn lemma_created_note_is_active(o: NotebookView, n: NotebookView)
    requires
        n.notes.len() == o.notes.len() + 1,
        n.notes.drop_last() == o.notes,
        n.active_note_id == n.notes.last().meta.id,
        !has_note_with_id(o.notes, n.active_note_id),
    ensures
        active_index_of(n) == n.notes.len() - 1,
{
    let last = n.notes.len() - 1;
    assert forall|j: int| 0 <= j < last implies (#[trigger] n.notes[j]).meta.id != n.active_note_id by {
        assert(n.notes[j] == o.notes[j]);
    }
    assert(is_first_with_id(n.notes, n.active_note_id, last));
    lemma_active_index(n);
    crate::notes::lemma_first_with_id_unique(n.notes, n.active_note_id, last, active_index_of(n));
}

/// A fresh note is labelled "Untitled note".
pub proof fn lemma_fresh_note_label(n: crate::notes::NoteRecordView)
    requires
        is_fresh_note(n),
    ensures
        note_label(n.meta.title, n.text) == "Untitled note"@,
{
    assert(crate::text::collapse_white_space(n.text) == Seq::<char>::empty());
}

/// A label is never empty, and a label taken from the text has at most
/// `LABEL_PREVIEW_CHARS` characters and an ellipsis.
pub proof fn lemma_label_shape(title: Option<Seq<char>>, text: Seq<char>)
    ensures
        note_label(title, text).len() > 0,
        !(title is Some && trim(title->0).len() > 0) ==> note_label(title, text).len()
            <= LABEL_PREVIEW_CHARS + 1,
{
    reveal_strlit("Untitled note");
}

/// A title that is not blank is the label, trimmed, whatever its length and
/// whatever the text.
pub proof fn lemma_label_prefers_title(title: Seq<char>, text: Seq<char>)
    requires
        trim(title).len() > 0,
    ensures
        note_label(Some(title), text) == trim(title),
{
}

/// Without a title that is not blank, the label depends on the text alone:
/// an absent title and a blank one give the same label.
pub proof fn lemma_blank_title_ignored(title: Seq<char>, text: Seq<char>)
    requires
        trim(title).len() == 0,
    ensures
        note_label(Some(title), text) == note_label(None, text),
{
}

/// Without a title that is not blank, the label is the text with white space
/// collapsed, cut after its first `LABEL_PREVIEW_CHARS` characters, with an
/// ellipsis added exactly when something was cut; a blank text is
/// "Untitled note".
pub proof fn lemma_label_previews_text(text: Seq<char>)
    ensures
        ({
            let p = crate::text::collapse_white_space(text);
            let l = note_label(None, text);
            &&& p.len() == 0 ==> l == "Untitled note"@
            &&& 0 < p.len() <= LABEL_PREVIEW_CHARS ==> l == p
            &&& p.len() > LABEL_PREVIEW_CHARS ==> {
                &&& l.len() == LABEL_PREVIEW_CHARS + 1
                &&& l.take(LABEL_PREVIEW_CHARS as int) == p.take(LABEL_PREVIEW_CHARS as int)
                &&& l.last() == '\u{2026}'
            }
        }),
{
    let p = crate::text::collapse_white_space(text);
    if p.len() > LABEL_PREVIEW_CHARS {
        let l = note_label(None, text);
        assert(l.take(LABEL_PREVIEW_CHARS as int) =~= p.take(LABEL_PREVIEW_CHARS as int));
    }
}

} // verus!
