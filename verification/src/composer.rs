//! The journal composer's decisions: when a keystroke arms an autosave,
//! which server write a save makes (a new draft row or the autosaved one),
//! the "Auto-saved" indicator, and what publishing, saving a draft and
//! cancelling leave behind. The timers and requests themselves run around
//! it.

use vstd::prelude::*;
use crate::journal::JournalStatus;
use crate::num::{nat_digits, push_u64};
use crate::text::{push_str, string_of, to_chars, trim, trimmed};

verus! {

/// Milliseconds of quiet typing before an autosave fires.
pub const AUTOSAVE_DEBOUNCE_MS: u32 = 2_000;

/// Milliseconds between ticks of the "Auto-saved Ns ago" indicator.
pub const AUTOSAVE_TICK_MS: u32 = 5_000;

/// Seconds one tick of the indicator adds.
pub const AUTOSAVE_TICK_SECS: u64 = 5;

/// The server write a save makes.
#[derive(Clone, Debug)]
pub enum JournalWrite {
    /// A new entry row for the book.
    Create { book_uuid: String, body_md: String, progress: Option<u8>, status: JournalStatus },
    /// The draft row this composer already rides; `status` is `None` for an
    /// autosave, which leaves the row a draft.
    Update { id: i64, body_md: String, progress: Option<u8>, status: Option<JournalStatus> },
}

/// The composer: collapsed prompt or open editor, with its draft.
#[derive(Clone, Debug)]
pub struct ComposerState {
    pub open: bool,
    pub body: String,
    pub track_progress: bool,
    pub progress: i64,
    pub saving: bool,
    pub error: Option<String>,
    pub show_preview: bool,
    /// The server-side draft row, once the first save created it.
    pub draft_id: Option<i64>,
    /// A debounced autosave is armed.
    pub autosave_pending: bool,
    /// Seconds since the last autosave landed.
    pub autosaved_secs: Option<u64>,
    /// The indicator's ticker runs.
    pub ticking: bool,
}

/// What `reset_and_close` leaves: the collapsed prompt with no draft.
pub open spec fn is_closed_fresh(s: ComposerState) -> bool {
    &&& !s.open
    &&& s.body@.len() == 0
    &&& !s.track_progress
    &&& s.error is None
    &&& !s.show_preview
    &&& s.draft_id is None
    &&& !s.autosave_pending
    &&& s.autosaved_secs is None
    &&& !s.ticking
}

/// The progress a save carries: the slider's value, when tracking is on.
pub open spec fn payload_of(track: bool, progress: i64) -> Option<u8> {
    if track {
        Some(progress as u8)
    } else {
        None
    }
}

/// The write a save of `s` makes with `status` (`None` for an autosave,
/// which creates a draft).
pub open spec fn write_for(s: ComposerState, book_uuid: Seq<char>, status: Option<JournalStatus>, w: JournalWrite) -> bool {
    match s.draft_id {
        Some(id) => w matches JournalWrite::Update { id: wid, body_md, progress, status: ws }
            && wid == id && body_md@ == s.body@ && progress == payload_of(s.track_progress, s.progress)
            && ws == status,
        None => w matches JournalWrite::Create { book_uuid: u, body_md, progress, status: ws }
            && u@ == book_uuid && body_md@ == s.body@ && progress == payload_of(
            s.track_progress,
            s.progress,
        ) && ws == match status {
            Some(st) => st,
            None => JournalStatus::Draft,
        },
    }
}

/// The indicator's text.
pub open spec fn autosaved_text(secs: Option<u64>) -> Option<Seq<char>> {
    match secs {
        None => None,
        Some(0) => Some("Auto-saved just now"@),
        Some(n) => Some("Auto-saved "@ + nat_digits(n as nat) + "s ago"@),
    }
}

impl ComposerState {
    /// The collapsed prompt, the progress slider at its midpoint.
    pub fn new() -> (s: Self)
        ensures
            is_closed_fresh(s),
            s.progress == 50,
            !s.saving,
    {
        ComposerState {
            open: false,
            body: String::new(),
            track_progress: false,
            progress: 50,
            saving: false,
            error: None,
            show_preview: false,
            draft_id: None,
            autosave_pending: false,
            autosaved_secs: None,
            ticking: false,
        }
    }

    /// The prompt was clicked.
    pub fn open_composer(&mut self)
        ensures
            *final(self) == (ComposerState { open: true, ..*old(self) }),
    {
        self.open = true;
    }

    /// The progress the next save carries.
    pub fn progress_payload(&self) -> (p: Option<u8>)
        ensures
            p == payload_of(self.track_progress, self.progress),
    {
        if self.track_progress {
            Some(self.progress as u8)
        } else {
            None
        }
    }

    /// The body was edited. While the editor is open, idle and non-blank,
    /// this (re)arms the debounced autosave and says so; otherwise nothing
    /// is armed and any armed autosave stays as it was.
    pub fn on_body_input(&mut self, body: String) -> (arm: bool)
        ensures
            arm == (old(self).open && !old(self).saving && trim(body@).len() > 0),
            *final(self) == (ComposerState {
                body,
                autosave_pending: arm || old(self).autosave_pending,
                ..*old(self)
            }),
    {
        let v = to_chars(body.as_str());
        let t = trimmed(&v);
        let arm = self.open && !self.saving && t.len() > 0;
        self.body = body;
        if arm {
            self.autosave_pending = true;
        }
        arm
    }

    /// The write an autosave makes: the draft row it rides, or a new draft.
    pub fn autosave_write(&self, book_uuid: &str) -> (w: JournalWrite)
        ensures
            write_for(*self, book_uuid@, None, w),
    {
        match self.draft_id {
            Some(id) => JournalWrite::Update {
                id,
                body_md: self.body.clone(),
                progress: self.progress_payload(),
                status: None,
            },
            None => JournalWrite::Create {
                book_uuid: string_of(book_uuid),
                body_md: self.body.clone(),
                progress: self.progress_payload(),
                status: JournalStatus::Draft,
            },
        }
    }

    /// An autosave landed as row `id`: the composer rides that row from
    /// now on and the indicator restarts; says whether its ticker must be
    /// started (it is started once).
    pub fn on_autosaved(&mut self, id: i64) -> (start_ticker: bool)
        ensures
            start_ticker == !old(self).ticking,
            *final(self) == (ComposerState {
                draft_id: Some(id),
                autosaved_secs: Some(0),
                autosave_pending: false,
                ticking: true,
                ..*old(self)
            }),
    {
        self.draft_id = Some(id);
        self.autosaved_secs = Some(0);
        self.autosave_pending = false;
        let start = !self.ticking;
        self.ticking = true;
        start
    }

    /// One tick of the indicator.
    pub fn tick(&mut self)
        requires
            old(self).autosaved_secs matches Some(s) ==> s + AUTOSAVE_TICK_SECS <= u64::MAX,
        ensures
            *final(self) == (ComposerState {
                autosaved_secs: match old(self).autosaved_secs {
                    Some(s) => Some((s + AUTOSAVE_TICK_SECS) as u64),
                    None => None,
                },
                ..*old(self)
            }),
    {
        if let Some(s) = self.autosaved_secs {
            self.autosaved_secs = Some(s + AUTOSAVE_TICK_SECS);
        }
    }

    /// "Auto-saved just now" / "Auto-saved Ns ago", once an autosave landed.
    pub fn autosaved_label(&self) -> (out: Option<String>)
        ensures
            match out {
                Some(o) => autosaved_text(self.autosaved_secs) == Some(o@),
                None => autosaved_text(self.autosaved_secs) is None,
            },
    {
        match self.autosaved_secs {
            None => None,
            Some(0) => Some(string_of("Auto-saved just now")),
            Some(n) => {
                let mut out = string_of("Auto-saved ");
                push_u64(&mut out, n);
                push_str(&mut out, "s ago");
                Some(out)
            },
        }
    }

    /// Whether Save draft and Publish are enabled.
    pub fn can_save(&self) -> (r: bool)
        ensures
            r == (!self.saving && trim(self.body@).len() > 0),
    {
        let v = to_chars(self.body.as_str());
        let t = trimmed(&v);
        !self.saving && t.len() > 0
    }

    /// Save draft or Publish was pressed: any armed autosave is dropped
    /// (the first result says whether one was), the save starts, and the
    /// second result is the write to make.
    pub fn begin_save(&mut self, book_uuid: &str, status: JournalStatus) -> (r: (bool, JournalWrite))
        ensures
            r.0 == old(self).autosave_pending,
            write_for(*old(self), book_uuid@, Some(status), r.1),
            *final(self) == (ComposerState {
                saving: true,
                error: None,
                autosave_pending: false,
                ..*old(self)
            }),
    {
        let cancel = self.autosave_pending;
        let write = match self.draft_id {
            Some(id) => JournalWrite::Update {
                id,
                body_md: self.body.clone(),
                progress: self.progress_payload(),
                status: Some(status),
            },
            None => JournalWrite::Create {
                book_uuid: string_of(book_uuid),
                body_md: self.body.clone(),
                progress: self.progress_payload(),
                status,
            },
        };
        self.autosave_pending = false;
        self.saving = true;
        self.error = None;
        (cancel, write)
    }

    /// Back to the collapsed prompt with no draft; says which of the
    /// autosave and the ticker were running and must be cancelled.
    pub fn reset_and_close(&mut self) -> (cancel: (bool, bool))
        ensures
            cancel == (old(self).autosave_pending, old(self).ticking),
            is_closed_fresh(*final(self)),
            final(self).progress == old(self).progress,
            final(self).saving == old(self).saving,
    {
        let cancel = (self.autosave_pending, self.ticking);
        self.autosave_pending = false;
        self.ticking = false;
        self.draft_id = None;
        self.autosaved_secs = None;
        self.body = String::new();
        self.show_preview = false;
        self.track_progress = false;
        self.error = None;
        self.open = false;
        cancel
    }

    /// The save came back. Success closes the composer and asks the list to
    /// reload (the result); a failure keeps the editor open with the error.
    pub fn finish_save(&mut self, result: Result<(), String>) -> (reload: bool)
        ensures
            !final(self).saving,
            match result {
                Ok(()) => reload && is_closed_fresh(*final(self)),
                Err(e) => !reload && *final(self) == (ComposerState {
                    saving: false,
                    error: Some(e),
                    ..*old(self)
                }),
            },
    {
        let reload = match result {
            Ok(()) => {
                self.reset_and_close();
                true
            },
            Err(e) => {
                self.error = Some(e);
                false
            },
        };
        self.saving = false;
        reload
    }

    /// Cancel was pressed: any armed autosave is dropped, and the result is
    /// the autosaved draft row to discard before closing.
    pub fn begin_cancel(&mut self) -> (discard: Option<i64>)
        ensures
            discard == old(self).draft_id,
            *final(self) == (ComposerState {
                saving: true,
                autosave_pending: false,
                ..*old(self)
            }),
    {
        self.autosave_pending = false;
        self.saving = true;
        self.draft_id
    }

    /// The discard is done (whatever it answered): the composer closes.
    pub fn finish_cancel(&mut self)
        ensures
            !final(self).saving,
            is_closed_fresh(*final(self)),
    {
        self.saving = false;
        self.reset_and_close();
    }
}

// ── One entry's card ──────────────────────────────────────────────

/// The inline editing of one journal entry card.
#[derive(Clone, Debug)]
pub struct EntryCardState {
    pub editing: bool,
    pub edit_body: String,
    pub saving: bool,
    pub error: Option<String>,
    /// "Show more" was pressed on a long entry.
    pub expanded: bool,
}

/// Whether the viewer wrote the entry.
pub fn is_owner(viewer_id: Option<i64>, author_id: i64) -> (b: bool)
    ensures
        b == (viewer_id == Some(author_id)),
{
    match viewer_id {
        Some(id) => id == author_id,
        None => false,
    }
}

/// The entry body's classes: clamped while a long entry is folded.
pub fn entry_body_class(can_expand: bool, expanded: bool) -> (out: &'static str)
    ensures
        out@ == if can_expand && !expanded {
            "bd-journal-entry-body bd-journal-entry-body-collapsed"@
        } else {
            "bd-journal-entry-body"@
        },
{
    if can_expand && !expanded {
        "bd-journal-entry-body bd-journal-entry-body-collapsed"
    } else {
        "bd-journal-entry-body"
    }
}

impl EntryCardState {
    /// A card showing `body`, folded, not editing.
    pub fn new(body: String) -> (s: Self)
        ensures
            !s.editing && s.edit_body == body && !s.saving && s.error is None && !s.expanded,
    {
        EntryCardState { editing: false, edit_body: body, saving: false, error: None, expanded: false }
    }

    /// "Show more" was pressed.
    pub fn expand(&mut self)
        ensures
            *final(self) == (EntryCardState { expanded: true, ..*old(self) }),
    {
        self.expanded = true;
    }

    /// Edit was pressed: the form opens on the entry's saved text.
    pub fn begin_edit(&mut self, body: String)
        ensures
            *final(self) == (EntryCardState {
                editing: true,
                edit_body: body,
                error: None,
                ..*old(self)
            }),
    {
        self.edit_body = body;
        self.error = None;
        self.editing = true;
    }

    /// The form's text was edited.
    pub fn on_edit_input(&mut self, body: String)
        ensures
            *final(self) == (EntryCardState { edit_body: body, ..*old(self) }),
    {
        self.edit_body = body;
    }

    /// Cancel closes the form.
    pub fn cancel_edit(&mut self)
        ensures
            *final(self) == (EntryCardState { editing: false, ..*old(self) }),
    {
        self.editing = false;
    }

    /// Whether the form's Save is enabled.
    pub fn can_save(&self) -> (b: bool)
        ensures
            b == (!self.saving && trim(self.edit_body@).len() > 0),
    {
        let v = to_chars(self.edit_body.as_str());
        let t = trimmed(&v);
        !self.saving && t.len() > 0
    }

    /// Save was pressed on entry `id`: the write keeps the entry's progress
    /// and never changes whether it is a draft.
    pub fn begin_save(&mut self, id: i64, progress: Option<u8>) -> (w: JournalWrite)
        ensures
            w matches JournalWrite::Update { id: wid, body_md, progress: wp, status }
                && wid == id && body_md@ == old(self).edit_body@ && wp == progress && status is None,
            *final(self) == (EntryCardState { saving: true, error: None, ..*old(self) }),
    {
        self.saving = true;
        self.error = None;
        JournalWrite::Update { id, body_md: self.edit_body.clone(), progress, status: None }
    }

    /// Publish was pressed on the owner's draft `id` (with its saved text).
    pub fn begin_publish(&mut self, id: i64, body: String, progress: Option<u8>) -> (w: JournalWrite)
        ensures
            w matches JournalWrite::Update { id: wid, body_md, progress: wp, status }
                && wid == id && body_md == body && wp == progress && status == Some(
                JournalStatus::Published,
            ),
            *final(self) == (EntryCardState { saving: true, error: None, ..*old(self) }),
    {
        self.saving = true;
        self.error = None;
        JournalWrite::Update { id, body_md: body, progress, status: Some(JournalStatus::Published) }
    }

    /// Delete was pressed.
    pub fn begin_delete(&mut self)
        ensures
            *final(self) == (EntryCardState { saving: true, error: None, ..*old(self) }),
    {
        self.saving = true;
        self.error = None;
    }

    /// A save, publish or delete came back: success closes the form and
    /// asks the list to reload (the result); a failure shows the error.
    pub fn finish(&mut self, result: Result<(), String>) -> (reload: bool)
        ensures
            !final(self).saving,
            match result {
                Ok(()) => reload && !final(self).editing && final(self).error == old(self).error,
                Err(e) => !reload && final(self).editing == old(self).editing && final(self).error
                    == Some(e),
            },
            final(self).edit_body == old(self).edit_body,
            final(self).expanded == old(self).expanded,
    {
        let reload = match result {
            Ok(()) => {
                self.editing = false;
                true
            },
            Err(e) => {
                self.error = Some(e);
                false
            },
        };
        self.saving = false;
        reload
    }
}

} // verus!
