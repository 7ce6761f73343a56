//! The "Sessions" card: the reader's own signed-in sessions, one Revoke at
//! a time (never on the session viewing the page), and the list's markup.

use vstd::prelude::*;
use crate::dates::{fmt_iso_date, iso_date};
use crate::markup::{escaped, push_escaped};
use crate::num::{int_digits, push_i64};
use crate::profile::{credential_status_message, status_markup};
use crate::text::{push_str, string_of};

verus! {

/// One live session of the reader.
#[derive(Clone, Debug)]
pub struct SessionView {
    pub id: i64,
    /// What signed in ("web", "ios", ...).
    pub kind: String,
    /// The session authenticating this page.
    pub is_current: bool,
    pub last_used_at: i64,
}

/// The card between renders.
#[derive(Clone, Debug)]
pub struct SessionsState {
    pub sessions: Vec<SessionView>,
    pub msg: Option<String>,
    pub msg_is_error: bool,
    /// The session a revoke is on its way for.
    pub busy_id: Option<i64>,
}

impl SessionsState {
    /// Before the list arrives.
    pub fn new() -> (s: Self)
        ensures
            s.sessions@.len() == 0,
            s.msg is None,
            !s.msg_is_error,
            s.busy_id is None,
    {
        SessionsState { sessions: Vec::new(), msg: None, msg_is_error: false, busy_id: None }
    }

    /// The list (re)loaded: shown on success; a failure shows its message.
    pub fn loaded(&mut self, result: Result<Vec<SessionView>, String>)
        ensures
            final(self).busy_id == old(self).busy_id,
            match result {
                Ok(list) => final(self).sessions == list && final(self).msg == old(self).msg
                    && final(self).msg_is_error == old(self).msg_is_error,
                Err(e) => final(self).sessions == old(self).sessions && final(self).msg == Some(e)
                    && final(self).msg_is_error,
            },
    {
        match result {
            Ok(list) => {
                self.sessions = list;
            },
            Err(e) => {
                self.msg = Some(e);
                self.msg_is_error = true;
            },
        }
    }

    /// Revoke was pressed on session `id`: ignored while another revoke is
    /// on its way; otherwise that revoke starts (the result says so).
    pub fn begin_revoke(&mut self, id: i64) -> (go: bool)
        ensures
            go == old(self).busy_id is None,
            go ==> final(self).busy_id == Some(id),
            !go ==> final(self).busy_id == old(self).busy_id,
            final(self).sessions == old(self).sessions,
            final(self).msg == old(self).msg,
            final(self).msg_is_error == old(self).msg_is_error,
    {
        if self.busy_id.is_some() {
            return false;
        }
        self.busy_id = Some(id);
        true
    }

    /// The revoke came back; on success the list must be reloaded (the
    /// result says so).
    pub fn finish_revoke(&mut self, result: Result<(), String>) -> (reload: bool)
        ensures
            final(self).busy_id is None,
            final(self).sessions == old(self).sessions,
            match result {
                Ok(()) => reload && (final(self).msg matches Some(m) && m@ == "Session revoked."@)
                    && !final(self).msg_is_error,
                Err(e) => !reload && final(self).msg == Some(e) && final(self).msg_is_error,
            },
    {
        let reload = match result {
            Ok(()) => {
                self.msg = Some(string_of("Session revoked."));
                self.msg_is_error = false;
                true
            },
            Err(e) => {
                self.msg = Some(e);
                self.msg_is_error = true;
                false
            },
        };
        self.busy_id = None;
        reload
    }
}

/// One row: what signed in (marked on this device), when it was last
/// used, and Revoke on every session but the current one.
pub open spec fn session_row(s: SessionView, disabled: bool) -> Seq<char> {
    "<li class=\"kobo-device-row\" data-testid=\"account-session-row\"><div class=\"kobo-device-head\"><span class=\"kobo-device-name\">"@
        + escaped(s.kind@) + "</span>"@ + (if s.is_current {
        "<span class=\"users-self-tag\"> (this device)</span>"@
    } else {
        Seq::empty()
    }) + "</div><p class=\"subtitle\">Last used "@ + iso_date(s.last_used_at as int) + "</p>"@
        + (if !s.is_current {
        "<div class=\"settings-actions\"><button type=\"button\" class=\"btn ghost danger\""@ + (
        if disabled {
            " disabled"@
        } else {
            Seq::empty()
        }) + " data-testid=\"account-session-revoke-"@ + int_digits(s.id as int)
            + "\">Revoke</button></div>"@
    } else {
        Seq::empty()
    }) + "</li>"@
}

/// The first `n` rows.
pub open spec fn session_rows(rows: Seq<SessionView>, disabled: bool, n: int) -> Seq<char>
    decreases n,
{
    if n <= 0 {
        Seq::empty()
    } else {
        session_rows(rows, disabled, n - 1) + session_row(rows[n - 1], disabled)
    }
}

/// The card: the list (or its empty line, before it loads) with every
/// Revoke disabled while one is on its way, then the status line.
pub open spec fn sessions_card_of(s: SessionsState) -> Seq<char> {
    "<section class=\"card\" data-testid=\"account-sessions-card\"><h2>Sessions</h2><p class=\"subtitle\">Devices and browsers currently signed in to your account.</p>"@
        + (if s.sessions@.len() == 0 {
        "<p class=\"settings-status\" data-testid=\"account-sessions-empty\">No sessions found.</p>"@
    } else {
        "<ul class=\"kobo-device-list\" data-testid=\"account-sessions-list\">"@ + session_rows(
            s.sessions@,
            s.busy_id is Some,
            s.sessions@.len() as int,
        ) + "</ul>"@
    }) + status_markup(
        "account-sessions-status"@,
        match s.msg {
            Some(m) => Some(m@),
            None => None,
        },
        s.msg_is_error,
    ) + "</section>"@
}

fn push_session_row(out: &mut String, s: &SessionView, disabled: bool)
    ensures
        final(out)@ == old(out)@ + session_row(*s, disabled),
{
    let ghost start = out@;
    push_str(
        out,
        "<li class=\"kobo-device-row\" data-testid=\"account-session-row\"><div class=\"kobo-device-head\"><span class=\"kobo-device-name\">",
    );
    push_escaped(out, s.kind.as_str());
    push_str(out, "</span>");
    if s.is_current {
        push_str(out, "<span class=\"users-self-tag\"> (this device)</span>");
    }
    push_str(out, "</div><p class=\"subtitle\">Last used ");
    let day = fmt_iso_date(s.last_used_at);
    push_str(out, day.as_str());
    push_str(out, "</p>");
    if !s.is_current {
        push_str(out, "<div class=\"settings-actions\"><button type=\"button\" class=\"btn ghost danger\"");
        if disabled {
            push_str(out, " disabled");
        }
        push_str(out, " data-testid=\"account-session-revoke-");
        push_i64(out, s.id);
        push_str(out, "\">Revoke</button></div>");
    }
    push_str(out, "</li>");
    assert(out@ =~= start + session_row(*s, disabled));
}

/// Markup of the Sessions card.
pub fn SessionsCard(s: &SessionsState) -> (html: String)
    ensures
        html@ == sessions_card_of(*s),
{
    let mut out = string_of(
        "<section class=\"card\" data-testid=\"account-sessions-card\"><h2>Sessions</h2><p class=\"subtitle\">Devices and browsers currently signed in to your account.</p>",
    );
    if s.sessions.len() == 0 {
        push_str(
            &mut out,
            "<p class=\"settings-status\" data-testid=\"account-sessions-empty\">No sessions found.</p>",
        );
    } else {
        push_str(&mut out, "<ul class=\"kobo-device-list\" data-testid=\"account-sessions-list\">");
        let ghost open = out@;
        let disabled = s.busy_id.is_some();
        let mut i: usize = 0;
        while i < s.sessions.len()
            invariant
                i <= s.sessions@.len(),
                disabled == s.busy_id is Some,
                out@ == open + session_rows(s.sessions@, disabled, i as int),
            decreases s.sessions.len() - i,
        {
            push_session_row(&mut out, &s.sessions[i], disabled);
            i += 1;
        }
        push_str(&mut out, "</ul>");
    }
    let status = match &s.msg {
        Some(m) => credential_status_message("account-sessions-status", Some(m.as_str()), s.msg_is_error),
        None => credential_status_message("account-sessions-status", None, s.msg_is_error),
    };
    push_str(&mut out, status.as_str());
    push_str(&mut out, "</section>");
    assert(out@ =~= sessions_card_of(*s));
    out
}

} // verus!
