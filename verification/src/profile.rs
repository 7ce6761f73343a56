//! The account screen's identity: the signed-in user's summary, the role
//! line under their name, and the profile card (display name and avatar)
//! with the state its writes move through and the markup it renders.

use vstd::prelude::*;
use crate::markup::{avatar_markup, escaped, push_avatar, push_escaped};
use crate::text::{from_chars, push_str, string_of, to_chars, trim, trimmed};

verus! {

/// The signed-in user as `/api/auth/me` describes them.
#[derive(Clone, Debug)]
pub struct UserSummary {
    pub id: i64,
    pub username: String,
    pub is_admin: bool,
    pub can_upload: bool,
    pub can_edit: bool,
    pub can_download: bool,
    pub kindle_email: Option<String>,
    pub display_name: Option<String>,
    pub has_avatar: bool,
    pub hidden_formats: Vec<String>,
}

/// The name a user is shown by: their display name when it has any
/// non-blank text, else their username.
pub open spec fn display_of(u: UserSummary) -> Seq<char> {
    match u.display_name {
        Some(n) if trim(n@).len() > 0 => n@,
        _ => u.username@,
    }
}

impl UserSummary {
    /// The name this user is shown by.
    pub fn display(&self) -> (out: &str)
        ensures
            out@ == display_of(*self),
    {
        match &self.display_name {
            Some(n) => {
                let v = to_chars(n.as_str());
                let t = trimmed(&v);
                if t.len() > 0 {
                    return n.as_str();
                }
                self.username.as_str()
            },
            None => self.username.as_str(),
        }
    }
}

/// Role label shown after the username: admins are "Owner", everyone else
/// is "Reader".
pub fn role_label(is_admin: bool) -> (out: &'static str)
    ensures
        out@ == if is_admin {
            "Owner"@
        } else {
            "Reader"@
        },
{
    if is_admin {
        "Owner"
    } else {
        "Reader"
    }
}

/// The identity subline: `username · role`.
pub fn identity_subline(username: &str, is_admin: bool) -> (out: String)
    ensures
        out@ == username@ + " \u{00b7} "@ + if is_admin {
            "Owner"@
        } else {
            "Reader"@
        },
{
    let mut out = string_of(username);
    push_str(&mut out, " \u{00b7} ");
    push_str(&mut out, role_label(is_admin));
    out
}

/// The account tab's identity block: the name shown and the
/// `username · role` line under it; a dash and no line until the user
/// resolves.
pub fn account_identity(user: Option<&UserSummary>) -> (r: (String, String))
    ensures
        match user {
            Some(u) => r.0@ == display_of(*u) && r.1@ == u.username@ + " \u{00b7} "@ + if u.is_admin {
                "Owner"@
            } else {
                "Reader"@
            },
            None => r.0@ == "\u{2014}"@ && r.1@.len() == 0,
        },
{
    match user {
        Some(u) => (string_of(u.display()), identity_subline(u.username.as_str(), u.is_admin)),
        None => (string_of("\u{2014}"), String::new()),
    }
}

// ── Status line ───────────────────────────────────────────────────

/// The status line under a settings form: nothing without a message, else
/// the message styled as an error or a success.
pub open spec fn status_markup(testid: Seq<char>, msg: Option<Seq<char>>, is_error: bool) -> Seq<char> {
    match msg {
        Some(m) => "<p class=\"settings-status "@ + (if is_error {
            "error"@
        } else {
            "success"@
        }) + "\" data-testid=\""@ + escaped(testid) + "\" role=\"status\">"@ + escaped(m)
            + "</p>"@,
        None => Seq::empty(),
    }
}

fn push_status(out: &mut String, testid: &str, msg: Option<&str>, is_error: bool)
    ensures
        final(out)@ == old(out)@ + status_markup(
            testid@,
            match msg {
                Some(m) => Some(m@),
                None => None,
            },
            is_error,
        ),
{
    let ghost start = out@;
    match msg {
        Some(m) => {
            push_str(out, "<p class=\"settings-status ");
            push_str(out, if is_error { "error" } else { "success" });
            push_str(out, "\" data-testid=\"");
            push_escaped(out, testid);
            push_str(out, "\" role=\"status\">");
            push_escaped(out, m);
            push_str(out, "</p>");
            proof {
                reveal_strlit("error");
                reveal_strlit("success");
            }
            assert(out@ =~= start + status_markup(testid@, Some(m@), is_error));
        },
        None => {
            assert(out@ =~= start + status_markup(testid@, None, is_error));
        },
    }
}

/// The status line of a credential or profile form.
pub fn credential_status_message(testid: &str, msg: Option<&str>, is_error: bool) -> (html: String)
    ensures
        html@ == status_markup(
            testid@,
            match msg {
                Some(m) => Some(m@),
                None => None,
            },
            is_error,
        ),
{
    let mut out = String::new();
    push_status(&mut out, testid, msg, is_error);
    out
}

// ── Card state ────────────────────────────────────────────────────

/// What the profile card holds between renders.
#[derive(Clone, Debug)]
pub struct ProfileCardState {
    /// The display-name field as typed.
    pub name_input: String,
    /// Result of the last display-name save.
    pub msg: Option<String>,
    pub msg_is_error: bool,
    /// A display-name save is on its way.
    pub in_flight: bool,
    /// An avatar upload or removal is on its way.
    pub uploading: bool,
    /// Why the last avatar upload or removal failed.
    pub upload_error: Option<String>,
    /// The field has been filled from the resolved user once; later
    /// refreshes must not overwrite what the user is typing.
    pub seeded: bool,
}

/// The optional string's view.
pub open spec fn opt_view(o: Option<String>) -> Option<Seq<char>> {
    match o {
        Some(s) => Some(s@),
        None => None,
    }
}

impl ProfileCardState {
    /// The card as it mounts: empty field, nothing in flight, nothing to
    /// report.
    pub fn new() -> (s: Self)
        ensures
            s.name_input@ == Seq::<char>::empty(),
            s.msg is None,
            !s.msg_is_error,
            !s.in_flight,
            !s.uploading,
            s.upload_error is None,
            !s.seeded,
    {
        ProfileCardState {
            name_input: String::new(),
            msg: None,
            msg_is_error: false,
            in_flight: false,
            uploading: false,
            upload_error: None,
            seeded: false,
        }
    }

    /// Fills the field from the resolved user, once: before the first
    /// resolution, and after the first seeding, nothing changes.
    pub fn seed(&mut self, current_user: &Option<Option<UserSummary>>)
        ensures
            match *current_user {
                Some(Some(u)) if !old(self).seeded => {
                    &&& final(self).name_input@ == match u.display_name {
                        Some(n) => n@,
                        None => Seq::<char>::empty(),
                    }
                    &&& final(self).seeded
                    &&& final(self).msg == old(self).msg
                    &&& final(self).msg_is_error == old(self).msg_is_error
                    &&& final(self).in_flight == old(self).in_flight
                    &&& final(self).uploading == old(self).uploading
                    &&& final(self).upload_error == old(self).upload_error
                },
                _ => *final(self) == *old(self),
            },
    {
        if self.seeded {
            return;
        }
        match current_user {
            Some(Some(u)) => {
                self.name_input = match &u.display_name {
                    Some(n) => n.clone(),
                    None => String::new(),
                };
                self.seeded = true;
            },
            _ => {},
        }
    }

    /// The user typed into the field: it holds what they typed and the
    /// last save's message goes away.
    pub fn on_name_input(&mut self, value: String)
        ensures
            final(self).name_input == value,
            final(self).msg is None,
            final(self).msg_is_error == old(self).msg_is_error,
            final(self).in_flight == old(self).in_flight,
            final(self).uploading == old(self).uploading,
            final(self).upload_error == old(self).upload_error,
            final(self).seeded == old(self).seeded,
    {
        self.name_input = value;
        self.msg = None;
    }

    /// Starts a display-name save and returns the name to send: the field
    /// trimmed, or `None` (back to the username) when it is blank.
    pub fn begin_save(&mut self) -> (value: Option<String>)
        ensures
            final(self).in_flight,
            final(self).name_input == old(self).name_input,
            final(self).msg == old(self).msg,
            final(self).msg_is_error == old(self).msg_is_error,
            final(self).uploading == old(self).uploading,
            final(self).upload_error == old(self).upload_error,
            final(self).seeded == old(self).seeded,
            match value {
                Some(v) => trim(old(self).name_input@).len() > 0 && v@ == trim(old(self).name_input@),
                None => trim(old(self).name_input@).len() == 0,
            },
    {
        self.in_flight = true;
        let v = to_chars(self.name_input.as_str());
        let t = trimmed(&v);
        if t.len() > 0 {
            Some(from_chars(&t))
        } else {
            None
        }
    }

    /// A display-name save came back: the confirmation, or the server's
    /// error. Returns whether the current user should be re-read.
    pub fn finish_save(&mut self, result: Result<(), String>) -> (refresh: bool)
        ensures
            refresh == result is Ok,
            !final(self).in_flight,
            match result {
                Ok(()) => final(self).msg matches Some(m) && m@ == "Profile saved."@
                    && !final(self).msg_is_error,
                Err(e) => final(self).msg == Some(e) && final(self).msg_is_error,
            },
            final(self).name_input == old(self).name_input,
            final(self).uploading == old(self).uploading,
            final(self).upload_error == old(self).upload_error,
            final(self).seeded == old(self).seeded,
    {
        self.in_flight = false;
        match result {
            Ok(()) => {
                self.msg = Some(string_of("Profile saved."));
                self.msg_is_error = false;
                true
            },
            Err(e) => {
                self.msg = Some(e);
                self.msg_is_error = true;
                false
            },
        }
    }

    /// An avatar upload or removal starts.
    pub fn begin_avatar_write(&mut self)
        ensures
            final(self).uploading,
            final(self).name_input == old(self).name_input,
            final(self).msg == old(self).msg,
            final(self).msg_is_error == old(self).msg_is_error,
            final(self).in_flight == old(self).in_flight,
            final(self).upload_error == old(self).upload_error,
            final(self).seeded == old(self).seeded,
    {
        self.uploading = true;
    }

    /// An avatar upload came back. On success the error clears and the
    /// caller bumps the cache-bust counter and re-reads the user (the
    /// result says so); on failure the slot reads `Upload failed: {e}`.
    pub fn finish_upload(&mut self, result: Result<(), String>) -> (refresh: bool)
        ensures
            refresh == result is Ok,
            !final(self).uploading,
            match result {
                Ok(()) => final(self).upload_error is None,
                Err(e) => final(self).upload_error matches Some(m) && m@ == "Upload failed: "@ + e@,
            },
            final(self).name_input == old(self).name_input,
            final(self).msg == old(self).msg,
            final(self).msg_is_error == old(self).msg_is_error,
            final(self).in_flight == old(self).in_flight,
            final(self).seeded == old(self).seeded,
    {
        self.finish_avatar_write(result, "Upload failed: ")
    }

    /// An avatar removal came back; like an upload, with `Remove failed:`.
    pub fn finish_remove(&mut self, result: Result<(), String>) -> (refresh: bool)
        ensures
            refresh == result is Ok,
            !final(self).uploading,
            match result {
                Ok(()) => final(self).upload_error is None,
                Err(e) => final(self).upload_error matches Some(m) && m@ == "Remove failed: "@ + e@,
            },
            final(self).name_input == old(self).name_input,
            final(self).msg == old(self).msg,
            final(self).msg_is_error == old(self).msg_is_error,
            final(self).in_flight == old(self).in_flight,
            final(self).seeded == old(self).seeded,
    {
        self.finish_avatar_write(result, "Remove failed: ")
    }

    fn finish_avatar_write(&mut self, result: Result<(), String>, prefix: &str) -> (refresh: bool)
        ensures
            refresh == result is Ok,
            !final(self).uploading,
            match result {
                Ok(()) => final(self).upload_error is None,
                Err(e) => final(self).upload_error matches Some(m) && m@ == prefix@ + e@,
            },
            final(self).name_input == old(self).name_input,
            final(self).msg == old(self).msg,
            final(self).msg_is_error == old(self).msg_is_error,
            final(self).in_flight == old(self).in_flight,
            final(self).seeded == old(self).seeded,
    {
        self.uploading = false;
        match result {
            Ok(()) => {
                self.upload_error = None;
                true
            },
            Err(e) => {
                let mut m = string_of(prefix);
                push_str(&mut m, e.as_str());
                self.upload_error = Some(m);
                false
            },
        }
    }
}

// ── Card markup ───────────────────────────────

/// The user a `CurrentUser` value holds once it has resolved to one.
pub open spec fn resolved_user(current_user: Option<Option<UserSummary>>) -> Option<UserSummary> {
    match current_user {
        Some(Some(u)) => Some(u),
        _ => None,
    }
}

/// The user behind an optional reference.
pub open spec fn deref_user(user: Option<&UserSummary>) -> Option<UserSummary> {
    match user {
        Some(u) => Some(*u),
        None => None,
    }
}

/// ` disabled` when `on`.
pub open spec fn disabled_attr(on: bool) -> Seq<char> {
    if on {
        " disabled"@
    } else {
        Seq::empty()
    }
}

/// The avatar with its change / remove controls and their status line.
pub open spec fn avatar_section_markup(
    user_id: int,
    display: Seq<char>,
    has_avatar: bool,
    bust: u32,
    uploading: bool,
    upload_error: Option<Seq<char>>,
) -> Seq<char> {
    "<div class=\"profile-identity\"><div class=\"profile-avatar\">"@ + avatar_markup(
        user_id,
        display,
        has_avatar,
        Some(bust),
        "profile-initials"@,
    )
        + "</div><div class=\"profile-avatar-actions\"><div class=\"profile-avatar-buttons\"><label class=\"btn sm\" for=\"avatar-file\">Change picture</label><input type=\"file\" id=\"avatar-file\" class=\"profile-avatar-input\" data-testid=\"avatar-file-input\" accept=\"image/jpeg,image/png,image/webp,image/gif\""@
        + disabled_attr(uploading) + ">"@ + (if has_avatar {
        "<button type=\"button\" class=\"btn ghost sm\" data-testid=\"avatar-remove\""@
            + disabled_attr(uploading) + ">Remove</button>"@
    } else {
        Seq::empty()
    })
        + "</div><p class=\"subtitle\">JPEG, PNG, WebP or GIF, up to 10 MB.</p></div></div>"@
        + status_markup("avatar-status"@, upload_error, true)
}

/// The display-name form: the field (placeholder: the name the user is
/// shown by), the helper hint and the save action.
pub open spec fn name_form_markup(name_input: Seq<char>, in_flight: bool, display: Seq<char>) -> Seq<char> {
    "<form id=\"profile-form\" class=\"settings-form\"><div class=\"settings-field\"><label for=\"display-name\">Display name</label><input type=\"text\" id=\"display-name\" name=\"display_name\" data-testid=\"display-name-input\" autocomplete=\"nickname\" maxlength=\"64\" placeholder=\""@
        + escaped(display) + "\" value=\""@ + escaped(name_input)
        + "\"></div><p class=\"subtitle\">Shown on your journals, ratings and shelves. Leave it empty to use your username.</p><div class=\"settings-actions\"><button type=\"submit\" class=\"btn\""@
        + disabled_attr(in_flight)
        + " data-testid=\"display-name-save\">Save</button></div></form>"@
}

/// The whole profile card: the user it shows (if resolved), the avatar
/// cache-bust counter, and the card's field, messages and flags.
pub open spec fn card_markup(
    user: Option<UserSummary>,
    bust: u32,
    name_input: Seq<char>,
    msg: Option<Seq<char>>,
    msg_is_error: bool,
    in_flight: bool,
    uploading: bool,
    upload_error: Option<Seq<char>>,
) -> Seq<char> {
    let (user_id, display, has_avatar) = match user {
        Some(u) => (u.id as int, display_of(u), u.has_avatar),
        None => (0int, Seq::<char>::empty(), false),
    };
    "<section class=\"card\" data-testid=\"account-profile-card\"><h2>Account</h2><p class=\"subtitle\">How you appear across the library.</p>"@
        + avatar_section_markup(user_id, display, has_avatar, bust, uploading, upload_error)
        + name_form_markup(name_input, in_flight, display) + status_markup(
        "profile-status"@,
        msg,
        msg_is_error,
    ) + "</section>"@
}

/// The profile card for a state.
pub open spec fn profile_card_markup(s: ProfileCardState, user: Option<UserSummary>, bust: u32) -> Seq<char> {
    card_markup(
        user,
        bust,
        s.name_input@,
        opt_view(s.msg),
        s.msg_is_error,
        s.in_flight,
        s.uploading,
        opt_view(s.upload_error),
    )
}

/// The card as it first paints for `user`: empty field, nothing in flight,
/// nothing to report.
pub open spec fn first_paint_markup(user: Option<UserSummary>, bust: u32) -> Seq<char> {
    card_markup(user, bust, Seq::empty(), None, false, false, false, None)
}

fn push_disabled(out: &mut String, on: bool)
    ensures
        final(out)@ == old(out)@ + disabled_attr(on),
{
    if on {
        push_str(out, " disabled");
    } else {
        assert(old(out)@ + disabled_attr(on) =~= old(out)@);
    }
}

fn opt_str(o: &Option<String>) -> (r: Option<&str>)
    ensures
        match r {
            Some(m) => opt_view(*o) == Some(m@),
            None => opt_view(*o) is None,
        },
{
    match o {
        Some(m) => Some(m.as_str()),
        None => None,
    }
}

fn push_avatar_section(
    out: &mut String,
    user_id: i64,
    display: &str,
    has_avatar: bool,
    bust: u32,
    uploading: bool,
    upload_error: &Option<String>,
)
    ensures
        final(out)@ == old(out)@ + avatar_section_markup(
            user_id as int,
            display@,
            has_avatar,
            bust,
            uploading,
            opt_view(*upload_error),
        ),
{
    let ghost start = out@;
    push_str(out, "<div class=\"profile-identity\"><div class=\"profile-avatar\">");
    push_avatar(out, user_id, display, has_avatar, Some(bust), "profile-initials");
    push_str(
        out,
        "</div><div class=\"profile-avatar-actions\"><div class=\"profile-avatar-buttons\"><label class=\"btn sm\" for=\"avatar-file\">Change picture</label><input type=\"file\" id=\"avatar-file\" class=\"profile-avatar-input\" data-testid=\"avatar-file-input\" accept=\"image/jpeg,image/png,image/webp,image/gif\"",
    );
    push_disabled(out, uploading);
    push_str(out, ">");
    let ghost mid = out@;
    if has_avatar {
        push_str(out, "<button type=\"button\" class=\"btn ghost sm\" data-testid=\"avatar-remove\"");
        push_disabled(out, uploading);
        push_str(out, ">Remove</button>");
    }
    push_str(out, "</div><p class=\"subtitle\">JPEG, PNG, WebP or GIF, up to 10 MB.</p></div></div>");
    push_status(out, "avatar-status", opt_str(upload_error), true);
    assert(out@ =~= start + avatar_section_markup(
        user_id as int,
        display@,
        has_avatar,
        bust,
        uploading,
        opt_view(*upload_error),
    ));
}

fn push_name_form(out: &mut String, name_input: &str, in_flight: bool, display: &str)
    ensures
        final(out)@ == old(out)@ + name_form_markup(name_input@, in_flight, display@),
{
    let ghost start = out@;
    push_str(
        out,
        "<form id=\"profile-form\" class=\"settings-form\"><div class=\"settings-field\"><label for=\"display-name\">Display name</label><input type=\"text\" id=\"display-name\" name=\"display_name\" data-testid=\"display-name-input\" autocomplete=\"nickname\" maxlength=\"64\" placeholder=\"",
    );
    push_escaped(out, display);
    push_str(out, "\" value=\"");
    push_escaped(out, name_input);
    push_str(
        out,
        "\"></div><p class=\"subtitle\">Shown on your journals, ratings and shelves. Leave it empty to use your username.</p><div class=\"settings-actions\"><button type=\"submit\" class=\"btn\"",
    );
    push_disabled(out, in_flight);
    push_str(out, " data-testid=\"display-name-save\">Save</button></div></form>");
    assert(out@ =~= start + name_form_markup(name_input@, in_flight, display@));
}

/// The profile card: avatar and its controls, the display-name form, and
/// the save's status line.
pub fn profile_card(state: &ProfileCardState, user: Option<&UserSummary>, bust: u32) -> (html: String)
    ensures
        html@ == profile_card_markup(*state, deref_user(user), bust),
{
    let (user_id, display, has_avatar): (i64, &str, bool) = match user {
        Some(u) => (u.id, u.display(), u.has_avatar),
        None => (0, "", false),
    };
    let mut out = string_of(
        "<section class=\"card\" data-testid=\"account-profile-card\"><h2>Account</h2><p class=\"subtitle\">How you appear across the library.</p>",
    );
    push_avatar_section(
        &mut out,
        user_id,
        display,
        has_avatar,
        bust,
        state.uploading,
        &state.upload_error,
    );
    push_name_form(&mut out, state.name_input.as_str(), state.in_flight, display);
    push_status(&mut out, "profile-status", opt_str(&state.msg), state.msg_is_error);
    push_str(&mut out, "</section>");
    proof {
        reveal_strlit("");
    }
    assert(out@ =~= profile_card_markup(*state, deref_user(user), bust));
    out
}

/// The card's first paint before the current user has resolved.
pub fn card_unresolved(bust: u32) -> (html: String)
    ensures
        html@ == first_paint_markup(None, bust),
{
    let state = ProfileCardState::new();
    let html = profile_card(&state, None, bust);
    html
}

/// The card's first paint for a resolved user who has an avatar, whose
/// URL carries the cache-bust counter.
pub fn card_with_avatar(user: &UserSummary, bust: u32) -> (html: String)
    requires
        user.has_avatar,
    ensures
        html@ == first_paint_markup(Some(*user), bust),
{
    let state = ProfileCardState::new();
    let html = profile_card(&state, Some(user), bust);
    html
}

/// The card's first paint for a resolved user with no avatar: a monogram,
/// and no remove action.
pub fn card_without_avatar(user: &UserSummary) -> (html: String)
    requires
        !user.has_avatar,
    ensures
        html@ == first_paint_markup(Some(*user), 0),
{
    let state = ProfileCardState::new();
    let html = profile_card(&state, Some(user), 0);
    html
}

} // verus!
