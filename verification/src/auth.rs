//! Sign-in and registration: the password strength meter, routing a
//! server's error message to the field it is about, and the submit cycle
//! both forms share (validate, send once, take the outcome back).

use vstd::prelude::*;
use crate::num::{nat_digits, push_u64};
use crate::text::{push_str, contains, contains_lit, lowercase, unicode_lowercase, is_ascii_alpha, is_ascii_digit, is_ascii_lower, is_ascii_upper, string_of, to_chars};

verus! {

// ── Error routing ─────────────────────────────────────────────────

/// A registration failure, by the field it is about.
#[derive(Clone, Debug, PartialEq, Eq)]
pub enum RegisterError {
    Username(String),
    Password(String),
    /// Shown as a banner over the whole form.
    Other(String),
}

/// Which field an error message (already lower-cased as `lower`) is about:
/// it names the username or an existing user, else the password, else
/// neither.
pub open spec fn route_error(raw: Seq<char>, lower: Seq<char>) -> (int, Seq<char>) {
    if contains(lower, "username"@) || contains(lower, "user already"@) {
        (0, raw)
    } else if contains(lower, "password"@) {
        (1, raw)
    } else {
        (2, raw)
    }
}

/// A register error's view: its field (0 username, 1 password, 2 other)
/// and message.
pub open spec fn register_error_view(e: RegisterError) -> (int, Seq<char>) {
    match e {
        RegisterError::Username(m) => (0, m@),
        RegisterError::Password(m) => (1, m@),
        RegisterError::Other(m) => (2, m@),
    }
}

/// Routes a message to its field, given the message's lower case.
pub fn classify_lowered(raw: &str, lower: &str) -> (e: RegisterError)
    ensures
        register_error_view(e) == route_error(raw@, lower@),
{
    let l = to_chars(lower);
    if contains_lit(&l, "username") || contains_lit(&l, "user already") {
        RegisterError::Username(string_of(raw))
    } else if contains_lit(&l, "password") {
        RegisterError::Password(string_of(raw))
    } else {
        RegisterError::Other(string_of(raw))
    }
}

/// Classifies a flat error string into a field bucket, by case-insensitive
/// substring, so rewording a server message does not strand the form.
pub fn classify_register_error(raw: &str) -> (e: RegisterError)
    ensures
        register_error_view(e) == route_error(raw@, unicode_lowercase(raw@)),
{
    let lower = lowercase(raw);
    classify_lowered(raw, lower.as_str())
}

/// Splits a routed error into the form's three message slots: username,
/// password, and the banner.
pub fn classify_errors(err: &Option<RegisterError>) -> (r: (Option<String>, Option<String>, Option<String>))
    ensures
        match *err {
            Some(RegisterError::Username(m)) => r.0 == Some(m) && r.1 is None && r.2 is None,
            Some(RegisterError::Password(m)) => r.0 is None && r.1 == Some(m) && r.2 is None,
            Some(RegisterError::Other(m)) => r.0 is None && r.1 is None && r.2 == Some(m),
            None => r.0 is None && r.1 is None && r.2 is None,
        },
{
    match err {
        Some(RegisterError::Username(m)) => (Some(m.clone()), None, None),
        Some(RegisterError::Password(m)) => (None, Some(m.clone()), None),
        Some(RegisterError::Other(m)) => (None, None, Some(m.clone())),
        None => (None, None, None),
    }
}

// ── Password strength ─────────────────────────────────────────────

/// `char::is_alphanumeric`: the Unicode Alphabetic or Numeric property.
pub uninterp spec fn unicode_alphanumeric(c: char) -> bool;

/// Whether `c` is alphabetic or numeric (std's `char::is_alphanumeric`).
/// Beyond naming the result, the contract states what it is on ASCII,
/// where those properties are exactly the letters and the digits.
#[verifier::external_body]
fn is_alphanumeric(c: char) -> (b: bool)
    ensures
        b == unicode_alphanumeric(c),
        (c as u32) < 128 ==> (b == (is_ascii_alpha(c) || is_ascii_digit(c))),
{
    c.is_alphanumeric()
}

/// The strength meter's reading, from 0 to [`StrengthScore::MAX`].
#[derive(Clone, Copy, Debug, PartialEq, Eq)]
pub struct StrengthScore {
    value: u8,
}

impl StrengthScore {
    /// The strongest reading.
    pub const MAX: u8 = 4;

    /// The reading's value.
    pub closed spec fn spec_value(self) -> u8 {
        self.value
    }

    /// A reading of `value`.
    pub fn new(value: u8) -> (s: Self)
        requires
            value <= 4,
        ensures
            s.spec_value() == value,
    {
        StrengthScore { value }
    }

    /// The reading's value.
    pub fn value(&self) -> (v: u8)
        ensures
            v == self.spec_value(),
            v <= 4,
    {
        proof {
            use_type_invariant(self);
        }
        self.value
    }

    #[verifier::type_invariant]
    spec fn in_range(self) -> bool {
        self.value <= 4
    }
}

/// What the meter and the checklist read for a password.
pub open spec fn has_lower(pw: Seq<char>) -> bool {
    exists|i: int| 0 <= i < pw.len() && is_ascii_lower(#[trigger] pw[i])
}

pub open spec fn has_upper(pw: Seq<char>) -> bool {
    exists|i: int| 0 <= i < pw.len() && is_ascii_upper(#[trigger] pw[i])
}

/// An ASCII digit, or anything that is neither a letter nor a number.
pub open spec fn number_or_symbol(c: char) -> bool {
    is_ascii_digit(c) || !unicode_alphanumeric(c)
}

pub open spec fn has_number_or_symbol(pw: Seq<char>) -> bool {
    exists|i: int| 0 <= i < pw.len() && number_or_symbol(#[trigger] pw[i])
}

/// The raw points: four characters, eight, mixed case, a number or
/// symbol, and the ten-character policy length each add one.
pub open spec fn raw_points(pw: Seq<char>) -> int {
    (if pw.len() >= 4 { 1int } else { 0int }) + (if pw.len() >= 8 { 1int } else { 0int }) + (if has_lower(pw)
        && has_upper(pw) {
        1int
    } else {
        0int
    }) + (if has_number_or_symbol(pw) { 1int } else { 0int }) + (if pw.len() >= 10 {
        1int
    } else {
        0int
    })
}

/// The meter's label: "empty" only when nothing was typed.
pub open spec fn strength_label(pw: Seq<char>, score: int) -> Seq<char> {
    if pw.len() == 0 {
        "empty"@
    } else if score <= 1 {
        "weak"@
    } else if score == 2 {
        "fair"@
    } else if score == 3 {
        "good"@
    } else {
        "strong"@
    }
}

/// Law: for anything typed, the label follows the meter's reading one to
/// one: 0 and 1 read "weak", 2 "fair", 3 "good" and 4 "strong", so two
/// different readings from 1 up never share a label.
pub proof fn lemma_label_follows_score(pw: Seq<char>, a: int, b: int)
    requires
        pw.len() > 0,
        0 <= a <= 4,
        0 <= b <= 4,
    ensures
        strength_label(pw, a) == seq!["weak"@, "weak"@, "fair"@, "good"@, "strong"@][a],
        1 <= a && 1 <= b && a != b ==> strength_label(pw, a) != strength_label(pw, b),
{
    reveal_strlit("weak");
    reveal_strlit("fair");
    reveal_strlit("good");
    reveal_strlit("strong");
    if 1 <= a && 1 <= b && a != b {
        let la = strength_label(pw, a);
        let lb = strength_label(pw, b);
        if la.len() == lb.len() {
            assert(la[0] != lb[0] || la[1] != lb[1]);
        }
    }
}

/// Presentational password scoring (the server enforces the policy): the
/// meter's reading (the points, capped at four), its label, and the three
/// checklist rules — at least ten characters, mixed case, a number or
/// symbol.
pub fn score_password(pw: &str) -> (r: (StrengthScore, &'static str, [bool; 3]))
    ensures
        r.0.spec_value() == if raw_points(pw@) > 4 {
            4
        } else {
            raw_points(pw@)
        },
        r.1@ == strength_label(pw@, r.0.spec_value() as int),
        r.2[0] == (pw@.len() >= 10),
        r.2[1] == (has_lower(pw@) && has_upper(pw@)),
        r.2[2] == has_number_or_symbol(pw@),
        pw@.len() > 0 ==> r.1@ == seq!["weak"@, "weak"@, "fair"@, "good"@, "strong"@][r.0.spec_value() as int],
{
    let v = to_chars(pw);
    let mut lower = false;
    let mut upper = false;
    let mut sym = false;
    let mut i: usize = 0;
    while i < v.len()
        invariant
            i <= v.len(),
            v@ == pw@,
            lower == exists|j: int| 0 <= j < i && is_ascii_lower(#[trigger] v@[j]),
            upper == exists|j: int| 0 <= j < i && is_ascii_upper(#[trigger] v@[j]),
            sym == exists|j: int| 0 <= j < i && number_or_symbol(#[trigger] v@[j]),
        decreases v.len() - i,
    {
        let c = v[i];
        if 'a' <= c && c <= 'z' {
            lower = true;
        }
        if 'A' <= c && c <= 'Z' {
            upper = true;
        }
        if ('0' <= c && c <= '9') || !is_alphanumeric(c) {
            sym = true;
        }
        proof {
            assert(v@[i as int] == c);
        }
        i += 1;
    }
    let n = v.len();
    let mixed = lower && upper;
    let len_ok = n >= 10;
    let mut raw: u8 = 0;
    if n >= 4 {
        raw = raw + 1;
    }
    if n >= 8 {
        raw = raw + 1;
    }
    if mixed {
        raw = raw + 1;
    }
    if sym {
        raw = raw + 1;
    }
    if len_ok {
        raw = raw + 1;
    }
    let capped = if raw > StrengthScore::MAX {
        StrengthScore::MAX
    } else {
        raw
    };
    let score = StrengthScore::new(capped);
    let label = if n == 0 {
        "empty"
    } else if capped <= 1 {
        "weak"
    } else if capped == 2 {
        "fair"
    } else if capped == 3 {
        "good"
    } else {
        "strong"
    };
    proof {
        if pw@.len() > 0 {
            lemma_label_follows_score(pw@, capped as int, capped as int);
        }
    }
    (score, label, [len_ok, mixed, sym])
}


// ── Request failures ──────────────────────────────────────────────

/// A failed request, as the data layer reports it.
#[derive(Clone, Debug)]
pub enum DataError {
    /// The server answered with a non-success status and this body.
    Http { status: u16, body: String },
    /// The session is not signed in.
    Unauthorized,
    /// Any other failure, with the text it displays as.
    Other(String),
}

/// How a failure reads on the form: an HTTP failure with a body keeps the
/// status and the body (so the field router can still read it); otherwise
/// the failure's own text ("server returned 500", "unauthorized").
pub open spec fn data_error_text(e: DataError) -> Seq<char> {
    match e {
        DataError::Http { status, body } => if body@.len() > 0 {
            nat_digits(status as nat) + ": "@ + body@
        } else {
            "server returned "@ + nat_digits(status as nat)
        },
        DataError::Unauthorized => "unauthorized"@,
        DataError::Other(m) => m@,
    }
}

/// The message a failed sign-in or registration shows.
pub fn data_error_message(err: DataError) -> (out: String)
    ensures
        out@ == data_error_text(err),
{
    match err {
        DataError::Http { status, body } => {
            let mut out = String::new();
            if body.as_str().unicode_len() > 0 {
                push_u64(&mut out, status as u64);
                push_str(&mut out, ": ");
                push_str(&mut out, body.as_str());
            } else {
                push_str(&mut out, "server returned ");
                push_u64(&mut out, status as u64);
            }
            out
        },
        DataError::Unauthorized => string_of("unauthorized"),
        DataError::Other(m) => m,
    }
}

// ── Submitting ────────────────────────────────────────────────────

/// What pressing submit (or Enter in a field) did.
pub enum SubmitStep {
    /// A request is already on its way, or the form does not accept a submit; no
    /// change.
    Ignored,
    /// A field was empty; the form now says so.
    Rejected,
    /// Send these credentials (username, password).
    Send(String, String),
}

/// The sign-in form between renders.
pub struct LoginForm {
    pub username: String,
    pub password: String,
    pub error: Option<String>,
    pub submitting: bool,
    pub keep_signed_in: bool,
}

impl LoginForm {
    /// An empty form.
    pub fn new() -> (f: Self)
        ensures
            f.username@ == Seq::<char>::empty(),
            f.password@ == Seq::<char>::empty(),
            f.error is None,
            !f.submitting,
            !f.keep_signed_in,
    {
        LoginForm {
            username: String::new(),
            password: String::new(),
            error: None,
            submitting: false,
            keep_signed_in: false,
        }
    }

    /// Submit: ignored while a request is out; with an empty field the
    /// form asks for both; otherwise the error clears, the form starts
    /// submitting and the credentials go out.
    pub fn submit(&mut self) -> (step: SubmitStep)
        ensures
            old(self).submitting ==> step is Ignored && final(self).error == old(self).error
                && final(self).submitting,
            !old(self).submitting && (old(self).username@.len() == 0 || old(self).password@.len()
                == 0) ==> (step is Rejected && !final(self).submitting && (final(self).error matches Some(e)
                && e@ == "enter a username and password"@)),
            !old(self).submitting && old(self).username@.len() > 0 && old(self).password@.len() > 0
                ==> (step matches SubmitStep::Send(u, p) && u == old(self).username && p == old(
                self,
            ).password && final(self).error is None && final(self).submitting),
            final(self).username == old(self).username,
            final(self).password == old(self).password,
            final(self).keep_signed_in == old(self).keep_signed_in,
    {
        if self.submitting {
            return SubmitStep::Ignored;
        }
        if self.username.as_str().unicode_len() == 0 || self.password.as_str().unicode_len() == 0 {
            self.error = Some(string_of("enter a username and password"));
            return SubmitStep::Rejected;
        }
        self.error = None;
        self.submitting = true;
        SubmitStep::Send(self.username.clone(), self.password.clone())
    }

    /// The request came back: on success the page moves on (`true`); on
    /// failure the server's message shows.
    pub fn finish(&mut self, result: Result<(), String>) -> (go_home: bool)
        ensures
            go_home == result is Ok,
            !final(self).submitting,
            match result {
                Ok(()) => final(self).error == old(self).error,
                Err(e) => final(self).error == Some(e),
            },
            final(self).username == old(self).username,
            final(self).password == old(self).password,
    {
        self.submitting = false;
        match result {
            Ok(()) => true,
            Err(e) => {
                self.error = Some(e);
                false
            },
        }
    }
}

/// The registration form between renders.
pub struct RegisterForm {
    pub username: String,
    pub password: String,
    pub error: Option<RegisterError>,
    pub submitting: bool,
    pub terms_ack: bool,
}

impl RegisterForm {
    /// An empty form.
    pub fn new() -> (f: Self)
        ensures
            f.username@ == Seq::<char>::empty(),
            f.password@ == Seq::<char>::empty(),
            f.error is None,
            !f.submitting,
            !f.terms_ack,
    {
        RegisterForm {
            username: String::new(),
            password: String::new(),
            error: None,
            submitting: false,
            terms_ack: false,
        }
    }

    /// Whether the form accepts a submit: not while a request is out, nor while a routed
    /// error still shows (editing a field clears it).
    pub fn can_submit(&self) -> (b: bool)
        ensures
            b == (!self.submitting && self.error is None),
    {
        !self.submitting && self.error.is_none()
    }

    /// The submit button's label.
    pub fn submit_label(&self) -> (s: &'static str)
        ensures
            s@ == if self.submitting {
                "Creating\u{2026}"@
            } else if self.error is Some {
                "Fix to continue"@
            } else {
                "Create account"@
            },
    {
        if self.submitting {
            "Creating\u{2026}"
        } else if self.error.is_some() {
            "Fix to continue"
        } else {
            "Create account"
        }
    }

    /// Typing into the username field clears the routed error.
    pub fn on_username_input(&mut self, value: String)
        ensures
            final(self).username == value,
            final(self).error is None,
            final(self).password == old(self).password,
            final(self).submitting == old(self).submitting,
    {
        self.username = value;
        self.error = None;
    }

    /// Typing into the password field clears the routed error.
    pub fn on_password_input(&mut self, value: String)
        ensures
            final(self).password == value,
            final(self).error is None,
            final(self).username == old(self).username,
            final(self).submitting == old(self).submitting,
    {
        self.password = value;
        self.error = None;
    }

    /// The form is submitted: nothing happens while it accepts no submit; with
    /// an empty field the banner asks for both; otherwise the credentials go
    /// out.
    pub fn submit(&mut self) -> (step: SubmitStep)
        ensures
            (old(self).submitting || old(self).error is Some) ==> step is Ignored && final(self).error
                == old(self).error && final(self).submitting == old(self).submitting,
            !old(self).submitting && old(self).error is None && (old(self).username@.len() == 0
                || old(self).password@.len() == 0) ==> (step is Rejected && !final(self).submitting && (
            final(self).error matches Some(e) && register_error_view(e) == (
                2int,
                "enter a username and password"@,
            ))),
            !old(self).submitting && old(self).error is None && old(self).username@.len() > 0
                && old(self).password@.len() > 0 ==> (step matches SubmitStep::Send(u, p) && u
                == old(self).username && p == old(self).password && final(self).error is None
                && final(self).submitting),
            final(self).username == old(self).username,
            final(self).password == old(self).password,
            final(self).terms_ack == old(self).terms_ack,
    {
        if !self.can_submit() {
            return SubmitStep::Ignored;
        }
        if self.username.as_str().unicode_len() == 0 || self.password.as_str().unicode_len() == 0 {
            self.error = Some(RegisterError::Other(string_of("enter a username and password")));
            return SubmitStep::Rejected;
        }
        self.error = None;
        self.submitting = true;
        SubmitStep::Send(self.username.clone(), self.password.clone())
    }

    /// The request came back: on success the page moves on (`true`); on
    /// failure the message is routed to its field.
    pub fn finish(&mut self, result: Result<(), String>) -> (go_home: bool)
        ensures
            go_home == result is Ok,
            !final(self).submitting,
            match result {
                Ok(()) => final(self).error == old(self).error,
                Err(e) => final(self).error matches Some(r) && register_error_view(r) == route_error(
                    e@,
                    unicode_lowercase(e@),
                ),
            },
            final(self).username == old(self).username,
            final(self).password == old(self).password,
    {
        self.submitting = false;
        match result {
            Ok(()) => true,
            Err(e) => {
                self.error = Some(classify_register_error(e.as_str()));
                false
            },
        }
    }
}

} // verus!
