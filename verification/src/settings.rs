//! The account settings cards: the theme control, the Kobo sync endpoint,
//! the scroll-stops switch, the Kindle address and change-password forms,
//! and the downloads list's "last synced" line.

use vstd::prelude::*;
use crate::num::{int_digits, nat_digits, push_i64, push_u64};
use crate::order::{chars_lt, lemma_seq_lt_asymmetric, lemma_seq_lt_irreflexive, lemma_seq_lt_total, lemma_seq_lt_transitive, seq_lt};
use crate::text::{chars_eq, push_str, string_of, to_chars, trim, trimmed, from_chars, slice_of};

verus! {

// ── Theme ─────────────────────────────────────────────────────────

/// The colour themes of the segmented control.
#[derive(Clone, Copy, Debug, PartialEq, Eq, Structural)]
pub enum ThemeKind {
    Dark,
    Black,
    Light,
    Sepia,
}

/// The `data-theme` attribute a theme maps to.
pub open spec fn theme_attr(k: ThemeKind) -> Seq<char> {
    match k {
        ThemeKind::Dark => "dark"@,
        ThemeKind::Black => "black"@,
        ThemeKind::Light => "light"@,
        ThemeKind::Sepia => "sepia"@,
    }
}

impl ThemeKind {
    /// The `data-theme` attribute string this kind maps to.
    pub fn as_attr(self) -> (out: &'static str)
        ensures
            out@ == theme_attr(self),
    {
        match self {
            ThemeKind::Dark => "dark",
            ThemeKind::Black => "black",
            ThemeKind::Light => "light",
            ThemeKind::Sepia => "sepia",
        }
    }
}

/// The segmented control's cycle: each theme with its caption, in order.
pub fn theme_order() -> (out: [(&'static str, ThemeKind); 4])
    ensures
        out@[0].0@ == "Dark"@ && out@[0].1 == ThemeKind::Dark,
        out@[1].0@ == "Black"@ && out@[1].1 == ThemeKind::Black,
        out@[2].0@ == "Light"@ && out@[2].1 == ThemeKind::Light,
        out@[3].0@ == "Sepia"@ && out@[3].1 == ThemeKind::Sepia,
{
    [
        ("Dark", ThemeKind::Dark),
        ("Black", ThemeKind::Black),
        ("Light", ThemeKind::Light),
        ("Sepia", ThemeKind::Sepia),
    ]
}

// ── Kobo ──────────────────────────────────────────────────────────

/// `s` with every trailing `c` removed (`str::trim_end_matches`).
pub open spec fn trim_end_char(s: Seq<char>, c: char) -> Seq<char>
    decreases s.len(),
{
    if s.len() > 0 && s.last() == c {
        trim_end_char(s.drop_last(), c)
    } else {
        s
    }
}

/// The `api_endpoint` a Kobo is pointed at: `{origin}/kobo/{token}`, the
/// origin without its trailing slashes.
pub fn endpoint_url(server_url: &str, token: &str) -> (out: String)
    ensures
        out@ == trim_end_char(server_url@, '/') + "/kobo/"@ + token@,
{
    let v = to_chars(server_url);
    let mut end: usize = v.len();
    proof {
        assert(v@.take(end as int) =~= v@);
    }
    while end > 0 && v[end - 1] == '/'
        invariant
            end <= v.len(),
            v@ == server_url@,
            trim_end_char(v@, '/') == trim_end_char(v@.take(end as int), '/'),
        decreases end,
    {
        proof {
            assert(v@.take(end as int).drop_last() =~= v@.take(end as int - 1));
        }
        end -= 1;
    }
    let origin = slice_of(&v, 0, end);
    proof {
        assert(origin@ =~= v@.take(end as int));
    }
    let mut out = from_chars(&origin);
    push_str(&mut out, "/kobo/");
    push_str(&mut out, token);
    out
}

// ── Scroll stops ──────────────────────────────────────────────────

/// The subtitle under the scroll-stops switch, for the value the server
/// has confirmed (`None` while it is still loading).
pub open spec fn scroll_stops_line(enabled: Option<bool>) -> Seq<char> {
    match enabled {
        None => "Checking\u{2026}"@,
        Some(true) => "Book details snap through one panel at a time."@,
        Some(false) => "Book details scroll continuously, top to bottom."@,
    }
}

/// What the scroll-stops setting currently does to the book page.
pub fn scroll_stops_status_line(enabled: Option<bool>) -> (out: &'static str)
    ensures
        out@ == scroll_stops_line(enabled),
{
    match enabled {
        None => "Checking\u{2026}",
        Some(true) => "Book details snap through one panel at a time.",
        Some(false) => "Book details scroll continuously, top to bottom.",
    }
}

/// The scroll-stops switch: `confirmed` is what the server holds, `shown`
/// what the checkbox renders; they differ only while a save is in flight.
#[derive(Clone, Debug)]
pub struct ScrollStopsState {
    pub confirmed: Option<bool>,
    pub shown: Option<bool>,
    pub error: Option<String>,
    pub saving: bool,
}

impl ScrollStopsState {
    /// Outside a save the checkbox shows the confirmed value; during one,
    /// a value is confirmed and the checkbox shows its opposite.
    pub open spec fn wf(self) -> bool {
        if self.saving {
            self.confirmed matches Some(c) && self.shown == Some(!c)
        } else {
            self.shown == self.confirmed
        }
    }

    /// Before the viewer resolves: nothing known, nothing saving.
    pub fn new() -> (s: Self)
        ensures
            s.wf(),
            s.confirmed is None,
            s.shown is None,
            s.error is None,
            !s.saving,
    {
        ScrollStopsState { confirmed: None, shown: None, error: None, saving: false }
    }

    /// Seeds the switch from the resolved viewer, once: a value this card
    /// already holds is never overwritten.
    pub fn seed(&mut self, stored: bool)
        requires
            old(self).wf(),
        ensures
            final(self).wf(),
            old(self).confirmed is None ==> final(self).confirmed == Some(stored)
                && final(self).shown == Some(stored) && final(self).error == old(self).error
                && final(self).saving == old(self).saving,
            old(self).confirmed is Some ==> *final(self) == *old(self),
    {
        if self.confirmed.is_none() {
            self.confirmed = Some(stored);
            self.shown = Some(stored);
        }
    }

    /// A click on the switch. Ignored until the value is known or while a
    /// save is in flight; otherwise shows the flipped value and returns it
    /// as the value to write.
    pub fn toggle(&mut self) -> (next: Option<bool>)
        requires
            old(self).wf(),
        ensures
            final(self).wf(),
            match old(self).confirmed {
                Some(c) if !old(self).saving => next == Some(!c) && final(self).saving
                    && final(self).shown == Some(!c) && final(self).confirmed == old(self).confirmed
                    && final(self).error == old(self).error,
                _ => next is None && *final(self) == *old(self),
            },
    {
        let current = match self.confirmed {
            Some(c) => c,
            None => return None,
        };
        if self.saving {
            return None;
        }
        self.saving = true;
        self.shown = Some(!current);
        Some(!current)
    }

    /// The server's answer to the save `toggle` started: on success the
    /// flipped value is confirmed and the error cleared; on failure the
    /// checkbox goes back to what the server still holds and the error is
    /// kept to show.
    pub fn finish(&mut self, result: Result<(), String>)
        requires
            old(self).wf(),
            old(self).saving,
        ensures
            final(self).wf(),
            !final(self).saving,
            match result {
                Ok(()) => final(self).confirmed == Some(!old(self).confirmed->0)
                    && final(self).error is None,
                Err(e) => final(self).confirmed == old(self).confirmed
                    && final(self).error == Some(e),
            },
    {
        let current = match self.confirmed {
            Some(c) => c,
            None => return,
        };
        match result {
            Ok(()) => {
                self.confirmed = Some(!current);
                self.error = None;
            },
            Err(e) => {
                self.shown = Some(current);
                self.error = Some(e);
            },
        }
        self.saving = false;
    }
}

/// Whenever no save is in flight, the switch shows the value the server
/// holds.
pub proof fn lemma_scroll_stops_settles(s: ScrollStopsState)
    requires
        s.wf(),
        !s.saving,
    ensures
        s.shown == s.confirmed,
{
}

// ── Last synced ───────────────────────────────────────────────────

/// "just now" under a minute, then whole minutes, hours, or days ago; a
/// time in the future reads as now.
pub open spec fn relative_time_of(delta: int) -> Seq<char> {
    let d = if delta < 0 {
        0
    } else {
        delta
    };
    if d <= 59 {
        "just now"@
    } else if d <= 3599 {
        int_digits(d / 60) + "m ago"@
    } else if d <= 86399 {
        int_digits(d / 3600) + "h ago"@
    } else {
        int_digits(d / 86400) + "d ago"@
    }
}

/// How long ago `at` was, on the clock `now`.
pub fn relative_time(now: i64, at: i64) -> (out: String)
    requires
        i64::MIN <= now - at <= i64::MAX,
    ensures
        out@ == relative_time_of(now - at),
{
    let raw = now - at;
    let delta = if raw < 0 {
        0
    } else {
        raw
    };
    if delta <= 59 {
        return string_of("just now");
    }
    let mut out = String::new();
    if delta <= 3599 {
        push_i64(&mut out, delta / 60);
        push_str(&mut out, "m ago");
    } else if delta <= 86399 {
        push_i64(&mut out, delta / 3600);
        push_str(&mut out, "h ago");
    } else {
        push_i64(&mut out, delta / 86400);
        push_str(&mut out, "d ago");
    }
    out
}

/// The sync line's headline: connectivity, and how many queued changes
/// still wait for the server.
pub open spec fn sync_headline_of(online: bool, pending: nat) -> Seq<char> {
    if online {
        if pending == 0 {
            "Synced"@
        } else {
            "Syncing \u{2014} "@ + nat_digits(pending) + " pending"@
        }
    } else {
        if pending == 0 {
            "Offline"@
        } else {
            "Offline \u{2014} "@ + nat_digits(pending) + " changes waiting to sync"@
        }
    }
}

/// The sync status line of the downloads tab: the connectivity dot and
/// headline, the count of changes the server rejected for good (when any),
/// and how long ago the last sync finished (when one did).
pub open spec fn sync_status_of(
    online: bool,
    pending: nat,
    dropped: nat,
    last_sync: Option<i64>,
    now: i64,
) -> Seq<char> {
    "<div class=\"m-account-sync\" data-testid=\"account-sync-status\"><div class=\"m-account-sync-line\"><span class=\""@
        + (if online {
        "m-account-sync-dot on"@
    } else {
        "m-account-sync-dot"@
    }) + "\" aria-hidden=\"true\"></span>"@ + sync_headline_of(online, pending) + "</div>"@ + (
    if dropped > 0 {
        "<div class=\"m-account-sync-dropped\">"@ + nat_digits(dropped)
            + " changes couldn&#39;t sync and were discarded.</div>"@
    } else {
        Seq::empty()
    }) + (match last_sync {
        Some(at) => "<div class=\"m-account-sync-when mono\">Last synced "@ + relative_time_of(
            now - at,
        ) + "</div>"@,
        None => Seq::empty(),
    }) + "</div>"@
}

/// The sync line's headline.
pub fn sync_headline(online: bool, pending_ops: u64) -> (out: String)
    ensures
        out@ == sync_headline_of(online, pending_ops as nat),
{
    if pending_ops == 0 {
        if online {
            string_of("Synced")
        } else {
            string_of("Offline")
        }
    } else {
        let mut out = String::new();
        if online {
            push_str(&mut out, "Syncing \u{2014} ");
            push_u64(&mut out, pending_ops);
            push_str(&mut out, " pending");
        } else {
            push_str(&mut out, "Offline \u{2014} ");
            push_u64(&mut out, pending_ops);
            push_str(&mut out, " changes waiting to sync");
        }
        out
    }
}

/// Markup of the sync status line, read on the clock `now`.
pub fn sync_status_row(
    online: bool,
    pending_ops: u64,
    dropped_ops: u64,
    last_sync: Option<i64>,
    now: i64,
) -> (html: String)
    requires
        last_sync matches Some(at) ==> i64::MIN <= now - at <= i64::MAX,
    ensures
        html@ == sync_status_of(online, pending_ops as nat, dropped_ops as nat, last_sync, now),
{
    let mut out = string_of(
        "<div class=\"m-account-sync\" data-testid=\"account-sync-status\"><div class=\"m-account-sync-line\"><span class=\"",
    );
    if online {
        push_str(&mut out, "m-account-sync-dot on");
    } else {
        push_str(&mut out, "m-account-sync-dot");
    }
    push_str(&mut out, "\" aria-hidden=\"true\"></span>");
    let head = sync_headline(online, pending_ops);
    push_str(&mut out, head.as_str());
    push_str(&mut out, "</div>");
    if dropped_ops > 0 {
        push_str(&mut out, "<div class=\"m-account-sync-dropped\">");
        push_u64(&mut out, dropped_ops);
        push_str(&mut out, " changes couldn&#39;t sync and were discarded.</div>");
    }
    match last_sync {
        Some(at) => {
            push_str(&mut out, "<div class=\"m-account-sync-when mono\">Last synced ");
            let ago = relative_time(now, at);
            push_str(&mut out, ago.as_str());
            push_str(&mut out, "</div>");
        },
        None => {},
    }
    push_str(&mut out, "</div>");
    assert(out@ =~= sync_status_of(online, pending_ops as nat, dropped_ops as nat, last_sync, now));
    out
}

// ── Hidden formats ────────────────────────────────────────────────

/// Every name sorts strictly before the next: sorted, no name twice.
pub open spec fn strictly_sorted(s: Seq<Seq<char>>) -> bool {
    forall|i: int, j: int| 0 <= i < j < s.len() ==> seq_lt(#[trigger] s[i], #[trigger] s[j])
}

/// The formats the reader has ticked to hide, kept as a set in name order
/// (the order a `BTreeSet<String>` walks them).
#[derive(Clone, Debug)]
pub struct FormatSelection {
    pub items: Vec<String>,
}

impl FormatSelection {
    /// The ticked names, in order.
    pub open spec fn names(self) -> Seq<Seq<char>> {
        self.items@.map_values(|s: String| s@)
    }

    /// Sorted, no name twice.
    pub open spec fn wf(self) -> bool {
        strictly_sorted(self.names())
    }

    /// Nothing ticked.
    pub fn new() -> (s: Self)
        ensures
            s.wf(),
            s.names().len() == 0,
    {
        FormatSelection { items: Vec::new() }
    }

    /// Whether `fmt` is ticked.
    pub fn contains(&self, fmt: &str) -> (r: bool)
        ensures
            r == self.names().contains(fmt@),
    {
        let f = to_chars(fmt);
        let mut i: usize = 0;
        while i < self.items.len()
            invariant
                i <= self.items@.len(),
                f@ == fmt@,
                forall|k: int| 0 <= k < i ==> self.names()[k] != fmt@,
            decreases self.items.len() - i,
        {
            let cur = to_chars(self.items[i].as_str());
            if chars_eq(&cur, &f) {
                assert(self.names()[i as int] == fmt@);
                return true;
            }
            i += 1;
        }
        false
    }

    /// Ticks `fmt`; ticking a ticked name changes nothing.
    pub fn insert(&mut self, fmt: String)
        requires
            old(self).wf(),
        ensures
            final(self).wf(),
            forall|x: Seq<char>|
                #[trigger] final(self).names().contains(x) <==> (old(self).names().contains(x) || x
                    == fmt@),
    {
        let f = to_chars(fmt.as_str());
        let n = self.items.len();
        let ghost old_names = self.names();
        let mut i: usize = 0;
        loop
            invariant
                i <= n == self.items@.len(),
                self.names() == old_names,
                f@ == fmt@,
                forall|k: int| 0 <= k < i ==> seq_lt(#[trigger] old_names[k], fmt@),
            ensures
                i <= n,
                self.names() == old_names,
                forall|k: int| 0 <= k < i ==> seq_lt(#[trigger] old_names[k], fmt@),
                i < n ==> !seq_lt(old_names[i as int], fmt@),
            decreases n - i,
        {
            if i == n {
                break;
            }
            let cur = to_chars(self.items[i].as_str());
            if !chars_lt(&cur, &f) {
                break;
            }
            i += 1;
        }
        if i < n {
            let cur = to_chars(self.items[i].as_str());
            if chars_eq(&cur, &f) {
                proof {
                    assert forall|x: Seq<char>| #[trigger] self.names().contains(x) <==> (
                    old_names.contains(x) || x == fmt@) by {
                        if x == fmt@ {
                            assert(old_names[i as int] == x);
                        }
                    }
                }
                return;
            }
            proof {
                lemma_seq_lt_total(old_names[i as int], fmt@);
            }
        }
        proof {
            assert forall|k: int| i <= k < n implies seq_lt(fmt@, #[trigger] old_names[k]) by {
                if k > i {
                    lemma_seq_lt_transitive(fmt@, old_names[i as int], old_names[k]);
                }
            }
        }
        self.items.insert(i, fmt);
        proof {
            let nn = self.names();
            assert(nn =~= old_names.insert(i as int, f@));
            old_names.insert_ensures(i as int, f@);
            assert forall|a: int, b: int| 0 <= a < b < nn.len() implies seq_lt(
                #[trigger] nn[a],
                #[trigger] nn[b],
            ) by {
                if b < i {
                } else if b == i {
                } else if a < i {
                    assert(nn[b] == old_names[b - 1]);
                } else if a == i {
                    assert(nn[b] == old_names[b - 1]);
                } else {
                    assert(nn[a] == old_names[a - 1]);
                    assert(nn[b] == old_names[b - 1]);
                }
            }
            assert forall|x: Seq<char>| #[trigger] nn.contains(x) <==> (old_names.contains(x) || x
                == fmt@) by {
                if nn.contains(x) {
                    let k = choose|k: int| 0 <= k < nn.len() && nn[k] == x;
                    if k < i {
                        assert(old_names[k] == x);
                    } else if k > i {
                        assert(old_names[k - 1] == x);
                    }
                }
                if old_names.contains(x) {
                    let k = choose|k: int| 0 <= k < old_names.len() && old_names[k] == x;
                    if k < i {
                        assert(nn[k] == x);
                    } else {
                        assert(nn[k + 1] == x);
                    }
                }
                if x == fmt@ {
                    assert(nn[i as int] == x);
                }
            }
        }
    }

    /// Unticks `fmt`; unticking an unticked name changes nothing.
    pub fn remove(&mut self, fmt: &str)
        requires
            old(self).wf(),
        ensures
            final(self).wf(),
            forall|x: Seq<char>|
                #[trigger] final(self).names().contains(x) <==> (old(self).names().contains(x) && x
                    != fmt@),
    {
        let f = to_chars(fmt);
        let ghost old_names = self.names();
        let mut i: usize = 0;
        while i < self.items.len()
            invariant
                i <= self.items@.len(),
                self.names() == old_names,
                old_names == old(self).names(),
                strictly_sorted(old_names),
                f@ == fmt@,
                forall|k: int| 0 <= k < i ==> old_names[k] != fmt@,
            decreases self.items.len() - i,
        {
            let cur = to_chars(self.items[i].as_str());
            if chars_eq(&cur, &f) {
                self.items.remove(i);
                proof {
                    let nn = self.names();
                    assert(nn =~= old_names.remove(i as int));
                    old_names.remove_ensures(i as int);
                    assert forall|a: int, b: int| 0 <= a < b < nn.len() implies seq_lt(
                        #[trigger] nn[a],
                        #[trigger] nn[b],
                    ) by {
                        if a >= i {
                            assert(nn[a] == old_names[a + 1]);
                        }
                        if b >= i {
                            assert(nn[b] == old_names[b + 1]);
                        }
                    }
                    assert forall|x: Seq<char>| #[trigger] nn.contains(x) <==> (
                    old_names.contains(x) && x != fmt@) by {
                        if nn.contains(x) {
                            let k = choose|k: int| 0 <= k < nn.len() && nn[k] == x;
                            if k < i {
                                assert(old_names[k] == x);
                                assert(seq_lt(old_names[k], old_names[i as int]));
                                lemma_seq_lt_irreflexive(x);
                            } else {
                                assert(old_names[k + 1] == x);
                                assert(seq_lt(old_names[i as int], old_names[k + 1]));
                                lemma_seq_lt_irreflexive(x);
                            }
                        }
                        if old_names.contains(x) && x != fmt@ {
                            let k = choose|k: int| 0 <= k < old_names.len() && old_names[k] == x;
                            if k < i {
                                assert(nn[k] == x);
                            } else {
                                assert(k != i);
                                assert(nn[k - 1] == x);
                            }
                        }
                    }
                }
                return;
            }
            i += 1;
        }
        proof {
            assert forall|x: Seq<char>| #[trigger] self.names().contains(x) <==> (
            old_names.contains(x) && x != fmt@) by {
                if x == fmt@ && old_names.contains(x) {
                    let k = choose|k: int| 0 <= k < old_names.len() && old_names[k] == x;
                    assert(old_names[k] != fmt@);
                }
            }
        }
    }

    /// A checkbox change: ticking adds the format, unticking removes it.
    pub fn toggle(&mut self, fmt: String, checked: bool)
        requires
            old(self).wf(),
        ensures
            final(self).wf(),
            forall|x: Seq<char>|
                #[trigger] final(self).names().contains(x) <==> if checked {
                    old(self).names().contains(x) || x == fmt@
                } else {
                    old(self).names().contains(x) && x != fmt@
                },
    {
        if checked {
            self.insert(fmt);
        } else {
            self.remove(fmt.as_str());
        }
    }

    /// The selection seeded from the formats the viewer has saved.
    pub fn from_saved(saved: &Vec<String>) -> (s: Self)
        ensures
            s.wf(),
            forall|x: Seq<char>|
                #[trigger] s.names().contains(x) <==> saved@.map_values(|f: String| f@).contains(x),
    {
        let mut s = FormatSelection::new();
        let ghost views = saved@.map_values(|f: String| f@);
        let mut i: usize = 0;
        while i < saved.len()
            invariant
                i <= saved@.len(),
                views == saved@.map_values(|f: String| f@),
                s.wf(),
                forall|x: Seq<char>|
                    #[trigger] s.names().contains(x) <==> views.take(i as int).contains(x),
            decreases saved.len() - i,
        {
            let ghost before = s.names();
            s.insert(saved[i].clone());
            proof {
                assert(views.take(i as int + 1) =~= views.take(i as int).push(views[i as int]));
                assert forall|x: Seq<char>| #[trigger] s.names().contains(x) <==> views.take(
                    i as int + 1,
                ).contains(x) by {
                    let t = views.take(i as int);
                    if t.push(views[i as int]).contains(x) {
                        let k = choose|k: int| 0 <= k < t.len() + 1 && t.push(views[i as int])[k]
                            == x;
                        if k < t.len() {
                            assert(t[k] == x);
                        }
                    }
                    if t.contains(x) {
                        let k = choose|k: int| 0 <= k < t.len() && t[k] == x;
                        assert(t.push(views[i as int])[k] == x);
                    }
                    if x == views[i as int] {
                        assert(t.push(views[i as int])[t.len() as int] == x);
                    }
                }
            }
            i += 1;
        }
        proof {
            assert(views.take(saved.len() as int) =~= views);
        }
        s
    }

    /// The ticked formats, in name order: what a save sends.
    pub fn formats(&self) -> (out: Vec<String>)
        ensures
            out@.map_values(|f: String| f@) == self.names(),
    {
        let mut out: Vec<String> = Vec::new();
        let mut i: usize = 0;
        while i < self.items.len()
            invariant
                i <= self.items@.len(),
                out@.map_values(|f: String| f@) == self.names().take(i as int),
            decreases self.items.len() - i,
        {
            let c = self.items[i].clone();
            let ghost before = out@;
            out.push(c);
            proof {
                assert(out@ =~= before.push(c));
                assert(c@ == self.names()[i as int]);
                assert(out@.map_values(|f: String| f@) =~= before.map_values(|f: String| f@).push(
                    c@,
                ));
                assert(self.names().take(i as int + 1) =~= self.names().take(i as int).push(c@));
                assert(out@.map_values(|f: String| f@) =~= self.names().take(i as int + 1));
            }
            i += 1;
        }
        proof {
            assert(self.names().take(self.items.len() as int) =~= self.names());
        }
        out
    }
}

/// Law: ticking a format that was not ticked and then unticking it leaves
/// exactly the selection there was, whatever the two calls did in between
/// to the order they hold it in.
pub proof fn lemma_toggle_on_then_off_restores(
    before: FormatSelection,
    ticked: FormatSelection,
    after: FormatSelection,
    fmt: Seq<char>,
)
    requires
        !before.names().contains(fmt),
        forall|x: Seq<char>|
            #[trigger] ticked.names().contains(x) <==> (before.names().contains(x) || x == fmt),
        forall|x: Seq<char>|
            #[trigger] after.names().contains(x) <==> (ticked.names().contains(x) && x != fmt),
    ensures
        forall|x: Seq<char>| #[trigger] after.names().contains(x) <==> before.names().contains(x),
{
    assert forall|x: Seq<char>| #[trigger] after.names().contains(x) <==> before.names().contains(
        x,
    ) by {
        if x == fmt {
            assert(!after.names().contains(x));
        } else {
            assert(after.names().contains(x) == ticked.names().contains(x));
            assert(ticked.names().contains(x) == before.names().contains(x));
        }
    }
}

/// Law: two well-formed selections with the same names hold them in the
/// same order — the selection is a set, and its order is the names' order.
pub proof fn lemma_selection_order_is_canonical(a: FormatSelection, b: FormatSelection)
    requires
        a.wf(),
        b.wf(),
        forall|x: Seq<char>| #[trigger] a.names().contains(x) <==> b.names().contains(x),
    ensures
        a.names() == b.names(),
{
    lemma_sorted_same_members_equal(a.names(), b.names());
}

proof fn lemma_sorted_same_members_equal(a: Seq<Seq<char>>, b: Seq<Seq<char>>)
    requires
        strictly_sorted(a),
        strictly_sorted(b),
        forall|x: Seq<char>| #[trigger] a.contains(x) <==> b.contains(x),
    ensures
        a == b,
    decreases a.len() + b.len(),
{
    if a.len() == 0 {
        if b.len() > 0 {
            assert(b.contains(b[0]));
            assert(a.contains(b[0]));
            let k = choose|k: int| 0 <= k < a.len() && a[k] == b[0];
            assert(false);
        }
        assert(a =~= b);
    } else if b.len() == 0 {
        assert(a.contains(a[0]));
    } else {
        // The smallest name leads both lists.
        assert(a.contains(a[0]));
        assert(b.contains(a[0]));
        assert(b.contains(b[0]));
        assert(a.contains(b[0]));
        let i = choose|i: int| 0 <= i < b.len() && b[i] == a[0];
        let j = choose|j: int| 0 <= j < a.len() && a[j] == b[0];
        if i > 0 {
            assert(seq_lt(b[0], b[i]));
            if j > 0 {
                assert(seq_lt(a[0], a[j]));
                lemma_seq_lt_asymmetric(a[0], b[0]);
            } else {
                lemma_seq_lt_irreflexive(b[0]);
            }
        }
        assert(a[0] == b[0]);
        let ra = a.drop_first();
        let rb = b.drop_first();
        assert forall|x: Seq<char>| #[trigger] ra.contains(x) <==> rb.contains(x) by {
            if ra.contains(x) {
                let k = choose|k: int| 0 <= k < ra.len() && ra[k] == x;
                assert(a[k + 1] == x);
                assert(seq_lt(a[0], x));
                assert(a.contains(x));
                let l = choose|l: int| 0 <= l < b.len() && b[l] == x;
                if l == 0 {
                    lemma_seq_lt_irreflexive(x);
                }
                assert(rb[l - 1] == x);
            }
            if rb.contains(x) {
                let k = choose|k: int| 0 <= k < rb.len() && rb[k] == x;
                assert(b[k + 1] == x);
                assert(seq_lt(b[0], x));
                assert(b.contains(x));
                assert(a.contains(x));
                let l = choose|l: int| 0 <= l < a.len() && a[l] == x;
                if l == 0 {
                    lemma_seq_lt_irreflexive(x);
                }
                assert(ra[l - 1] == x);
            }
        }
        assert forall|p: int, q: int| 0 <= p < q < ra.len() implies seq_lt(#[trigger] ra[p], #[trigger] ra[q]) by {
            assert(ra[p] == a[p + 1] && ra[q] == a[q + 1]);
        }
        assert forall|p: int, q: int| 0 <= p < q < rb.len() implies seq_lt(#[trigger] rb[p], #[trigger] rb[q]) by {
            assert(rb[p] == b[p + 1] && rb[q] == b[q + 1]);
        }
        lemma_sorted_same_members_equal(ra, rb);
        assert(a =~= seq![a[0]] + ra);
        assert(b =~= seq![b[0]] + rb);
    }
}

/// The names of `names` that are not in `known`, in order.
pub open spec fn unknown_of(names: Seq<Seq<char>>, known: Seq<Seq<char>>) -> Seq<Seq<char>>
    decreases names.len(),
{
    if names.len() == 0 {
        Seq::empty()
    } else {
        let rest = unknown_of(names.drop_last(), known);
        if known.contains(names.last()) {
            rest
        } else {
            rest.push(names.last())
        }
    }
}

impl FormatSelection {
    /// Ticked formats outside the known vocabulary, in name order: listed
    /// after the known ones so a saved token can always be unticked.
    pub fn unknown_saved(&self, known: &[&str]) -> (out: Vec<String>)
        ensures
            out@.map_values(|f: String| f@) == unknown_of(
                self.names(),
                known@.map_values(|k: &str| k@),
            ),
    {
        let ghost kv = known@.map_values(|k: &str| k@);
        let mut out: Vec<String> = Vec::new();
        let mut i: usize = 0;
        while i < self.items.len()
            invariant
                i <= self.items@.len(),
                kv == known@.map_values(|k: &str| k@),
                out@.map_values(|f: String| f@) == unknown_of(self.names().take(i as int), kv),
            decreases self.items.len() - i,
        {
            let cur = to_chars(self.items[i].as_str());
            let mut found = false;
            let mut j: usize = 0;
            while j < known.len()
                invariant
                    j <= known@.len(),
                    kv == known@.map_values(|k: &str| k@),
                    cur@ == self.names()[i as int],
                    found == kv.take(j as int).contains(cur@),
                decreases known.len() - j,
            {
                let k = to_chars(known[j]);
                let same = chars_eq(&cur, &k);
                proof {
                    let t = kv.take(j as int);
                    assert(kv.take(j as int + 1) =~= t.push(kv[j as int]));
                    if t.push(kv[j as int]).contains(cur@) && !t.contains(cur@) {
                        let w = choose|w: int| 0 <= w < t.len() + 1 && t.push(kv[j as int])[w]
                            == cur@;
                        if w < t.len() {
                            assert(t[w] == cur@);
                        }
                    }
                    if t.contains(cur@) {
                        let w = choose|w: int| 0 <= w < t.len() && t[w] == cur@;
                        assert(t.push(kv[j as int])[w] == cur@);
                    }
                    if same {
                        assert(t.push(kv[j as int])[t.len() as int] == cur@);
                    }
                }
                found = found || same;
                j += 1;
            }
            proof {
                assert(kv.take(known.len() as int) =~= kv);
                assert(self.names().take(i as int + 1).drop_last() =~= self.names().take(i as int));
            }
            if !found {
                out.push(self.items[i].clone());
            }
            proof {
                assert(out@.map_values(|f: String| f@) =~= unknown_of(
                    self.names().take(i as int + 1),
                    kv,
                ));
            }
            i += 1;
        }
        proof {
            assert(self.names().take(self.items.len() as int) =~= self.names());
        }
        out
    }
}

// ── Kindle address ────────────────────────────────────────────────

/// `o` holds a message reading `text`.
pub open spec fn says(o: Option<String>, text: Seq<char>) -> bool {
    o matches Some(m) && m@ == text
}

/// The Send-to-Kindle address form.
#[derive(Clone, Debug)]
pub struct KindleEmailState {
    pub email_input: String,
    pub saved_email: Option<String>,
    pub msg: Option<String>,
    pub msg_is_error: bool,
    pub in_flight: bool,
}

impl KindleEmailState {
    /// Before the saved address arrives: an empty form.
    pub fn new() -> (s: Self)
        ensures
            s.email_input@.len() == 0,
            s.saved_email is None,
            s.msg is None,
            !s.msg_is_error,
            !s.in_flight,
    {
        KindleEmailState {
            email_input: String::new(),
            saved_email: None,
            msg: None,
            msg_is_error: false,
            in_flight: false,
        }
    }

    /// Whether an address is configured.
    pub fn connected(&self) -> (r: bool)
        ensures
            r == self.saved_email is Some,
    {
        self.saved_email.is_some()
    }

    /// The viewer's saved address arrived: it fills the field and counts
    /// as configured; no address leaves the form as it is.
    pub fn hydrate(&mut self, kindle_email: Option<String>)
        ensures
            match kindle_email {
                Some(e) => final(self).email_input@ == e@ && final(self).saved_email == Some(e)
                    && final(self).msg == old(self).msg && final(self).msg_is_error
                    == old(self).msg_is_error && final(self).in_flight == old(self).in_flight,
                None => *final(self) == *old(self),
            },
    {
        if let Some(e) = kindle_email {
            self.email_input = e.clone();
            self.saved_email = Some(e);
        }
    }

    /// The field was edited.
    pub fn on_input(&mut self, value: String)
        ensures
            final(self).email_input == value,
            final(self).saved_email == old(self).saved_email,
            final(self).msg == old(self).msg,
            final(self).msg_is_error == old(self).msg_is_error,
            final(self).in_flight == old(self).in_flight,
    {
        self.email_input = value;
    }

    /// The form was submitted. A blank address is refused on the spot;
    /// otherwise the save starts and the trimmed address is what to send.
    pub fn begin_save(&mut self) -> (send: Option<String>)
        ensures
            final(self).email_input == old(self).email_input,
            final(self).saved_email == old(self).saved_email,
            trim(old(self).email_input@).len() == 0 ==> send is None && says(
                final(self).msg,
                "Enter a Kindle email to save."@,
            ) && final(self).msg_is_error && final(self).in_flight == old(self).in_flight,
            trim(old(self).email_input@).len() > 0 ==> (send matches Some(v) && v@ == trim(
                old(self).email_input@,
            )) && final(self).in_flight && final(self).msg == old(self).msg
                && final(self).msg_is_error == old(self).msg_is_error,
    {
        let v = to_chars(self.email_input.as_str());
        let t = trimmed(&v);
        if t.len() == 0 {
            self.msg = Some(string_of("Enter a Kindle email to save."));
            self.msg_is_error = true;
            return None;
        }
        self.in_flight = true;
        Some(from_chars(&t))
    }

    /// The save of `value` came back.
    pub fn finish_save(&mut self, value: String, ok: bool)
        ensures
            !final(self).in_flight,
            final(self).email_input == old(self).email_input,
            ok ==> final(self).saved_email == Some(value) && says(
                final(self).msg,
                "Kindle email saved."@,
            ) && !final(self).msg_is_error,
            !ok ==> final(self).saved_email == old(self).saved_email && says(
                final(self).msg,
                "Failed to save Kindle email \u{2014} check the address."@,
            ) && final(self).msg_is_error,
    {
        if ok {
            self.saved_email = Some(value);
            self.msg = Some(string_of("Kindle email saved."));
            self.msg_is_error = false;
        } else {
            self.msg = Some(string_of("Failed to save Kindle email \u{2014} check the address."));
            self.msg_is_error = true;
        }
        self.in_flight = false;
    }

    /// The clear button was pressed: the request starts.
    pub fn begin_clear(&mut self)
        ensures
            final(self).in_flight,
            final(self).email_input == old(self).email_input,
            final(self).saved_email == old(self).saved_email,
            final(self).msg == old(self).msg,
            final(self).msg_is_error == old(self).msg_is_error,
    {
        self.in_flight = true;
    }

    /// The clear came back: on success the field empties and no address is
    /// configured.
    pub fn finish_clear(&mut self, ok: bool)
        ensures
            !final(self).in_flight,
            ok ==> final(self).email_input@.len() == 0 && final(self).saved_email is None && says(
                final(self).msg,
                "Kindle email cleared."@,
            ) && !final(self).msg_is_error,
            !ok ==> final(self).email_input == old(self).email_input && final(self).saved_email
                == old(self).saved_email && says(final(self).msg, "Failed to clear Kindle email."@)
                && final(self).msg_is_error,
    {
        if ok {
            self.email_input = String::new();
            self.saved_email = None;
            self.msg = Some(string_of("Kindle email cleared."));
            self.msg_is_error = false;
        } else {
            self.msg = Some(string_of("Failed to clear Kindle email."));
            self.msg_is_error = true;
        }
        self.in_flight = false;
    }
}

// ── Change password ───────────────────────────────────────────────

/// The change-password form.
#[derive(Clone, Debug)]
pub struct ChangePasswordState {
    pub current: String,
    pub new_password: String,
    pub msg: Option<String>,
    pub msg_is_error: bool,
    pub in_flight: bool,
}

impl ChangePasswordState {
    /// An empty form.
    pub fn new() -> (s: Self)
        ensures
            s.current@.len() == 0,
            s.new_password@.len() == 0,
            s.msg is None,
            !s.msg_is_error,
            !s.in_flight,
    {
        ChangePasswordState {
            current: String::new(),
            new_password: String::new(),
            msg: None,
            msg_is_error: false,
            in_flight: false,
        }
    }

    /// The current-password field was edited; any message goes away.
    pub fn on_current_input(&mut self, value: String)
        ensures
            final(self).current == value,
            final(self).new_password == old(self).new_password,
            final(self).msg is None,
            final(self).msg_is_error == old(self).msg_is_error,
            final(self).in_flight == old(self).in_flight,
    {
        self.current = value;
        self.msg = None;
    }

    /// The new-password field was edited; any message goes away.
    pub fn on_new_input(&mut self, value: String)
        ensures
            final(self).new_password == value,
            final(self).current == old(self).current,
            final(self).msg is None,
            final(self).msg_is_error == old(self).msg_is_error,
            final(self).in_flight == old(self).in_flight,
    {
        self.new_password = value;
        self.msg = None;
    }

    /// The form was submitted: refused while either field is empty,
    /// otherwise the request starts with the two passwords as typed.
    pub fn begin_submit(&mut self) -> (send: Option<(String, String)>)
        ensures
            final(self).current == old(self).current,
            final(self).new_password == old(self).new_password,
            (old(self).current@.len() == 0 || old(self).new_password@.len() == 0) ==> send is None
                && says(final(self).msg, "Enter your current and new password."@)
                && final(self).msg_is_error && final(self).in_flight == old(self).in_flight,
            (old(self).current@.len() > 0 && old(self).new_password@.len() > 0) ==> (send matches Some(
                p,
            ) && p.0@ == old(self).current@ && p.1@ == old(self).new_password@)
                && final(self).in_flight && final(self).msg == old(self).msg
                && final(self).msg_is_error == old(self).msg_is_error,
    {
        if self.current.as_str().unicode_len() == 0 || self.new_password.as_str().unicode_len()
            == 0 {
            self.msg = Some(string_of("Enter your current and new password."));
            self.msg_is_error = true;
            return None;
        }
        self.in_flight = true;
        Some((self.current.clone(), self.new_password.clone()))
    }

    /// The server answered: success empties both fields and confirms; a
    /// refusal keeps the form as typed and shows the server's message.
    pub fn finish_submit(&mut self, result: Result<(), String>)
        ensures
            !final(self).in_flight,
            match result {
                Ok(()) => final(self).current@.len() == 0 && final(self).new_password@.len() == 0
                    && says(final(self).msg, "Password changed."@) && !final(self).msg_is_error,
                Err(e) => final(self).current == old(self).current && final(self).new_password
                    == old(self).new_password && final(self).msg == Some(e)
                    && final(self).msg_is_error,
            },
    {
        match result {
            Ok(()) => {
                self.current = String::new();
                self.new_password = String::new();
                self.msg = Some(string_of("Password changed."));
                self.msg_is_error = false;
            },
            Err(e) => {
                self.msg = Some(e);
                self.msg_is_error = true;
            },
        }
        self.in_flight = false;
    }
}

} // verus!
