//! The reading-goals card: one annual books target and two standing daily
//! targets (pages, minutes), read at a glance and edited together. A save
//! writes only the goals whose value moved, and reports by name the ones
//! whose write failed.

use vstd::prelude::*;
use crate::markup::{escaped, push_escaped};
use crate::num::{int_digits, parse_i64, parse_i64_spec, push_i64};
use crate::profile::{opt_view, status_markup};
use crate::text::{push_str, string_of, to_chars, trim, trimmed};

verus! {

/// Largest annual books target the server accepts.
pub const MAX_GOAL_TARGET: i64 = 1000;

/// Largest daily pages target the server accepts.
pub const MAX_DAILY_PAGES: i64 = 2000;

/// Largest daily minutes target the server accepts: a day's worth.
pub const MAX_DAILY_MINUTES: i64 = 1440;

/// The goals in the order a reader sets them: the year, then the two
/// dailies that feed it.
pub const GOAL_COUNT: usize = 3;

/// The label of goal `i`.
pub open spec fn field_label(i: int) -> Seq<char> {
    if i == 0 {
        "Books this year"@
    } else if i == 1 {
        "Pages a day"@
    } else {
        "Minutes a day"@
    }
}

/// The unit goal `i` counts.
pub open spec fn field_unit(i: int) -> Seq<char> {
    if i == 0 {
        "book"@
    } else if i == 1 {
        "page"@
    } else {
        "minute"@
    }
}

/// The largest target goal `i` takes.
pub open spec fn field_max(i: int) -> int {
    if i == 0 {
        MAX_GOAL_TARGET as int
    } else if i == 1 {
        MAX_DAILY_PAGES as int
    } else {
        MAX_DAILY_MINUTES as int
    }
}

/// The test id stem of goal `i`.
pub open spec fn field_testid(i: int) -> Seq<char> {
    if i == 0 {
        "goal-books"@
    } else if i == 1 {
        "goal-pages"@
    } else {
        "goal-minutes"@
    }
}

/// The hint under goal `i`'s field.
pub open spec fn field_hint(i: int) -> Seq<char> {
    if i == 0 {
        "Counts a book once, the day you finish it."@
    } else if i == 1 {
        "Estimated from how far you move through each book."@
    } else {
        "Reading and listening together, on your own clock."@
    }
}

/// The label of goal `i`.
pub fn goal_label(i: usize) -> (s: &'static str)
    ensures
        s@ == field_label(i as int),
{
    if i == 0 {
        "Books this year"
    } else if i == 1 {
        "Pages a day"
    } else {
        "Minutes a day"
    }
}

/// The unit goal `i` counts.
pub fn goal_unit(i: usize) -> (s: &'static str)
    ensures
        s@ == field_unit(i as int),
{
    if i == 0 {
        "book"
    } else if i == 1 {
        "page"
    } else {
        "minute"
    }
}

/// The largest target goal `i` takes.
pub fn goal_max(i: usize) -> (m: i64)
    ensures
        m == field_max(i as int),
{
    if i == 0 {
        MAX_GOAL_TARGET
    } else if i == 1 {
        MAX_DAILY_PAGES
    } else {
        MAX_DAILY_MINUTES
    }
}

fn goal_testid(i: usize) -> (s: &'static str)
    ensures
        s@ == field_testid(i as int),
{
    if i == 0 {
        "goal-books"
    } else if i == 1 {
        "goal-pages"
    } else {
        "goal-minutes"
    }
}

fn goal_hint(i: usize) -> (s: &'static str)
    ensures
        s@ == field_hint(i as int),
{
    if i == 0 {
        "Counts a book once, the day you finish it."
    } else if i == 1 {
        "Estimated from how far you move through each book."
    } else {
        "Reading and listening together, on your own clock."
    }
}

// ── Drafts ────────────────────────────────────────────────────────

/// A unit noun for `n` of it.
pub open spec fn plural_of(unit: Seq<char>, n: int) -> Seq<char> {
    if n == 1 {
        unit
    } else {
        unit + "s"@
    }
}

/// Pluralize a unit noun: "1 book", "2 books".
pub fn plural(unit: &str, n: i64) -> (out: String)
    ensures
        out@ == plural_of(unit@, n as int),
{
    let mut out = string_of(unit);
    if n != 1 {
        push_str(&mut out, "s");
    }
    out
}

/// What a draft means: a blank field clears the goal; anything else must
/// be a whole number from 1 to `max`.
pub open spec fn parse_draft_spec(draft: Seq<char>, unit: Seq<char>, max: int) -> Result<Option<int>, Seq<char>> {
    let t = trim(draft);
    if t.len() == 0 {
        Ok(None)
    } else {
        match parse_i64_spec(t) {
            None => Err("Enter a whole number of "@ + plural_of(unit, 2) + "."@),
            Some(v) => if 1 <= v <= max {
                Ok(Some(v))
            } else {
                Err("Pick a target between 1 and "@ + int_digits(max) + "."@)
            },
        }
    }
}

/// A parse result's view.
pub open spec fn parsed_view(r: Result<Option<i64>, String>) -> Result<Option<int>, Seq<char>> {
    match r {
        Ok(Some(v)) => Ok(Some(v as int)),
        Ok(None) => Ok(None),
        Err(e) => Err(e@),
    }
}

/// Parse and bound one draft: `Ok(None)` for a blank (a deliberate
/// clear), `Ok(Some(n))` for a target in range, else the message to show.
pub fn parse_draft(draft: &str, unit: &str, max: i64) -> (r: Result<Option<i64>, String>)
    ensures
        parsed_view(r) == parse_draft_spec(draft@, unit@, max as int),
{
    let v = to_chars(draft);
    let t = trimmed(&v);
    if t.len() == 0 {
        return Ok(None);
    }
    match parse_i64(&t) {
        None => {
            let mut e = string_of("Enter a whole number of ");
            let units = plural(unit, 2);
            push_str(&mut e, units.as_str());
            push_str(&mut e, ".");
            Err(e)
        },
        Some(target) => {
            if 1 <= target && target <= max {
                Ok(Some(target))
            } else {
                let mut e = string_of("Pick a target between 1 and ");
                push_i64(&mut e, max);
                push_str(&mut e, ".");
                Err(e)
            }
        },
    }
}

/// Read-mode text of a goal: the target with its unit, or that none is
/// set.
pub open spec fn target_summary_spec(target: Option<i64>, unit: Seq<char>) -> Seq<char> {
    match target {
        Some(n) => int_digits(n as int) + " "@ + plural_of(unit, n as int),
        None => "Not set"@,
    }
}

/// Read-mode value for one goal.
pub fn target_summary(target: Option<i64>, unit: &str) -> (out: String)
    ensures
        out@ == target_summary_spec(target, unit@),
{
    match target {
        Some(n) => {
            let mut out = String::new();
            push_i64(&mut out, n);
            push_str(&mut out, " ");
            let u = plural(unit, n);
            push_str(&mut out, u.as_str());
            out
        },
        None => string_of("Not set"),
    }
}

/// The writes a save owes among the first `k` goals: index and new value
/// of each goal whose draft differs from its current target, in order.
pub open spec fn changed_upto(drafts: Seq<Option<i64>>, current: Seq<Option<i64>>, k: int) -> Seq<(usize, Option<i64>)>
    decreases k,
{
    if k <= 0 {
        Seq::empty()
    } else {
        changed_upto(drafts, current, k - 1) + if drafts[k - 1] != current[k - 1] {
            seq![((k - 1) as usize, drafts[k - 1])]
        } else {
            Seq::empty()
        }
    }
}

fn changed_between(drafts: &Vec<Option<i64>>, current: &Vec<Option<i64>>) -> (out: Vec<(usize, Option<i64>)>)
    requires
        drafts.len() == GOAL_COUNT,
        current.len() == GOAL_COUNT,
    ensures
        out@ == changed_upto(drafts@, current@, GOAL_COUNT as int),
{
    let mut out: Vec<(usize, Option<i64>)> = Vec::new();
    let mut i: usize = 0;
    while i < GOAL_COUNT
        invariant
            i <= GOAL_COUNT,
            drafts.len() == GOAL_COUNT,
            current.len() == GOAL_COUNT,
            out@ == changed_upto(drafts@, current@, i as int),
        decreases GOAL_COUNT - i,
    {
        if drafts[i] != current[i] {
            out.push((i, drafts[i]));
        } else {
            assert(out@ + Seq::<(usize, Option<i64>)>::empty() =~= out@);
        }
        i += 1;
    }
    out
}

/// The writes a save should make: index and new value for every goal whose
/// target moved, in field order. A goal the reader didn't touch is never
/// restated.
pub fn changed_updates(drafts: &[Option<i64>; 3], current: &[Option<i64>; 3]) -> (out: Vec<(usize, Option<i64>)>)
    ensures
        out@ == changed_upto(drafts@, current@, GOAL_COUNT as int),
{
    let d = vec![drafts[0], drafts[1], drafts[2]];
    let c = vec![current[0], current[1], current[2]];
    assert(d@ =~= drafts@);
    assert(c@ =~= current@);
    changed_between(&d, &c)
}

/// Law: a save writes exactly the goals that moved — every listed write is
/// a goal whose draft differs from its target, carrying the draft, and
/// every goal that differs is listed.
pub proof fn lemma_changed_updates_exact(drafts: Seq<Option<i64>>, current: Seq<Option<i64>>, k: int)
    requires
        0 <= k <= drafts.len(),
        k <= GOAL_COUNT,
        k <= current.len(),
    ensures
        forall|j: int|
            0 <= j < changed_upto(drafts, current, k).len() ==> {
                let (i, v) = #[trigger] changed_upto(drafts, current, k)[j];
                &&& i < k
                &&& drafts[i as int] != current[i as int]
                &&& v == drafts[i as int]
            },
        forall|i: int|
            0 <= i < k && drafts[i] != current[i] ==> exists|j: int|
                0 <= j < changed_upto(drafts, current, k).len() && (#[trigger] changed_upto(
                    drafts,
                    current,
                    k,
                )[j]).0 == i,
        forall|a: int, b: int|
            0 <= a < b < changed_upto(drafts, current, k).len() ==> (#[trigger] changed_upto(
                drafts,
                current,
                k,
            )[a]).0 < (#[trigger] changed_upto(drafts, current, k)[b]).0,
    decreases k,
{
    if k > 0 {
        lemma_changed_updates_exact(drafts, current, k - 1);
        let prev = changed_upto(drafts, current, k - 1);
        let all = changed_upto(drafts, current, k);
        assert forall|j: int| 0 <= j < prev.len() implies all[j] == prev[j] by {}
        assert forall|i: int| 0 <= i < k && drafts[i] != current[i] implies exists|j: int|
            0 <= j < all.len() && (#[trigger] all[j]).0 == i by {
            if i < k - 1 {
                let j = choose|j: int| 0 <= j < prev.len() && (#[trigger] prev[j]).0 == i;
                assert(all[j] == prev[j]);
            } else {
                assert(((k - 1) as usize) as int == k - 1);
                assert(all[prev.len() as int].0 == i);
            }
        }
    }
}

/// `names` joined with " and ".
pub open spec fn joined(names: Seq<Seq<char>>) -> Seq<char>
    decreases names.len(),
{
    if names.len() == 0 {
        Seq::empty()
    } else if names.len() == 1 {
        names[0]
    } else {
        joined(names.drop_last()) + " and "@ + names.last()
    }
}

/// The status line after a save, and whether it reports a failure.
pub open spec fn save_summary_spec(failed: Seq<Seq<char>>) -> (Seq<char>, bool) {
    if failed.len() == 0 {
        ("Goals saved."@, false)
    } else if failed.len() == 1 {
        ("Saved, except "@ + failed[0] + " \u{2014} try that one again."@, true)
    } else {
        ("Saved, except "@ + joined(failed) + " \u{2014} try those again."@, true)
    }
}

/// The views of a list of names.
pub open spec fn names_view(failed: Seq<&str>) -> Seq<Seq<char>> {
    failed.map_values(|s: &str| s@)
}

/// The status line after a save: what landed, or which goals didn't.
pub fn save_summary(failed: &[&str]) -> (r: (String, bool))
    ensures
        (r.0@, r.1) == save_summary_spec(names_view(failed@)),
{
    let n = failed.len();
    if n == 0 {
        return (string_of("Goals saved."), false);
    }
    let mut out = string_of("Saved, except ");
    let ghost start = out@;
    push_str(&mut out, failed[0]);
    let mut i: usize = 1;
    proof {
        assert(names_view(failed@).take(1) =~= seq![failed@[0]@]);
    }
    while i < n
        invariant
            1 <= i <= n == failed.len(),
            out@ == start + joined(names_view(failed@).take(i as int)),
        decreases n - i,
    {
        push_str(&mut out, " and ");
        push_str(&mut out, failed[i]);
        proof {
            let t = names_view(failed@).take(i as int + 1);
            assert(t.drop_last() =~= names_view(failed@).take(i as int));
            assert(t.last() == failed@[i as int]@);
        }
        i += 1;
    }
    proof {
        assert(names_view(failed@).take(n as int) =~= names_view(failed@));
    }
    if n == 1 {
        push_str(&mut out, " \u{2014} try that one again.");
    } else {
        push_str(&mut out, " \u{2014} try those again.");
    }
    (out, true)
}

// ── Card state ────────────────────────────────────────────────────

/// A target as its field shows it: the number, or empty for none.
pub open spec fn target_text(t: Option<i64>) -> Seq<char> {
    match t {
        Some(n) => int_digits(n as int),
        None => Seq::empty(),
    }
}

fn target_string(t: Option<i64>) -> (s: String)
    ensures
        s@ == target_text(t),
{
    let mut s = String::new();
    match t {
        Some(n) => push_i64(&mut s, n),
        None => {},
    }
    s
}

/// What the goals card holds between renders.
pub struct GoalsCardState {
    /// One draft per goal, in field order; empty means "no target".
    pub drafts: Vec<String>,
    pub editing: bool,
    pub saving: bool,
    pub msg: Option<String>,
    pub msg_is_error: bool,
    /// The targets the server last confirmed, in field order.
    pub targets: Vec<Option<i64>>,
    /// The targets have been read from the server once.
    pub loaded: bool,
}

/// How a press of Save began.
pub enum SaveStart {
    /// A draft did not parse; the card says which and why.
    Invalid,
    /// Nothing moved; the editor closed without writing.
    NothingChanged,
    /// These writes are owed (goal index, new target), in field order.
    Write(Vec<(usize, Option<i64>)>),
}

/// The drafts' parse, goal by goal, as far as they all parse.
pub open spec fn parsed_drafts(drafts: Seq<Seq<char>>) -> Option<Seq<Option<i64>>> {
    if forall|i: int|
        0 <= i < GOAL_COUNT ==> #[trigger] parse_draft_spec(drafts[i], field_unit(i), field_max(i)) is Ok {
        Some(
            Seq::new(
                GOAL_COUNT as nat,
                |i: int|
                    match parse_draft_spec(drafts[i], field_unit(i), field_max(i)) {
                        Ok(Some(v)) => Some(v as i64),
                        _ => None,
                    },
            ),
        )
    } else {
        None
    }
}

/// The first goal whose draft does not parse.
pub open spec fn first_invalid(drafts: Seq<Seq<char>>) -> int {
    choose|i: int|
        0 <= i < GOAL_COUNT && parse_draft_spec(drafts[i], field_unit(i), field_max(i)) is Err && forall|
            j: int,
        | 0 <= j < i ==> #[trigger] parse_draft_spec(drafts[j], field_unit(j), field_max(j)) is Ok
}

/// The drafts' views.
pub open spec fn drafts_view(drafts: Seq<String>) -> Seq<Seq<char>> {
    drafts.map_values(|s: String| s@)
}

/// Targets after a save: each write that landed takes effect.
pub open spec fn landed_targets(targets: Seq<Option<i64>>, pending: Seq<(usize, Option<i64>)>, ok: Seq<bool>) -> Seq<Option<i64>>
    decreases pending.len(),
{
    if pending.len() == 0 {
        targets
    } else {
        let prev = landed_targets(targets, pending.drop_last(), ok);
        let (i, v) = pending.last();
        if ok[pending.len() - 1] {
            prev.update(i as int, v)
        } else {
            prev
        }
    }
}

/// Goals whose write failed, in the order they were written.
pub open spec fn failed_goals(pending: Seq<(usize, Option<i64>)>, ok: Seq<bool>) -> Seq<usize>
    decreases pending.len(),
{
    if pending.len() == 0 {
        Seq::empty()
    } else {
        failed_goals(pending.drop_last(), ok) + if ok[pending.len() - 1] {
            Seq::empty()
        } else {
            seq![pending.last().0]
        }
    }
}

impl GoalsCardState {
    /// Both per-goal lists hold one entry per goal.
    pub open spec fn wf(&self) -> bool {
        self.drafts.len() == GOAL_COUNT && self.targets.len() == GOAL_COUNT
    }

    /// The card as it mounts: no targets known, empty drafts, read mode.
    pub fn new() -> (s: Self)
        ensures
            s.wf(),
            forall|i: int| 0 <= i < GOAL_COUNT ==> (#[trigger] s.drafts@[i])@ == Seq::<char>::empty(),
            forall|i: int| 0 <= i < GOAL_COUNT ==> (#[trigger] s.targets@[i]) is None,
            !s.editing,
            !s.saving,
            s.msg is None,
            !s.loaded,
    {
        GoalsCardState {
            drafts: vec![String::new(), String::new(), String::new()],
            editing: false,
            saving: false,
            msg: None,
            msg_is_error: false,
            targets: vec![None, None, None],
            loaded: false,
        }
    }

    /// The server's current targets arrived: seed targets and drafts once.
    pub fn hydrate(&mut self, targets: [Option<i64>; 3])
        requires
            old(self).wf(),
        ensures
            final(self).wf(),
            old(self).loaded ==> *final(self) == *old(self),
            !old(self).loaded ==> {
                &&& final(self).targets@ == targets@
                &&& forall|i: int| 0 <= i < GOAL_COUNT ==> (#[trigger] final(self).drafts@[i])@
                    == target_text(targets[i])
                &&& final(self).loaded
                &&& final(self).editing == old(self).editing
                &&& final(self).msg == old(self).msg
            },
    {
        if self.loaded {
            return;
        }
        self.targets = vec![targets[0], targets[1], targets[2]];
        assert(self.targets@ =~= targets@);
        self.drafts = vec![target_string(targets[0]), target_string(targets[1]), target_string(targets[2])];
        self.loaded = true;
    }

    /// Opens the editor.
    pub fn begin_edit(&mut self)
        ensures
            final(self).editing,
            final(self).msg is None,
            final(self).drafts == old(self).drafts,
            final(self).targets == old(self).targets,
            final(self).saving == old(self).saving,
            final(self).loaded == old(self).loaded,
    {
        self.msg = None;
        self.editing = true;
    }

    /// Cancels the edit: the drafts drop back to the confirmed targets.
    pub fn cancel_edit(&mut self)
        requires
            old(self).wf(),
        ensures
            final(self).wf(),
            !final(self).editing,
            final(self).msg is None,
            forall|i: int| 0 <= i < GOAL_COUNT ==> (#[trigger] final(self).drafts@[i])@
                == target_text(old(self).targets@[i]),
            final(self).targets == old(self).targets,
            final(self).saving == old(self).saving,
            final(self).loaded == old(self).loaded,
    {
        self.drafts = vec![
            target_string(self.targets[0]),
            target_string(self.targets[1]),
            target_string(self.targets[2]),
        ];
        self.msg = None;
        self.editing = false;
    }

    /// The reader typed into goal `i`'s field.
    pub fn on_draft_input(&mut self, i: usize, value: String)
        requires
            old(self).wf(),
            i < GOAL_COUNT,
        ensures
            final(self).wf(),
            final(self).drafts@ == old(self).drafts@.update(i as int, value),
            final(self).msg is None,
            final(self).targets == old(self).targets,
            final(self).editing == old(self).editing,
            final(self).saving == old(self).saving,
            final(self).loaded == old(self).loaded,
    {
        self.drafts.set(i, value);
        self.msg = None;
    }

    /// Save pressed: every draft must parse, else the first bad one is
    /// named; with nothing moved the editor closes; otherwise the card
    /// starts saving and hands back the writes that are owed.
    pub fn begin_save(&mut self) -> (start: SaveStart)
        requires
            old(self).wf(),
        ensures
            final(self).wf(),
            final(self).drafts == old(self).drafts,
            final(self).targets == old(self).targets,
            final(self).loaded == old(self).loaded,
            match parsed_drafts(drafts_view(old(self).drafts@)) {
                None => {
                    let i = first_invalid(drafts_view(old(self).drafts@));
                    &&& start is Invalid
                    &&& final(self).msg_is_error
                    &&& final(self).msg matches Some(m) && parse_draft_spec(
                        old(self).drafts@[i]@,
                        field_unit(i),
                        field_max(i),
                    ) matches Err(e) && m@ == field_label(i) + ": "@ + e
                    &&& final(self).editing == old(self).editing
                    &&& final(self).saving == old(self).saving
                },
                Some(parsed) => {
                    let owed = changed_upto(parsed, old(self).targets@, GOAL_COUNT as int);
                    if owed.len() == 0 {
                        &&& start is NothingChanged
                        &&& !final(self).editing
                        &&& final(self).msg is None
                        &&& final(self).saving == old(self).saving
                    } else {
                        &&& start matches SaveStart::Write(w) && w@ == owed
                        &&& final(self).saving
                        &&& final(self).editing == old(self).editing
                        &&& final(self).msg == old(self).msg
                    }
                },
            },
    {
        let mut parsed: Vec<Option<i64>> = Vec::new();
        let mut i: usize = 0;
        let ghost dv = drafts_view(self.drafts@);
        let ghost s0 = *self;
        while i < GOAL_COUNT
            invariant
                i <= GOAL_COUNT,
                *self == s0,
                s0 == *old(self),
                self.wf(),
                dv == drafts_view(self.drafts@),
                parsed.len() == i,
                forall|j: int| 0 <= j < i ==> #[trigger] parse_draft_spec(dv[j], field_unit(j), field_max(j)) is Ok,
                forall|j: int|
                    0 <= j < i ==> #[trigger] parsed@[j] == match parse_draft_spec(dv[j], field_unit(j), field_max(j)) {
                        Ok(Some(v)) => Some(v as i64),
                        _ => None,
                    },
            decreases GOAL_COUNT - i,
        {
            let r = parse_draft(self.drafts[i].as_str(), goal_unit(i), goal_max(i));
            proof {
                assert(dv[i as int] == self.drafts@[i as int]@);
            }
            match r {
                Ok(v) => {
                    parsed.push(v);
                },
                Err(e) => {
                    let mut m = string_of(goal_label(i));
                    push_str(&mut m, ": ");
                    push_str(&mut m, e.as_str());
                    self.msg = Some(m);
                    self.msg_is_error = true;
                    proof {
                        let ii = i as int;
                        assert(parse_draft_spec(dv[ii], field_unit(ii), field_max(ii)) is Err);
                        assert(parsed_drafts(dv) is None);
                        assert(0 <= ii < GOAL_COUNT && parse_draft_spec(dv[ii], field_unit(ii), field_max(ii)) is Err
                            && forall|j: int| 0 <= j < ii ==> #[trigger] parse_draft_spec(dv[j], field_unit(j), field_max(j)) is Ok);
                        let w = first_invalid(dv);
                        if w < ii {
                            assert(parse_draft_spec(dv[w], field_unit(w), field_max(w)) is Ok);
                        } else if w > ii {
                            assert(parse_draft_spec(dv[ii], field_unit(ii), field_max(ii)) is Ok);
                        }
                        assert(w == ii);
                    }
                    return SaveStart::Invalid;
                },
            }
            i += 1;
        }
        proof {
            assert(parsed_drafts(dv) matches Some(p) && p =~= parsed@);
        }
        let owed = changed_between(&parsed, &self.targets);
        if owed.len() == 0 {
            self.editing = false;
            self.msg = None;
            SaveStart::NothingChanged
        } else {
            self.saving = true;
            SaveStart::Write(owed)
        }
    }
}


/// The labels of the goals in `ids`.
pub open spec fn labels_of(ids: Seq<usize>) -> Seq<Seq<char>> {
    ids.map_values(|i: usize| field_label(i as int))
}

fn contains_goal(v: &Vec<usize>, x: usize) -> (r: bool)
    ensures
        r == v@.contains(x),
{
    let mut k: usize = 0;
    while k < v.len()
        invariant
            k <= v.len(),
            forall|j: int| 0 <= j < k ==> v@[j] != x,
        decreases v.len() - k,
    {
        if v[k] == x {
            assert(v@[k as int] == x);
            return true;
        }
        k += 1;
    }
    false
}

impl GoalsCardState {
    /// The owed writes came back, `ok[k]` telling whether `pending[k]`
    /// landed. Landed writes become the targets; the status line names the
    /// goals that failed; drafts reset to the targets except for the failed
    /// goals, which keep what the reader typed so the retry has something
    /// to write; the editor stays open exactly when something failed.
    pub fn finish_save(&mut self, pending: &Vec<(usize, Option<i64>)>, ok: &Vec<bool>)
        requires
            old(self).wf(),
            pending.len() == ok.len(),
            forall|k: int| 0 <= k < pending.len() ==> (#[trigger] pending@[k]).0 < GOAL_COUNT,
        ensures
            final(self).wf(),
            final(self).targets@ == landed_targets(old(self).targets@, pending@, ok@),
            ({
                let failed = failed_goals(pending@, ok@);
                let summary = save_summary_spec(labels_of(failed));
                &&& final(self).msg matches Some(m) && m@ == summary.0
                &&& final(self).msg_is_error == summary.1
                &&& final(self).editing == (failed.len() > 0)
                &&& forall|i: int|
                    0 <= i < GOAL_COUNT ==> (#[trigger] final(self).drafts@[i])@ == if failed.contains(
                        i as usize,
                    ) {
                        old(self).drafts@[i]@
                    } else {
                        target_text(final(self).targets@[i])
                    }
            }),
            !final(self).saving,
            final(self).loaded == old(self).loaded,
    {
        let ghost t0 = self.targets@;
        let mut failed: Vec<usize> = Vec::new();
        let mut failed_labels: Vec<&'static str> = Vec::new();
        let mut k: usize = 0;
        while k < pending.len()
            invariant
                k <= pending.len() == ok.len(),
                self.wf(),
                forall|j: int| 0 <= j < pending.len() ==> (#[trigger] pending@[j]).0 < GOAL_COUNT,
                self.targets@ == landed_targets(t0, pending@.take(k as int), ok@),
                failed@ == failed_goals(pending@.take(k as int), ok@),
                names_view(failed_labels@) == labels_of(failed@),
                self.drafts == old(self).drafts,
                self.loaded == old(self).loaded,
            decreases pending.len() - k,
        {
            let (i, v) = pending[k];
            proof {
                let t = pending@.take(k as int + 1);
                assert(t.drop_last() =~= pending@.take(k as int));
                assert(t.last() == pending@[k as int]);
            }
            if ok[k] {
                self.targets.set(i, v);
            } else {
                let ghost fl0 = failed_labels@;
                let ghost f0 = failed@;
                let lbl = goal_label(i);
                failed.push(i);
                failed_labels.push(lbl);
                proof {
                    assert(names_view(fl0).len() == fl0.len());
                    assert(labels_of(f0).len() == f0.len());
                    assert(fl0.len() == f0.len());
                    assert(failed_labels@ == fl0.push(lbl));
                    assert(failed@ == f0.push(i));
                    assert forall|j: int| 0 <= j < failed_labels@.len() implies names_view(
                        failed_labels@,
                    )[j] == labels_of(failed@)[j] by {
                        if j < fl0.len() {
                            assert(names_view(fl0)[j] == labels_of(f0)[j]);
                            assert(failed_labels@[j] == fl0[j]);
                            assert(failed@[j] == f0[j]);
                        } else {
                            assert(failed_labels@[j]@ == field_label(i as int));
                        }
                    }
                    assert(names_view(failed_labels@) =~= labels_of(failed@));
                }
            }
            proof {
                assert(failed@ =~= failed_goals(pending@.take(k as int + 1), ok@));
            }
            k += 1;
        }
        proof {
            assert(pending@.take(pending.len() as int) =~= pending@);
        }
        let (msg, is_error) = save_summary(failed_labels.as_slice());
        let ghost d0 = self.drafts@;
        let mut i: usize = 0;
        while i < GOAL_COUNT
            invariant
                i <= GOAL_COUNT,
                self.wf(),
                self.targets@ == landed_targets(t0, pending@, ok@),
                failed@ == failed_goals(pending@, ok@),
                d0 == old(self).drafts@,
                forall|j: int|
                    0 <= j < GOAL_COUNT ==> (#[trigger] self.drafts@[j])@ == if j < i && !failed@.contains(
                        j as usize,
                    ) {
                        target_text(self.targets@[j])
                    } else {
                        d0[j]@
                    },
                self.loaded == old(self).loaded,
            decreases GOAL_COUNT - i,
        {
            if !contains_goal(&failed, i) {
                let t = target_string(self.targets[i]);
                self.drafts.set(i, t);
            }
            i += 1;
        }
        self.msg = Some(msg);
        self.msg_is_error = is_error;
        self.editing = failed.len() > 0;
        self.saving = false;
    }
}

// ── Card markup ───────────────────────────────────────────────────

/// One read-mode row: label and the target's summary.
pub open spec fn readout_row(i: int, target: Option<i64>) -> Seq<char> {
    "<div class=\"goal-readout-row\"><dt class=\"goal-readout-label\">"@ + field_label(i)
        + "</dt><dd class=\""@ + (if target is Some {
        "goal-readout-value"@
    } else {
        "goal-readout-value unset"@
    }) + "\" data-testid=\""@ + field_testid(i) + "-value\">"@ + target_summary_spec(
        target,
        field_unit(i),
    ) + "</dd></div>"@
}

/// Read mode: the three targets over the one control that opens them all.
pub open spec fn readout_markup(targets: Seq<Option<i64>>) -> Seq<char> {
    "<dl class=\"goal-readout\">"@ + readout_row(0, targets[0]) + readout_row(1, targets[1])
        + readout_row(2, targets[2])
        + "</dl><div class=\"settings-actions\"><button type=\"button\" class=\"btn\" data-testid=\"goals-edit\">Edit goals</button></div>"@
}

/// ` disabled` when `on`.
pub open spec fn disabled_when(on: bool) -> Seq<char> {
    if on {
        " disabled"@
    } else {
        Seq::empty()
    }
}

/// One field of the edit form.
pub open spec fn form_field(i: int, draft: Seq<char>, saving: bool) -> Seq<char> {
    "<div class=\"settings-field\"><label for=\""@ + field_testid(i) + "\">"@ + field_label(i)
        + "</label><input type=\"number\" id=\""@ + field_testid(i) + "\" data-testid=\""@
        + field_testid(i) + "-input\" min=\"1\" max=\""@ + int_digits(field_max(i))
        + "\" inputmode=\"numeric\" placeholder=\"No target\" value=\""@ + escaped(draft) + "\""@
        + disabled_when(saving) + "><p class=\"subtitle\">"@ + field_hint(i) + "</p></div>"@
}

/// Edit mode: the three fields as one form, Save and Cancel.
pub open spec fn form_markup(drafts: Seq<Seq<char>>, saving: bool) -> Seq<char> {
    "<form id=\"goals-form\" class=\"settings-form\" novalidate>"@ + form_field(0, drafts[0], saving)
        + form_field(1, drafts[1], saving) + form_field(2, drafts[2], saving)
        + "<p class=\"subtitle\">Leave a field empty to drop that goal. Clearing a target keeps the progress you have already made toward it.</p><div class=\"settings-actions\"><button type=\"submit\" class=\"btn\""@
        + disabled_when(saving)
        + " data-testid=\"goals-save\">Save</button><button type=\"button\" class=\"btn ghost\""@
        + disabled_when(saving) + " data-testid=\"goals-cancel\">Cancel</button></div></form>"@
}

/// The goals card.
pub open spec fn goals_card_markup(s: GoalsCardState) -> Seq<char> {
    "<section class=\"card\" data-testid=\"account-goals-card\"><h2>Reading goals</h2><p class=\"subtitle\">One target for the year and two for the day. They show on your Stats page.</p>"@
        + (if s.editing {
        form_markup(drafts_view(s.drafts@), s.saving)
    } else {
        readout_markup(s.targets@)
    }) + status_markup("goals-status"@, opt_view(s.msg), s.msg_is_error) + "</section>"@
}

fn push_disabled_when(out: &mut String, on: bool)
    ensures
        final(out)@ == old(out)@ + disabled_when(on),
{
    if on {
        push_str(out, " disabled");
    } else {
        assert(old(out)@ + disabled_when(on) =~= old(out)@);
    }
}

fn push_readout_row(out: &mut String, i: usize, target: Option<i64>)
    requires
        i < GOAL_COUNT,
    ensures
        final(out)@ == old(out)@ + readout_row(i as int, target),
{
    let ghost start = out@;
    push_str(out, "<div class=\"goal-readout-row\"><dt class=\"goal-readout-label\">");
    push_str(out, goal_label(i));
    push_str(out, "</dt><dd class=\"");
    if target.is_some() {
        push_str(out, "goal-readout-value");
    } else {
        push_str(out, "goal-readout-value unset");
    }
    push_str(out, "\" data-testid=\"");
    push_str(out, goal_testid(i));
    push_str(out, "-value\">");
    let summary = target_summary(target, goal_unit(i));
    push_str(out, summary.as_str());
    push_str(out, "</dd></div>");
    assert(out@ =~= start + readout_row(i as int, target));
}

fn push_form_field(out: &mut String, i: usize, draft: &str, saving: bool)
    requires
        i < GOAL_COUNT,
    ensures
        final(out)@ == old(out)@ + form_field(i as int, draft@, saving),
{
    let ghost start = out@;
    push_str(out, "<div class=\"settings-field\"><label for=\"");
    push_str(out, goal_testid(i));
    push_str(out, "\">");
    push_str(out, goal_label(i));
    push_str(out, "</label><input type=\"number\" id=\"");
    push_str(out, goal_testid(i));
    push_str(out, "\" data-testid=\"");
    push_str(out, goal_testid(i));
    push_str(out, "-input\" min=\"1\" max=\"");
    push_i64(out, goal_max(i));
    push_str(out, "\" inputmode=\"numeric\" placeholder=\"No target\" value=\"");
    push_escaped(out, draft);
    push_str(out, "\"");
    push_disabled_when(out, saving);
    push_str(out, "><p class=\"subtitle\">");
    push_str(out, goal_hint(i));
    push_str(out, "</p></div>");
    assert(out@ =~= start + form_field(i as int, draft@, saving));
}

fn push_form(out: &mut String, s: &GoalsCardState)
    requires
        s.wf(),
    ensures
        final(out)@ == old(out)@ + form_markup(drafts_view(s.drafts@), s.saving),
{
    let ghost start = out@;
    push_str(out, "<form id=\"goals-form\" class=\"settings-form\" novalidate>");
    push_form_field(out, 0, s.drafts[0].as_str(), s.saving);
    push_form_field(out, 1, s.drafts[1].as_str(), s.saving);
    push_form_field(out, 2, s.drafts[2].as_str(), s.saving);
    push_str(
        out,
        "<p class=\"subtitle\">Leave a field empty to drop that goal. Clearing a target keeps the progress you have already made toward it.</p><div class=\"settings-actions\"><button type=\"submit\" class=\"btn\"",
    );
    push_disabled_when(out, s.saving);
    push_str(out, " data-testid=\"goals-save\">Save</button><button type=\"button\" class=\"btn ghost\"");
    push_disabled_when(out, s.saving);
    push_str(out, " data-testid=\"goals-cancel\">Cancel</button></div></form>");
    assert(out@ =~= start + form_markup(drafts_view(s.drafts@), s.saving));
}

fn push_readout(out: &mut String, targets: &Vec<Option<i64>>)
    requires
        targets.len() == GOAL_COUNT,
    ensures
        final(out)@ == old(out)@ + readout_markup(targets@),
{
    let ghost start = out@;
    push_str(out, "<dl class=\"goal-readout\">");
    push_readout_row(out, 0, targets[0]);
    push_readout_row(out, 1, targets[1]);
    push_readout_row(out, 2, targets[2]);
    push_str(
        out,
        "</dl><div class=\"settings-actions\"><button type=\"button\" class=\"btn\" data-testid=\"goals-edit\">Edit goals</button></div>",
    );
    assert(out@ =~= start + readout_markup(targets@));
}

/// The reading-goals card: the read-mode summary behind one Edit control,
/// or the form while editing, then the save's status line.
pub fn reading_goals_card(s: &GoalsCardState) -> (html: String)
    requires
        s.wf(),
    ensures
        html@ == goals_card_markup(*s),
{
    let mut out = string_of(
        "<section class=\"card\" data-testid=\"account-goals-card\"><h2>Reading goals</h2><p class=\"subtitle\">One target for the year and two for the day. They show on your Stats page.</p>",
    );
    if s.editing {
        push_form(&mut out, s);
    } else {
        push_readout(&mut out, &s.targets);
    }
    let m: Option<&str> = match &s.msg {
        Some(m) => Some(m.as_str()),
        None => None,
    };
    let html_status = crate::profile::credential_status_message("goals-status", m, s.msg_is_error);
    push_str(&mut out, html_status.as_str());
    push_str(&mut out, "</section>");
    assert(out@ =~= goals_card_markup(*s));
    out
}

} // verus!
