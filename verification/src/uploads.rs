//! The add-books page: which ingest a pick of files goes to (decided by
//! their extensions), and the upload form's steps from pick to inspect to
//! the confirmed commit. Reading the files and the requests run around it.

use vstd::prelude::*;
use crate::markup::{escaped, push_escaped};
use crate::num::{nat_digits, push_u64};
use crate::text::{
    from_chars, is_lit, lower_ascii, push_str, string_of, to_ascii_lower, to_chars, trim, trimmed,
};

verus! {

/// Which ingest a pick goes to.
#[derive(Clone, Copy, Debug, PartialEq, Eq, Structural)]
pub enum UploadKind {
    Ebook,
    Audiobook,
}

/// The picker's `accept` list.
pub const ACCEPT: &'static str =
    ".epub,.pdf,.m4b,.m4a,.mp4,.mp3,application/epub+zip,application/pdf,audio/mp4,audio/mpeg";

// ── Classifying a pick ────────────────────────────────────────────

/// `Path::extension` of a file name, as text.
pub uninterp spec fn path_extension(name: Seq<char>) -> Option<Seq<char>>;

/// The extension of `name` as std's `Path::extension` finds it (after the
/// last `.` of the final component, with no extension for a name that only
/// starts with a dot); the contract names the result.
#[verifier::external_body]
fn file_extension(name: &str) -> (out: Option<String>)
    ensures
        match out {
            Some(e) => path_extension(name@) == Some(e@),
            None => path_extension(name@) is None,
        },
{
    std::path::Path::new(name).extension().and_then(|e| e.to_str()).map(|e| e.to_string())
}

/// A name's extension, ASCII lower-cased; empty when it has none.
pub open spec fn ext_of(name: Seq<char>) -> Seq<char> {
    match path_extension(name) {
        Some(e) => lower_ascii(e),
        None => Seq::empty(),
    }
}

/// Extensions the ebook ingest takes.
pub open spec fn is_ebook_ext(e: Seq<char>) -> bool {
    e == "epub"@ || e == "pdf"@
}

/// Extensions the audiobook ingest takes.
pub open spec fn is_audio_ext(e: Seq<char>) -> bool {
    e == "m4b"@ || e == "m4a"@ || e == "mp4"@ || e == "mp3"@
}

/// Index of the first extension neither ingest takes.
pub open spec fn first_unknown(exts: Seq<Seq<char>>) -> Option<int>
    decreases exts.len(),
{
    if exts.len() == 0 {
        None
    } else {
        match first_unknown(exts.drop_last()) {
            Some(i) => Some(i),
            None => if !is_ebook_ext(exts.last()) && !is_audio_ext(exts.last()) {
                Some(exts.len() - 1)
            } else {
                None
            },
        }
    }
}

/// How many of `exts` the ebook ingest takes.
pub open spec fn ebook_count(exts: Seq<Seq<char>>) -> nat
    decreases exts.len(),
{
    if exts.len() == 0 {
        0
    } else {
        ebook_count(exts.drop_last()) + if is_ebook_ext(exts.last()) {
            1nat
        } else {
            0nat
        }
    }
}

/// How many of `exts` the audiobook ingest takes.
pub open spec fn audio_count(exts: Seq<Seq<char>>) -> nat
    decreases exts.len(),
{
    if exts.len() == 0 {
        0
    } else {
        audio_count(exts.drop_last()) + if is_audio_ext(exts.last()) {
            1nat
        } else {
            0nat
        }
    }
}

/// The refusal for a file neither ingest takes.
pub open spec fn unknown_format_msg(name: Seq<char>) -> Seq<char> {
    name
        + " isn't a format Omnibus can add \u{2014} pick an EPUB or PDF, an M4B/M4A/MP4 audiobook, or MP3 parts."@
}

/// Where picked files with these (lower-cased) extensions go: the first
/// file neither ingest takes is refused by name; otherwise one EPUB or PDF
/// is an ebook, any number of audio files an audiobook, and the rest is
/// refused.
pub open spec fn classify(names: Seq<Seq<char>>, exts: Seq<Seq<char>>) -> Result<UploadKind, Seq<char>> {
    match first_unknown(exts) {
        Some(i) => Err(unknown_format_msg(names[i])),
        None => {
            let e = ebook_count(exts);
            let a = audio_count(exts);
            if e == 0 && a == 0 {
                Err("Choose a file first."@)
            } else if e == 1 && a == 0 {
                Ok(UploadKind::Ebook)
            } else if e == 0 {
                Ok(UploadKind::Audiobook)
            } else if a == 0 {
                Err("Add one EPUB at a time."@)
            } else {
                Err("Pick either an EPUB or an audiobook's files, not both."@)
            }
        },
    }
}

proof fn lemma_counts_cover(exts: Seq<Seq<char>>)
    requires
        first_unknown(exts) is None,
    ensures
        forall|i: int| 0 <= i < exts.len() ==> is_ebook_ext(#[trigger] exts[i]) || is_audio_ext(exts[i]),
        ebook_count(exts) + audio_count(exts) == exts.len(),
        ebook_count(exts) == 0 ==> forall|i: int| 0 <= i < exts.len() ==> !is_ebook_ext(#[trigger] exts[i]),
    decreases exts.len(),
{
    if exts.len() > 0 {
        let init = exts.drop_last();
        lemma_counts_cover(init);
        lemma_ingests_disjoint(exts.last());
        assert forall|i: int| 0 <= i < exts.len() implies is_ebook_ext(#[trigger] exts[i]) || is_audio_ext(exts[i]) by {
            if i < exts.len() - 1 {
                assert(exts[i] == init[i]);
            }
        }
        if ebook_count(exts) == 0 {
            assert forall|i: int| 0 <= i < exts.len() implies !is_ebook_ext(#[trigger] exts[i]) by {
                if i < exts.len() - 1 {
                    assert(exts[i] == init[i]);
                }
            }
        }
    }
}

/// Law: a pick is only ever routed to the ingest that takes it — an ebook
/// route is one EPUB or PDF, an audiobook route is one or more files that
/// are all audio.
pub proof fn lemma_classify_routes_correctly(names: Seq<Seq<char>>, exts: Seq<Seq<char>>)
    requires
        names.len() == exts.len(),
    ensures
        classify(names, exts) == Ok::<UploadKind, Seq<char>>(UploadKind::Ebook) ==> exts.len() == 1
            && is_ebook_ext(exts[0]),
        classify(names, exts) == Ok::<UploadKind, Seq<char>>(UploadKind::Audiobook) ==> exts.len()
            > 0 && forall|i: int| 0 <= i < exts.len() ==> is_audio_ext(#[trigger] exts[i]),
{
    if first_unknown(exts) is None {
        lemma_counts_cover(exts);
        if ebook_count(exts) == 1 && audio_count(exts) == 0 {
            assert(exts.len() == 1);
            assert(is_ebook_ext(exts[0]) || is_audio_ext(exts[0]));
            if !is_ebook_ext(exts[0]) {
                lemma_audio_count_positive(exts, 0);
            }
        }
        if ebook_count(exts) == 0 && audio_count(exts) > 0 {
            assert forall|i: int| 0 <= i < exts.len() implies is_audio_ext(#[trigger] exts[i]) by {
                assert(!is_ebook_ext(exts[i]));
            }
        }
    }
}

proof fn lemma_audio_count_positive(exts: Seq<Seq<char>>, i: int)
    requires
        0 <= i < exts.len(),
        is_audio_ext(exts[i]),
    ensures
        audio_count(exts) > 0,
    decreases exts.len(),
{
    if i < exts.len() - 1 {
        assert(exts.drop_last()[i] == exts[i]);
        lemma_audio_count_positive(exts.drop_last(), i);
    }
}

fn ebook_ext(e: &Vec<char>) -> (r: bool)
    ensures
        r == is_ebook_ext(e@),
{
    is_lit(e, "epub") || is_lit(e, "pdf")
}

fn audio_ext(e: &Vec<char>) -> (r: bool)
    ensures
        r == is_audio_ext(e@),
{
    is_lit(e, "m4b") || is_lit(e, "m4a") || is_lit(e, "mp4") || is_lit(e, "mp3")
}

/// Where the picked files go, given each name's lower-cased extension
/// (`exts[i]` belongs to `names[i]`).
pub fn classify_by_extension(names: &[String], exts: &[String]) -> (r: Result<UploadKind, String>)
    requires
        names@.len() == exts@.len(),
    ensures
        match r {
            Ok(k) => classify(names@.map_values(|n: String| n@), exts@.map_values(|e: String| e@))
                == Ok::<UploadKind, Seq<char>>(k),
            Err(m) => classify(names@.map_values(|n: String| n@), exts@.map_values(|e: String| e@))
                == Err::<UploadKind, Seq<char>>(m@),
        },
{
    let ghost nv = names@.map_values(|n: String| n@);
    let ghost ev = exts@.map_values(|e: String| e@);
    let mut ebooks: usize = 0;
    let mut audio: usize = 0;
    let mut i: usize = 0;
    while i < exts.len()
        invariant
            i <= exts@.len() == names@.len(),
            nv == names@.map_values(|n: String| n@),
            ev == exts@.map_values(|e: String| e@),
            first_unknown(ev.take(i as int)) is None,
            ebooks == ebook_count(ev.take(i as int)),
            audio == audio_count(ev.take(i as int)),
            ebooks + audio == i,
        decreases exts.len() - i,
    {
        let e = to_chars(exts[i].as_str());
        proof {
            assert(ev.take(i as int + 1).drop_last() =~= ev.take(i as int));
            assert(ev.take(i as int + 1).last() == e@);
        }
        if ebook_ext(&e) {
            proof {
                lemma_ingests_disjoint(e@);
            }
            ebooks += 1;
        } else if audio_ext(&e) {
            audio += 1;
        } else {
            proof {
                assert(first_unknown(ev.take(i as int + 1)) == Some(i as int));
            }
            let mut msg = names[i].clone();
            push_str(
                &mut msg,
                " isn't a format Omnibus can add \u{2014} pick an EPUB or PDF, an M4B/M4A/MP4 audiobook, or MP3 parts.",
            );
            proof {
                lemma_first_unknown_prefix(ev, i as int + 1);
            }
            return Err(msg);
        }
        i += 1;
    }
    proof {
        assert(ev.take(exts.len() as int) =~= ev);
    }
    if ebooks == 0 && audio == 0 {
        Err(string_of("Choose a file first."))
    } else if ebooks == 1 && audio == 0 {
        Ok(UploadKind::Ebook)
    } else if ebooks == 0 {
        Ok(UploadKind::Audiobook)
    } else if audio == 0 {
        Err(string_of("Add one EPUB at a time."))
    } else {
        Err(string_of("Pick either an EPUB or an audiobook's files, not both."))
    }
}

/// No extension goes to both ingests.
proof fn lemma_ingests_disjoint(e: Seq<char>)
    ensures
        is_ebook_ext(e) ==> !is_audio_ext(e),
{
    reveal_strlit("epub");
    reveal_strlit("pdf");
    reveal_strlit("m4b");
    reveal_strlit("m4a");
    reveal_strlit("mp4");
    reveal_strlit("mp3");
    if e == "epub"@ {
        assert(e[0] == 'e');
    }
    if e == "pdf"@ {
        assert(e[0] == 'p');
    }
}

/// An unknown extension found in a prefix is the first of the whole list.
proof fn lemma_first_unknown_prefix(exts: Seq<Seq<char>>, k: int)
    requires
        0 <= k <= exts.len(),
        first_unknown(exts.take(k)) is Some,
    ensures
        first_unknown(exts) == first_unknown(exts.take(k)),
    decreases exts.len() - k,
{
    if k < exts.len() {
        assert(exts.take(k + 1).drop_last() =~= exts.take(k));
        lemma_first_unknown_prefix(exts, k + 1);
    } else {
        assert(exts.take(k) =~= exts);
    }
}

/// Where a pick of files goes, by their names' extensions.
pub fn classify_pick(names: &[String]) -> (r: Result<UploadKind, String>)
    ensures
        match r {
            Ok(k) => classify(
                names@.map_values(|n: String| n@),
                names@.map_values(|n: String| ext_of(n@)),
            ) == Ok::<UploadKind, Seq<char>>(k),
            Err(m) => classify(
                names@.map_values(|n: String| n@),
                names@.map_values(|n: String| ext_of(n@)),
            ) == Err::<UploadKind, Seq<char>>(m@),
        },
{
    let mut exts: Vec<String> = Vec::new();
    let mut i: usize = 0;
    while i < names.len()
        invariant
            i <= names@.len(),
            exts@.len() == i,
            forall|k: int| 0 <= k < i ==> #[trigger] exts@[k]@ == ext_of(names@[k]@),
        decreases names.len() - i,
    {
        let e = match file_extension(names[i].as_str()) {
            Some(raw) => {
                let v = to_chars(raw.as_str());
                let low = to_ascii_lower(&v);
                from_chars(&low)
            },
            None => String::new(),
        };
        exts.push(e);
        i += 1;
    }
    proof {
        assert(exts@.map_values(|e: String| e@) =~= names@.map_values(|n: String| ext_of(n@)));
    }
    classify_by_extension(names, exts.as_slice())
}

// ── The upload form ───────────────────────────────────────────────

/// What the server read from a picked EPUB or PDF.
#[derive(Clone, Debug)]
pub struct UploadInspection {
    pub title: Option<String>,
    pub author: Option<String>,
    pub creators: Vec<String>,
    pub series: Option<String>,
    pub series_index: Option<String>,
}

/// What the server read from picked audiobook files.
#[derive(Clone, Debug)]
pub struct AudiobookInspection {
    pub title: Option<String>,
    pub author: Option<String>,
    pub creators: Vec<String>,
}

/// The confirmed details a commit sends.
#[derive(Clone, Debug)]
pub struct UploadMeta {
    pub title: String,
    pub author: String,
    pub series: String,
    pub series_index: String,
}

/// The commit a confirmed form makes.
#[derive(Clone, Debug)]
pub enum UploadRequest {
    Ebook { filename: String, bytes: Vec<u8>, meta: UploadMeta },
    Audiobook { files: Vec<(String, Vec<u8>)>, meta: UploadMeta },
}

/// The add-books form between renders.
#[derive(Clone, Debug)]
pub struct UploadForm {
    /// The ingest the staged pick belongs to.
    pub kind: Option<UploadKind>,
    pub filename: String,
    /// The staged EPUB's bytes.
    pub file_bytes: Option<Vec<u8>>,
    /// The staged audiobook parts.
    pub audio_files: Vec<(String, Vec<u8>)>,
    pub title: String,
    pub author: String,
    /// Creators after the first, listed under the author field.
    pub more_creators: Vec<String>,
    pub series: String,
    pub series_index: String,
    pub inspected: bool,
    pub busy: bool,
    pub status: Option<String>,
    pub status_is_error: bool,
}

/// The text of an optional field, empty when absent.
pub open spec fn text_or_empty(o: Option<String>) -> Seq<char> {
    match o {
        Some(s) => s@,
        None => Seq::empty(),
    }
}

/// All but the first of `s` (nothing for an empty `s`).
pub open spec fn after_first(s: Seq<Seq<char>>) -> Seq<Seq<char>> {
    if s.len() == 0 {
        Seq::empty()
    } else {
        s.skip(1)
    }
}

/// Two lists of staged parts hold the same names and bytes.
pub open spec fn same_parts(a: Seq<(String, Vec<u8>)>, b: Seq<(String, Vec<u8>)>) -> bool {
    a.len() == b.len() && forall|i: int|
        0 <= i < a.len() ==> (#[trigger] a[i]).0@ == b[i].0@ && a[i].1@ == b[i].1@
}

fn copy_parts(files: &Vec<(String, Vec<u8>)>) -> (out: Vec<(String, Vec<u8>)>)
    ensures
        same_parts(out@, files@),
{
    let mut out: Vec<(String, Vec<u8>)> = Vec::new();
    let mut i: usize = 0;
    while i < files.len()
        invariant
            i <= files@.len(),
            out@.len() == i,
            forall|k: int|
                0 <= k < i ==> (#[trigger] out@[k]).0@ == files@[k].0@ && out@[k].1@ == files@[k].1@,
        decreases files.len() - i,
    {
        let name = files[i].0.clone();
        let bytes = files[i].1.clone();
        proof {
            assert(bytes@ =~= files@[i as int].1@);
        }
        out.push((name, bytes));
        i += 1;
    }
    out
}

/// The views of a list of strings.
pub open spec fn views(v: Seq<String>) -> Seq<Seq<char>> {
    v.map_values(|s: String| s@)
}

/// `names` joined with ", ".
pub open spec fn comma_joined(names: Seq<Seq<char>>) -> Seq<char>
    decreases names.len(),
{
    if names.len() == 0 {
        Seq::empty()
    } else if names.len() == 1 {
        names[0]
    } else {
        comma_joined(names.drop_last()) + ", "@ + names.last()
    }
}

/// The drop zone's label for staged audiobook parts: the one file's name,
/// or how many parts there are.
pub open spec fn parts_summary(files: Seq<(String, Vec<u8>)>) -> Seq<char> {
    if files.len() == 1 {
        files[0].0@
    } else {
        nat_digits(files.len()) + " parts selected"@
    }
}

/// The drop zone's label for staged audiobook parts.
pub fn audiobook_summary(files: &[(String, Vec<u8>)]) -> (out: String)
    ensures
        out@ == parts_summary(files@),
{
    if files.len() == 1 {
        files[0].0.clone()
    } else {
        let mut out = String::new();
        push_u64(&mut out, files.len() as u64);
        push_str(&mut out, " parts selected");
        out
    }
}

fn text_of(o: &Option<String>) -> (out: String)
    ensures
        out@ == text_or_empty(*o),
{
    match o {
        Some(s) => s.clone(),
        None => String::new(),
    }
}

fn rest_of(creators: &Vec<String>) -> (out: Vec<String>)
    ensures
        views(out@) == after_first(views(creators@)),
{
    let mut out: Vec<String> = Vec::new();
    if creators.len() == 0 {
        assert(views(out@) =~= Seq::<Seq<char>>::empty());
        return out;
    }
    let mut i: usize = 1;
    while i < creators.len()
        invariant
            1 <= i <= creators@.len(),
            views(out@) == views(creators@).subrange(1, i as int),
        decreases creators.len() - i,
    {
        let c = creators[i].clone();
        let ghost before = out@;
        out.push(c);
        proof {
            assert(out@ =~= before.push(c));
            assert(views(out@) =~= views(before).push(c@));
            assert(views(creators@).subrange(1, i as int + 1) =~= views(creators@).subrange(
                1,
                i as int,
            ).push(c@));
        }
        i += 1;
    }
    proof {
        assert(views(creators@).subrange(1, creators.len() as int) =~= views(creators@).skip(1));
    }
    out
}

/// The status line reads `text`.
pub open spec fn shows(o: Option<String>, text: Seq<char>) -> bool {
    o matches Some(m) && m@ == text
}

/// The stage is empty: no ingest, nothing staged, nothing inspected.
pub open spec fn stage_cleared(f: UploadForm) -> bool {
    &&& f.kind is None
    &&& !f.inspected
    &&& f.file_bytes is None
    &&& f.audio_files.len() == 0
    &&& f.more_creators.len() == 0
    &&& f.filename@.len() == 0
}

/// A refusal `text` shown over a cleared stage, the other fields kept.
pub open spec fn refused(old: UploadForm, new: UploadForm, text: Seq<char>, busy: bool) -> bool {
    &&& stage_cleared(new)
    &&& shows(new.status, text)
    &&& new.status_is_error
    &&& new.busy == busy
    &&& new.title == old.title
    &&& new.author == old.author
    &&& new.series == old.series
    &&& new.series_index == old.series_index
}

/// The prompt after a successful inspect.
pub open spec fn review_msg() -> Seq<char> {
    "Review the details, then add to your library."@
}

/// The confirmed details: every field trimmed.
pub open spec fn meta_of(f: UploadForm, m: UploadMeta) -> bool {
    &&& m.title@ == trim(f.title@)
    &&& m.author@ == trim(f.author@)
    &&& m.series@ == trim(f.series@)
    &&& m.series_index@ == trim(f.series_index@)
}

impl UploadForm {
    /// An empty form.
    pub fn new() -> (f: Self)
        ensures
            stage_cleared(f),
            f.title@.len() == 0 && f.author@.len() == 0,
            f.series@.len() == 0 && f.series_index@.len() == 0,
            !f.busy && f.status is None && !f.status_is_error,
    {
        UploadForm {
            kind: None,
            filename: String::new(),
            file_bytes: None,
            audio_files: Vec::new(),
            title: String::new(),
            author: String::new(),
            more_creators: Vec::new(),
            series: String::new(),
            series_index: String::new(),
            inspected: false,
            busy: false,
            status: None,
            status_is_error: false,
        }
    }

    /// Drops whatever was staged, so stale bytes can't be committed after a
    /// later pick fails.
    pub fn clear_stage(&mut self)
        ensures
            stage_cleared(*final(self)),
            *final(self) == (UploadForm {
                kind: None,
                inspected: false,
                file_bytes: None,
                audio_files: final(self).audio_files,
                more_creators: final(self).more_creators,
                filename: final(self).filename,
                ..*old(self)
            }),
    {
        self.kind = None;
        self.inspected = false;
        self.file_bytes = None;
        self.audio_files = Vec::new();
        self.more_creators = Vec::new();
        self.filename = String::new();
    }

    fn refuse(&mut self, msg: String, busy: bool)
        ensures
            refused(*old(self), *final(self), msg@, busy),
    {
        self.clear_stage();
        self.status = Some(msg);
        self.status_is_error = true;
        self.busy = busy;
    }

    /// Files were picked. Nothing picked changes nothing; a pick that fits
    /// an ingest selects it (the result, whose files the caller then reads);
    /// any other pick clears the stage and shows why.
    pub fn on_pick(&mut self, names: &[String]) -> (kind: Option<UploadKind>)
        ensures
            names@.len() == 0 ==> kind is None && *final(self) == *old(self),
            names@.len() > 0 ==> match classify(
                names@.map_values(|n: String| n@),
                names@.map_values(|n: String| ext_of(n@)),
            ) {
                Ok(k) => kind == Some(k) && *final(self) == (UploadForm {
                    kind: Some(k),
                    ..*old(self)
                }),
                Err(m) => kind is None && refused(*old(self), *final(self), m, old(self).busy),
            },
    {
        if names.len() == 0 {
            return None;
        }
        match classify_pick(names) {
            Ok(k) => {
                self.kind = Some(k);
                Some(k)
            },
            Err(reason) => {
                let busy = self.busy;
                self.refuse(reason, busy);
                None
            },
        }
    }

    /// Reading the picked EPUB (named `name`) starts.
    pub fn begin_ebook_read(&mut self, name: &str)
        ensures
            final(self).busy,
            shows(final(self).status, "Reading "@ + name@ + "\u{2026}"@),
            !final(self).status_is_error,
            *final(self) == (UploadForm {
                busy: true,
                status: final(self).status,
                status_is_error: false,
                ..*old(self)
            }),
    {
        let mut msg = string_of("Reading ");
        push_str(&mut msg, name);
        push_str(&mut msg, "\u{2026}");
        self.busy = true;
        self.status = Some(msg);
        self.status_is_error = false;
    }

    /// The picked EPUB could not be read.
    pub fn ebook_read_failed(&mut self, err: &str)
        ensures
            refused(*old(self), *final(self), "Could not read that file: "@ + err@, false),
    {
        let mut msg = string_of("Could not read that file: ");
        push_str(&mut msg, err);
        self.refuse(msg, false);
    }

    /// The server could not inspect the EPUB.
    pub fn ebook_inspect_failed(&mut self, err: &str)
        ensures
            refused(*old(self), *final(self), "Could not read that EPUB: "@ + err@, false),
    {
        let mut msg = string_of("Could not read that EPUB: ");
        push_str(&mut msg, err);
        self.refuse(msg, false);
    }

    /// The EPUB was inspected: every field is filled from what the server
    /// read, the bytes are staged, and the confirm step opens.
    pub fn ebook_inspected(&mut self, name: String, bytes: Vec<u8>, insp: UploadInspection)
        ensures
            final(self).title@ == text_or_empty(insp.title),
            final(self).author@ == text_or_empty(insp.author),
            views(final(self).more_creators@) == after_first(views(insp.creators@)),
            final(self).series@ == text_or_empty(insp.series),
            final(self).series_index@ == text_or_empty(insp.series_index),
            final(self).filename == name,
            final(self).file_bytes == Some(bytes),
            final(self).inspected,
            shows(final(self).status, review_msg()),
            !final(self).status_is_error,
            !final(self).busy,
            final(self).kind == old(self).kind,
            final(self).audio_files == old(self).audio_files,
    {
        self.title = text_of(&insp.title);
        self.author = text_of(&insp.author);
        self.more_creators = rest_of(&insp.creators);
        self.series = text_of(&insp.series);
        self.series_index = text_of(&insp.series_index);
        self.filename = name;
        self.file_bytes = Some(bytes);
        self.inspected = true;
        self.status = Some(string_of("Review the details, then add to your library."));
        self.status_is_error = false;
        self.busy = false;
    }

    /// Reading `count` picked audiobook parts starts.
    pub fn begin_audiobook_read(&mut self, count: usize)
        ensures
            shows(
                final(self).status,
                "Reading "@ + nat_digits(count as nat) + " file"@ + (if count == 1 {
                    Seq::empty()
                } else {
                    "s"@
                }) + "\u{2026}"@,
            ),
            *final(self) == (UploadForm {
                busy: true,
                status: final(self).status,
                status_is_error: false,
                ..*old(self)
            }),
    {
        let mut msg = string_of("Reading ");
        push_u64(&mut msg, count as u64);
        push_str(&mut msg, " file");
        if count != 1 {
            push_str(&mut msg, "s");
        }
        push_str(&mut msg, "\u{2026}");
        self.busy = true;
        self.status = Some(msg);
        self.status_is_error = false;
    }

    /// The part named `name` could not be read.
    pub fn audiobook_read_failed(&mut self, name: &str, err: &str)
        ensures
            refused(*old(self), *final(self), "Could not read "@ + name@ + ": "@ + err@, false),
    {
        let mut msg = string_of("Could not read ");
        push_str(&mut msg, name);
        push_str(&mut msg, ": ");
        push_str(&mut msg, err);
        self.refuse(msg, false);
    }

    /// The server could not inspect the audiobook.
    pub fn audiobook_inspect_failed(&mut self, err: &str)
        ensures
            refused(*old(self), *final(self), "Could not read that audiobook: "@ + err@, false),
    {
        let mut msg = string_of("Could not read that audiobook: ");
        push_str(&mut msg, err);
        self.refuse(msg, false);
    }

    /// The audiobook was inspected: title, author and creators are filled,
    /// the series fields cleared (the parser reports none), the parts
    /// staged, and the confirm step opens.
    pub fn audiobook_inspected(&mut self, files: Vec<(String, Vec<u8>)>, insp: AudiobookInspection)
        ensures
            final(self).title@ == text_or_empty(insp.title),
            final(self).author@ == text_or_empty(insp.author),
            views(final(self).more_creators@) == after_first(views(insp.creators@)),
            final(self).series@.len() == 0,
            final(self).series_index@.len() == 0,
            final(self).filename@ == parts_summary(files@),
            final(self).audio_files == files,
            final(self).inspected,
            shows(final(self).status, review_msg()),
            !final(self).status_is_error,
            !final(self).busy,
            final(self).kind == old(self).kind,
            final(self).file_bytes == old(self).file_bytes,
    {
        self.title = text_of(&insp.title);
        self.author = text_of(&insp.author);
        self.more_creators = rest_of(&insp.creators);
        self.series = String::new();
        self.series_index = String::new();
        self.filename = audiobook_summary(files.as_slice());
        self.audio_files = files;
        self.inspected = true;
        self.status = Some(string_of("Review the details, then add to your library."));
        self.status_is_error = false;
        self.busy = false;
    }

    fn trimmed_text(s: &String) -> (out: String)
        ensures
            out@ == trim(s@),
    {
        let v = to_chars(s.as_str());
        let t = trimmed(&v);
        from_chars(&t)
    }

    fn complain(&mut self, msg: &str)
        ensures
            *final(self) == (UploadForm {
                status: final(self).status,
                status_is_error: true,
                ..*old(self)
            }),
            shows(final(self).status, msg@),
    {
        self.status = Some(string_of(msg));
        self.status_is_error = true;
    }

    /// The confirm form was submitted. Without a classified pick, with a
    /// blank title or author, or with nothing staged for the ingest, the
    /// form says what is missing and sends nothing; otherwise the commit
    /// starts with the trimmed details and the staged files.
    pub fn submit(&mut self) -> (req: Option<UploadRequest>)
        ensures
            match old(self).kind {
                None => req is None && shows(final(self).status, "Choose a file first."@)
                    && final(self).status_is_error && final(self).busy == old(self).busy,
                Some(k) => if trim(old(self).title@).len() == 0 || trim(old(self).author@).len()
                    == 0 {
                    req is None && shows(final(self).status, "Title and author are required."@)
                        && final(self).status_is_error && final(self).busy == old(self).busy
                } else {
                    match k {
                        UploadKind::Ebook => match old(self).file_bytes {
                            None => req is None && shows(
                                final(self).status,
                                "Choose an EPUB file first."@,
                            ) && final(self).status_is_error && final(self).busy == old(self).busy,
                            Some(b) => (req matches Some(UploadRequest::Ebook { filename, bytes, meta })
                                && filename@ == old(self).filename@ && bytes@ == b@ && meta_of(
                                *old(self),
                                meta,
                            )) && final(self).busy && shows(
                                final(self).status,
                                "Adding to your library\u{2026}"@,
                            ) && !final(self).status_is_error,
                        },
                        UploadKind::Audiobook => if old(self).audio_files.len() == 0 {
                            req is None && shows(
                                final(self).status,
                                "Choose an audiobook file first."@,
                            ) && final(self).status_is_error && final(self).busy == old(self).busy
                        } else {
                            (req matches Some(UploadRequest::Audiobook { files, meta })
                                && same_parts(files@, old(self).audio_files@) && meta_of(*old(self), meta))
                                && final(self).busy && shows(
                                final(self).status,
                                "Adding to your library\u{2026}"@,
                            ) && !final(self).status_is_error
                        },
                    }
                },
            },
    {
        let kind = match self.kind {
            Some(k) => k,
            None => {
                self.complain("Choose a file first.");
                return None;
            },
        };
        let title = Self::trimmed_text(&self.title);
        let author = Self::trimmed_text(&self.author);
        if title.as_str().unicode_len() == 0 || author.as_str().unicode_len() == 0 {
            self.complain("Title and author are required.");
            return None;
        }
        let series = Self::trimmed_text(&self.series);
        let series_index = Self::trimmed_text(&self.series_index);
        let meta = UploadMeta { title, author, series, series_index };
        let req = match kind {
            UploadKind::Ebook => match &self.file_bytes {
                None => {
                    self.complain("Choose an EPUB file first.");
                    return None;
                },
                Some(b) => UploadRequest::Ebook {
                    filename: self.filename.clone(),
                    bytes: b.clone(),
                    meta,
                },
            },
            UploadKind::Audiobook => {
                if self.audio_files.len() == 0 {
                    self.complain("Choose an audiobook file first.");
                    return None;
                }
                UploadRequest::Audiobook { files: copy_parts(&self.audio_files), meta }
            },
        };
        self.busy = true;
        self.status = Some(string_of("Adding to your library\u{2026}"));
        self.status_is_error = false;
        Some(req)
    }

    /// The commit failed; the form stays as it was for another try.
    pub fn upload_failed(&mut self, err: &str)
        ensures
            shows(final(self).status, "Upload failed: "@ + err@),
            *final(self) == (UploadForm {
                status: final(self).status,
                status_is_error: true,
                busy: false,
                ..*old(self)
            }),
    {
        let mut msg = string_of("Upload failed: ");
        push_str(&mut msg, err);
        self.status = Some(msg);
        self.status_is_error = true;
        self.busy = false;
    }

    /// The other creators, as the note under the author field lists them.
    pub fn also_credited(&self) -> (out: String)
        ensures
            out@ == comma_joined(views(self.more_creators@)),
    {
        let mut out = String::new();
        let mut i: usize = 0;
        while i < self.more_creators.len()
            invariant
                i <= self.more_creators@.len(),
                out@ == comma_joined(views(self.more_creators@).take(i as int)),
            decreases self.more_creators.len() - i,
        {
            if i > 0 {
                push_str(&mut out, ", ");
            }
            push_str(&mut out, self.more_creators[i].as_str());
            proof {
                let t = views(self.more_creators@).take(i as int + 1);
                assert(t.drop_last() =~= views(self.more_creators@).take(i as int));
                if i == 0 {
                    assert(comma_joined(views(self.more_creators@).take(0)) =~= Seq::<char>::empty());
                    assert(out@ =~= comma_joined(t));
                } else {
                    assert(out@ =~= comma_joined(t));
                }
            }
            i += 1;
        }
        proof {
            assert(views(self.more_creators@).take(self.more_creators.len() as int) =~= views(
                self.more_creators@,
            ));
        }
        out
    }
}

// ── The page ──────────────────────────────────────────────────────

/// ` disabled` on a control while the page is busy.
pub open spec fn disabled_attr(busy: bool) -> Seq<char> {
    if busy {
        " disabled"@
    } else {
        Seq::empty()
    }
}

/// The upload icon of an empty drop zone.
pub open spec fn drop_icon() -> Seq<char> {
    "<svg class=\"file-drop-icon\" width=\"28\" height=\"28\" viewBox=\"0 0 24 24\" fill=\"none\" stroke=\"currentColor\" stroke-width=\"1.5\" stroke-linecap=\"round\" stroke-linejoin=\"round\"><path d=\"M21 15v4a2 2 0 0 1-2 2H5a2 2 0 0 1-2-2v-4\"></path><polyline points=\"17 8 12 3 7 8\"></polyline><line x1=\"12\" y1=\"3\" x2=\"12\" y2=\"15\"></line></svg>"@
}

/// The check icon of a drop zone holding a pick.
pub open spec fn picked_icon() -> Seq<char> {
    "<svg class=\"file-drop-icon file-drop-icon--ok\" width=\"28\" height=\"28\" viewBox=\"0 0 24 24\" fill=\"none\" stroke=\"currentColor\" stroke-width=\"1.5\" stroke-linecap=\"round\" stroke-linejoin=\"round\"><polyline points=\"20 6 9 17 4 12\"></polyline></svg>"@
}

/// The drop zone: a prompt until something is picked, then the pick's
/// name; the file input is disabled while the page is busy.
pub open spec fn drop_zone_of(filename: Seq<char>, busy: bool) -> Seq<char> {
    "<div class=\"settings-field\"><div class=\""@ + (if filename.len() == 0 {
        "file-drop-zone"@
    } else {
        "file-drop-zone has-file"@
    }) + "\"><div class=\"file-drop-content\">"@ + (if filename.len() == 0 {
        drop_icon()
            + "<span class=\"file-drop-prompt\">Drop an EPUB or audiobook here or <strong>choose a file</strong></span>"@
    } else {
        picked_icon() + "<span class=\"file-drop-filename\">"@ + escaped(filename)
            + "</span><span class=\"file-drop-change\">Click to change</span>"@
    })
        + "</div><input id=\"add-books-file\" type=\"file\" accept=\".epub,.pdf,.m4b,.m4a,.mp4,.mp3,application/epub+zip,application/pdf,audio/mp4,audio/mpeg\" multiple data-testid=\"add-books-file-input\" aria-label=\"Book files\" class=\"file-drop-input\""@
        + disabled_attr(busy)
        + "/></div><p class=\"settings-hint\" data-testid=\"add-books-formats\">EPUB, M4B, M4A, MP4, or the MP3 parts of one audiobook.</p></div>"@
}

/// A labelled text field's opening and its input, holding `value`.
pub open spec fn field_head(id: Seq<char>, label: Seq<char>, value: Seq<char>, busy: bool) -> Seq<char> {
    "<div class=\"settings-field\"><label for=\""@ + id + "\">"@ + label + "</label><input id=\""@
        + id + "\" type=\"text\" value=\""@ + escaped(value) + "\""@ + disabled_attr(busy) + "/>"@
}

/// The note under the author field naming the file's other creators
/// (nothing when there are none).
pub open spec fn also_credited_note(also: Seq<char>) -> Seq<char> {
    if also.len() > 0 {
        "<p class=\"settings-hint\" data-testid=\"add-books-more-creators\">Also credited: "@
            + escaped(also)
            + ". Kept as additional creators \u{2014} editing Author replaces only the first name.</p>"@
    } else {
        Seq::empty()
    }
}

/// The submit row.
pub open spec fn confirm_actions(busy: bool) -> Seq<char> {
    "<div class=\"settings-actions\"><button type=\"submit\" class=\"btn\""@ + disabled_attr(busy)
        + " data-testid=\"add-books-submit\">Add to library</button></div>"@
}

/// The confirm form over the inspected metadata; under the author, the
/// other creators the file names, when there are any.
pub open spec fn confirm_form_of(f: UploadForm) -> Seq<char> {
    "<form id=\"add-books-form\" class=\"settings-form\">"@ + (field_head(
        "add-books-title"@,
        "Title"@,
        f.title@,
        f.busy,
    ) + "</div>"@) + (field_head("add-books-author"@, "Author"@, f.author@, f.busy)
        + also_credited_note(comma_joined(views(f.more_creators@))) + "</div>"@) + (field_head(
        "add-books-series"@,
        "Series"@,
        f.series@,
        f.busy,
    ) + "</div>"@) + (field_head(
        "add-books-series-index"@,
        "Series index"@,
        f.series_index@,
        f.busy,
    ) + "</div>"@) + confirm_actions(f.busy) + "</form>"@
}

/// The add-books page: a refusal for a user who may not upload; otherwise
/// the drop zone, the confirm form once the pick is inspected, and the
/// status line when there is one.
pub open spec fn add_books_page_of(can_upload: bool, f: UploadForm) -> Seq<char> {
    if !can_upload {
        "<section class=\"card\"><h1>Upload a book</h1><p class=\"settings-status error\" data-testid=\"add-books-forbidden\">You don&#39;t have permission to add books to this library.</p></section>"@
    } else {
        "<section class=\"card\"><h1>Upload a book</h1>"@ + drop_zone_of(f.filename@, f.busy) + (
        if f.inspected {
            confirm_form_of(f)
        } else {
            Seq::empty()
        }) + (match f.status {
            Some(msg) => "<p id=\"add-books-status\" data-testid=\"add-books-status\" role=\"status\" class=\""@
                + (if f.status_is_error {
                "settings-status error"@
            } else {
                "settings-status success"@
            }) + "\">"@ + escaped(msg@) + "</p>"@,
            None => Seq::empty(),
        }) + "</section>"@
    }
}

fn push_disabled(out: &mut String, busy: bool)
    ensures
        final(out)@ == old(out)@ + disabled_attr(busy),
{
    if busy {
        push_str(out, " disabled");
    }
}

fn push_field_head(out: &mut String, id: &str, label: &str, value: &str, busy: bool)
    ensures
        final(out)@ == old(out)@ + field_head(id@, label@, value@, busy),
{
    let ghost start = out@;
    push_str(out, "<div class=\"settings-field\"><label for=\"");
    push_str(out, id);
    push_str(out, "\">");
    push_str(out, label);
    push_str(out, "</label><input id=\"");
    push_str(out, id);
    push_str(out, "\" type=\"text\" value=\"");
    push_escaped(out, value);
    push_str(out, "\"");
    push_disabled(out, busy);
    push_str(out, "/>");
    assert(out@ =~= start + field_head(id@, label@, value@, busy));
}

fn push_drop_zone(out: &mut String, filename: &str, busy: bool)
    ensures
        final(out)@ == old(out)@ + drop_zone_of(filename@, busy),
{
    let ghost start = out@;
    let empty = filename.unicode_len() == 0;
    push_str(out, "<div class=\"settings-field\"><div class=\"");
    if empty {
        push_str(out, "file-drop-zone");
    } else {
        push_str(out, "file-drop-zone has-file");
    }
    push_str(out, "\"><div class=\"file-drop-content\">");
    if empty {
        push_str(
            out,
            "<svg class=\"file-drop-icon\" width=\"28\" height=\"28\" viewBox=\"0 0 24 24\" fill=\"none\" stroke=\"currentColor\" stroke-width=\"1.5\" stroke-linecap=\"round\" stroke-linejoin=\"round\"><path d=\"M21 15v4a2 2 0 0 1-2 2H5a2 2 0 0 1-2-2v-4\"></path><polyline points=\"17 8 12 3 7 8\"></polyline><line x1=\"12\" y1=\"3\" x2=\"12\" y2=\"15\"></line></svg>",
        );
        push_str(
            out,
            "<span class=\"file-drop-prompt\">Drop an EPUB or audiobook here or <strong>choose a file</strong></span>",
        );
    } else {
        push_str(
            out,
            "<svg class=\"file-drop-icon file-drop-icon--ok\" width=\"28\" height=\"28\" viewBox=\"0 0 24 24\" fill=\"none\" stroke=\"currentColor\" stroke-width=\"1.5\" stroke-linecap=\"round\" stroke-linejoin=\"round\"><polyline points=\"20 6 9 17 4 12\"></polyline></svg>",
        );
        push_str(out, "<span class=\"file-drop-filename\">");
        push_escaped(out, filename);
        push_str(out, "</span><span class=\"file-drop-change\">Click to change</span>");
    }
    push_str(
        out,
        "</div><input id=\"add-books-file\" type=\"file\" accept=\".epub,.pdf,.m4b,.m4a,.mp4,.mp3,application/epub+zip,application/pdf,audio/mp4,audio/mpeg\" multiple data-testid=\"add-books-file-input\" aria-label=\"Book files\" class=\"file-drop-input\"",
    );
    push_disabled(out, busy);
    push_str(
        out,
        "/></div><p class=\"settings-hint\" data-testid=\"add-books-formats\">EPUB, M4B, M4A, MP4, or the MP3 parts of one audiobook.</p></div>",
    );
    assert(out@ =~= start + drop_zone_of(filename@, busy));
}

fn push_field(out: &mut String, id: &str, label: &str, value: &str, busy: bool)
    ensures
        final(out)@ == old(out)@ + (field_head(id@, label@, value@, busy) + "</div>"@),
{
    let ghost start = out@;
    push_field_head(out, id, label, value, busy);
    push_str(out, "</div>");
    assert(out@ =~= start + (field_head(id@, label@, value@, busy) + "</div>"@));
}

fn push_author_field(out: &mut String, f: &UploadForm)
    ensures
        final(out)@ == old(out)@ + (field_head("add-books-author"@, "Author"@, f.author@, f.busy)
            + also_credited_note(comma_joined(views(f.more_creators@))) + "</div>"@),
{
    let ghost start = out@;
    push_field_head(out, "add-books-author", "Author", f.author.as_str(), f.busy);
    let ghost mid = out@;
    let also = f.also_credited();
    if also.unicode_len() > 0 {
        push_str(
            out,
            "<p class=\"settings-hint\" data-testid=\"add-books-more-creators\">Also credited: ",
        );
        push_escaped(out, also.as_str());
        push_str(
            out,
            ". Kept as additional creators \u{2014} editing Author replaces only the first name.</p>",
        );
    }
    assert(out@ =~= mid + also_credited_note(also@));
    push_str(out, "</div>");
    assert(out@ =~= start + (field_head("add-books-author"@, "Author"@, f.author@, f.busy)
        + also_credited_note(comma_joined(views(f.more_creators@))) + "</div>"@));
}

fn push_confirm_form(out: &mut String, f: &UploadForm)
    ensures
        final(out)@ == old(out)@ + confirm_form_of(*f),
{
    let ghost start = out@;
    push_str(out, "<form id=\"add-books-form\" class=\"settings-form\">");
    push_field(out, "add-books-title", "Title", f.title.as_str(), f.busy);
    push_author_field(out, f);
    push_field(out, "add-books-series", "Series", f.series.as_str(), f.busy);
    push_field(out, "add-books-series-index", "Series index", f.series_index.as_str(), f.busy);
    let ghost before_actions = out@;
    push_str(out, "<div class=\"settings-actions\"><button type=\"submit\" class=\"btn\"");
    push_disabled(out, f.busy);
    push_str(out, " data-testid=\"add-books-submit\">Add to library</button></div>");
    assert(out@ =~= before_actions + confirm_actions(f.busy));
    push_str(out, "</form>");
    assert(out@ =~= start + confirm_form_of(*f));
}

/// Markup of the add-books page for the form's current state.
#[allow(non_snake_case)]
#[verifier::rlimit(60)]
pub fn AddBooksPage(can_upload: bool, form: &UploadForm) -> (html: String)
    ensures
        html@ == add_books_page_of(can_upload, *form),
{
    if !can_upload {
        return string_of(
            "<section class=\"card\"><h1>Upload a book</h1><p class=\"settings-status error\" data-testid=\"add-books-forbidden\">You don&#39;t have permission to add books to this library.</p></section>",
        );
    }
    let mut out = string_of("<section class=\"card\"><h1>Upload a book</h1>");
    push_drop_zone(&mut out, form.filename.as_str(), form.busy);
    if form.inspected {
        push_confirm_form(&mut out, form);
    }
    match &form.status {
        Some(msg) => {
            push_str(
                &mut out,
                "<p id=\"add-books-status\" data-testid=\"add-books-status\" role=\"status\" class=\"",
            );
            if form.status_is_error {
                push_str(&mut out, "settings-status error");
            } else {
                push_str(&mut out, "settings-status success");
            }
            push_str(&mut out, "\">");
            push_escaped(&mut out, msg.as_str());
            push_str(&mut out, "</p>");
        },
        None => {},
    }
    push_str(&mut out, "</section>");
    assert(out@ =~= add_books_page_of(can_upload, *form));
    out
}

} // verus!
