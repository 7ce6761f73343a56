//! The physical files behind a book: which of them the listen path plays,
//! the rows of the read/listen file picker, the offline download gauge and
//! the rail's delete label.

use vstd::prelude::*;
use crate::markup::{escaped, push_escaped};
use crate::num::{int_digits, nat_digits, push_i64, push_u64};
use crate::stats::trunc_div;
use crate::text::{
    chars_eq_ignore_ascii_case, eq_ignore_ascii_case, push_str, string_of, to_chars, trim, trimmed,
    uppercase, unicode_uppercase,
};

verus! {

/// One `book_files` row of a book.
#[derive(Clone, Debug)]
pub struct BookFileInfo {
    pub id: i64,
    pub format: String,
    pub filename: String,
    pub ordinal: i64,
    pub label: Option<String>,
    pub size_bytes: i64,
    pub path: Option<String>,
    pub etag: Option<String>,
}

// ── Audio files ───────────────────────────────────────────────────

/// The audio formats the listen path resolves, compared without ASCII case.
pub open spec fn is_audio_format(format: Seq<char>) -> bool {
    eq_ignore_ascii_case(format, "M4B"@) || eq_ignore_ascii_case(format, "M4A"@)
        || eq_ignore_ascii_case(format, "MP3"@)
}

/// Whether the listen path can play this file.
pub fn is_audio_book_file(f: &BookFileInfo) -> (r: bool)
    ensures
        r == is_audio_format(f.format@),
{
    let fmt = to_chars(f.format.as_str());
    let m4b = to_chars("M4B");
    let m4a = to_chars("M4A");
    let mp3 = to_chars("MP3");
    chars_eq_ignore_ascii_case(&fmt, &m4b) || chars_eq_ignore_ascii_case(&fmt, &m4a)
        || chars_eq_ignore_ascii_case(&fmt, &mp3)
}

// ── Several files of one format ───────────────────────────────────

/// Some format (compared without ASCII case) has more than one file.
pub open spec fn multi_file_format(files: Seq<BookFileInfo>) -> bool {
    exists|i: int, j: int|
        0 <= i < j < files.len() && #[trigger] eq_ignore_ascii_case(
            files[i].format@,
            files[j].format@,
        )
}

/// Whether the file rows list every file on its own: true when some format
/// has two or more files.
pub fn has_multi_file_format(files: &[BookFileInfo]) -> (r: bool)
    ensures
        r == multi_file_format(files@),
{
    let n = files.len();
    let mut i: usize = 0;
    while i < n
        invariant
            i <= n == files@.len(),
            forall|a: int, b: int|
                0 <= a < i && a < b < n ==> !#[trigger] eq_ignore_ascii_case(
                    files@[a].format@,
                    files@[b].format@,
                ),
        decreases n - i,
    {
        let fi = to_chars(files[i].format.as_str());
        let mut j: usize = i + 1;
        while j < n
            invariant
                i < n == files@.len(),
                i + 1 <= j <= n,
                fi@ == files@[i as int].format@,
                forall|b: int|
                    i < b < j ==> !#[trigger] eq_ignore_ascii_case(
                        files@[i as int].format@,
                        files@[b].format@,
                    ),
            decreases n - j,
        {
            let fj = to_chars(files[j].format.as_str());
            if chars_eq_ignore_ascii_case(&fi, &fj) {
                return true;
            }
            j += 1;
        }
        i += 1;
    }
    false
}

// ── The file picker ───────────────────────────────────────────────

/// Which action the picker's rows perform.
#[derive(Clone, Copy, Debug, PartialEq, Eq, Structural)]
pub enum FilePickerKind {
    Read,
    Listen,
}

impl FilePickerKind {
    /// The route segment a row links under.
    pub fn route_prefix(self) -> (out: &'static str)
        ensures
            out@ == match self {
                FilePickerKind::Read => "read"@,
                FilePickerKind::Listen => "listen"@,
            },
    {
        match self {
            FilePickerKind::Read => "read",
            FilePickerKind::Listen => "listen",
        }
    }

    /// The stable test id of the picker.
    pub fn testid(self) -> (out: &'static str)
        ensures
            out@ == match self {
                FilePickerKind::Read => "read-file-picker"@,
                FilePickerKind::Listen => "listen-file-picker"@,
            },
    {
        match self {
            FilePickerKind::Read => "read-file-picker",
            FilePickerKind::Listen => "listen-file-picker",
        }
    }

    /// The dialog's accessible label.
    pub fn aria_label(self) -> (out: &'static str)
        ensures
            out@ == match self {
                FilePickerKind::Read => "Choose which file to read"@,
                FilePickerKind::Listen => "Choose which file to listen to"@,
            },
    {
        match self {
            FilePickerKind::Read => "Choose which file to read",
            FilePickerKind::Listen => "Choose which file to listen to",
        }
    }
}

/// The file's own label, when it holds any non-blank text.
pub open spec fn shown_label(label: Option<String>) -> Option<Seq<char>> {
    match label {
        Some(l) if trim(l@).len() > 0 => Some(l@),
        _ => None,
    }
}

/// A picker row's title: the format (upper-cased for reading, "Audiobook"
/// for listening), a middle dot, then the file's label or "Part {n}".
pub open spec fn item_title(file: BookFileInfo, kind: FilePickerKind) -> Seq<char> {
    (match kind {
        FilePickerKind::Read => unicode_uppercase(file.format@),
        FilePickerKind::Listen => "Audiobook"@,
    }) + " \u{b7} "@ + match shown_label(file.label) {
        Some(l) => l,
        None => "Part "@ + int_digits(file.ordinal + 1),
    }
}

/// The non-blank label of `file`, if any.
fn label_of(file: &BookFileInfo) -> (out: Option<String>)
    ensures
        match out {
            Some(o) => shown_label(file.label) == Some(o@),
            None => shown_label(file.label) is None,
        },
{
    match &file.label {
        Some(l) => {
            let v = to_chars(l.as_str());
            let t = trimmed(&v);
            if t.len() > 0 {
                Some(l.clone())
            } else {
                None
            }
        },
        None => None,
    }
}

/// The title of one picker row.
pub fn file_picker_item_title(file: &BookFileInfo, kind: FilePickerKind) -> (out: String)
    requires
        shown_label(file.label) is None ==> file.ordinal < i64::MAX,
    ensures
        out@ == item_title(*file, kind),
{
    let mut out = match kind {
        FilePickerKind::Read => uppercase(file.format.as_str()),
        FilePickerKind::Listen => string_of("Audiobook"),
    };
    push_str(&mut out, " \u{b7} ");
    match label_of(file) {
        Some(l) => push_str(&mut out, l.as_str()),
        None => {
            push_str(&mut out, "Part ");
            push_i64(&mut out, file.ordinal + 1);
        },
    }
    out
}

/// A picker row's subline, given the file's size label: nothing without a
/// size; for listening, the file's label before the size when it has one.
pub open spec fn item_meta(file: BookFileInfo, kind: FilePickerKind, size: Option<String>) -> Option<
    Seq<char>,
> {
    match size {
        None => None,
        Some(s) => Some(
            match (kind, shown_label(file.label)) {
                (FilePickerKind::Listen, Some(l)) => l + " \u{b7} "@ + s@,
                _ => s@,
            },
        ),
    }
}

/// The subline of one picker row; `size` is the file's size label, absent
/// when the size is unknown.
pub fn file_picker_item_meta(file: &BookFileInfo, kind: FilePickerKind, size: Option<String>) -> (out:
    Option<String>)
    ensures
        match out {
            Some(o) => item_meta(*file, kind, size) == Some(o@),
            None => item_meta(*file, kind, size) is None,
        },
{
    let size = match size {
        Some(s) => s,
        None => return None,
    };
    match (kind, label_of(file)) {
        (FilePickerKind::Listen, Some(l)) => {
            let mut out = l;
            push_str(&mut out, " \u{b7} ");
            push_str(&mut out, size.as_str());
            Some(out)
        },
        _ => Some(size),
    }
}

// ── The picker's markup ───────────────────────────────────────────

/// One row of the open picker: a link opening that file, its title, and
/// its subline when there is one.
pub open spec fn picker_item(uuid: Seq<char>, kind: FilePickerKind, f: BookFileInfo, meta: Option<Seq<char>>) -> Seq<char> {
    item_head(uuid, kind, f) + meta_markup(meta) + "</div></a>"@
}

/// A row's link and title.
pub open spec fn item_head(uuid: Seq<char>, kind: FilePickerKind, f: BookFileInfo) -> Seq<char> {
    "<a href=\"/"@ + kind_prefix(kind) + "/"@ + escaped(uuid) + "?file_id="@ + int_digits(f.id as int)
        + "\" class=\"bd-export-item bd-file-picker-item\" data-testid=\""@ + kind_testid(kind)
        + "-item-"@ + int_digits(f.id as int)
        + "\"><div class=\"bd-file-picker-item-copy\"><div class=\"bd-file-picker-item-title\">"@
        + escaped(item_title(f, kind)) + "</div>"@
}

/// A row's subline, when it has one.
pub open spec fn meta_markup(meta: Option<Seq<char>>) -> Seq<char> {
    match meta {
        Some(m) => "<div class=\"mono bd-file-picker-item-meta\">"@ + escaped(m) + "</div>"@,
        None => Seq::empty(),
    }
}

/// The route segment of a kind.
pub open spec fn kind_prefix(kind: FilePickerKind) -> Seq<char> {
    match kind {
        FilePickerKind::Read => "read"@,
        FilePickerKind::Listen => "listen"@,
    }
}

/// The test id of a kind's picker.
pub open spec fn kind_testid(kind: FilePickerKind) -> Seq<char> {
    match kind {
        FilePickerKind::Read => "read-file-picker"@,
        FilePickerKind::Listen => "listen-file-picker"@,
    }
}

/// The accessible label of a kind's picker.
pub open spec fn kind_aria(kind: FilePickerKind) -> Seq<char> {
    match kind {
        FilePickerKind::Read => "Choose which file to read"@,
        FilePickerKind::Listen => "Choose which file to listen to"@,
    }
}

/// The subline of the `k`-th file, from its size label.
pub open spec fn meta_at(files: Seq<BookFileInfo>, kind: FilePickerKind, sizes: Seq<Option<String>>, k: int) -> Option<Seq<char>> {
    item_meta(files[k], kind, sizes[k])
}

/// The rows of the first `n` files.
pub open spec fn picker_items(
    uuid: Seq<char>,
    kind: FilePickerKind,
    files: Seq<BookFileInfo>,
    sizes: Seq<Option<String>>,
    n: int,
) -> Seq<char>
    decreases n,
{
    if n <= 0 {
        Seq::empty()
    } else {
        picker_items(uuid, kind, files, sizes, n - 1) + picker_item(
            uuid,
            kind,
            files[n - 1],
            meta_at(files, kind, sizes, n - 1),
        )
    }
}

/// The open picker: a dialog headed with the file count, one row per file.
pub open spec fn picker_panel(uuid: Seq<char>, kind: FilePickerKind, files: Seq<BookFileInfo>, sizes: Seq<Option<String>>) -> Seq<char> {
    "<div class=\"bd-export-panel bd-file-picker-panel card\" role=\"dialog\" aria-label=\""@
        + kind_aria(kind) + "\" data-testid=\""@ + kind_testid(kind)
        + "-panel\" tabindex=\"-1\"><div class=\"label bd-file-picker-heading\" data-testid=\""@
        + kind_testid(kind) + "-heading\">"@ + nat_digits(files.len()) + " files \u{b7} choose one</div>"@
        + picker_items(uuid, kind, files, sizes, files.len() as int) + "</div>"@
}

/// The read or listen action: a plain link with fewer than two files;
/// otherwise a trigger with a caret that opens the picker (the scrim and
/// the panel only while `open`).
pub open spec fn picker_menu(
    uuid: Seq<char>,
    kind: FilePickerKind,
    files: Seq<BookFileInfo>,
    sizes: Seq<Option<String>>,
    label: Seq<char>,
    button_class: Seq<char>,
    single_testid: Seq<char>,
    open: bool,
) -> Seq<char> {
    if files.len() < 2 {
        "<a href=\"/"@ + kind_prefix(kind) + "/"@ + escaped(uuid) + "\" class=\""@ + escaped(
            button_class,
        ) + "\" data-testid=\""@ + escaped(single_testid) + "\">"@ + escaped(label) + "</a>"@
    } else {
        "<div class=\"bd-file-picker\"><button class=\""@ + escaped(button_class)
            + " bd-file-picker-trigger\" data-testid=\""@ + kind_testid(kind)
            + "-trigger\" type=\"button\" aria-haspopup=\"dialog\" aria-expanded=\""@ + (if open {
            "true"@
        } else {
            "false"@
        }) + "\" aria-label=\""@ + kind_aria(kind) + "\">"@ + escaped(label)
            + "<span class=\"bd-file-picker-caret\" aria-hidden=\"true\">\u{25be}</span></button>"@
            + (if open {
            "<div class=\"bd-export-scrim\" data-testid=\""@ + kind_testid(kind) + "-scrim\"></div>"@
                + picker_panel(uuid, kind, files, sizes)
        } else {
            Seq::empty()
        }) + "</div>"@
    }
}

/// Every file without a label has a part number that fits.
pub open spec fn ordinals_fit(files: Seq<BookFileInfo>) -> bool {
    forall|k: int|
        0 <= k < files.len() ==> (shown_label((#[trigger] files[k]).label) is None ==> files[k].ordinal
            < i64::MAX)
}

fn push_item_head(out: &mut String, uuid: &str, kind: FilePickerKind, f: &BookFileInfo)
    requires
        shown_label(f.label) is None ==> f.ordinal < i64::MAX,
    ensures
        final(out)@ == old(out)@ + item_head(uuid@, kind, *f),
{
    let ghost start = out@;
    push_str(out, "<a href=\"/");
    push_str(out, kind.route_prefix());
    push_str(out, "/");
    push_escaped(out, uuid);
    push_str(out, "?file_id=");
    push_i64(out, f.id);
    push_str(out, "\" class=\"bd-export-item bd-file-picker-item\" data-testid=\"");
    push_str(out, kind.testid());
    push_str(out, "-item-");
    push_i64(out, f.id);
    push_str(out, "\"><div class=\"bd-file-picker-item-copy\"><div class=\"bd-file-picker-item-title\">");
    let title = file_picker_item_title(f, kind);
    push_escaped(out, title.as_str());
    push_str(out, "</div>");
    assert(out@ =~= start + item_head(uuid@, kind, *f));
}

fn push_meta(out: &mut String, f: &BookFileInfo, kind: FilePickerKind, size: Option<String>)
    ensures
        final(out)@ == old(out)@ + meta_markup(item_meta(*f, kind, size)),
{
    let ghost start = out@;
    let meta = file_picker_item_meta(f, kind, size);
    match meta {
        Some(m) => {
            push_str(out, "<div class=\"mono bd-file-picker-item-meta\">");
            push_escaped(out, m.as_str());
            push_str(out, "</div>");
        },
        None => {},
    }
    assert(out@ =~= start + meta_markup(item_meta(*f, kind, size)));
}

fn push_picker_item(
    out: &mut String,
    uuid: &str,
    kind: FilePickerKind,
    f: &BookFileInfo,
    size: Option<String>,
)
    requires
        shown_label(f.label) is None ==> f.ordinal < i64::MAX,
    ensures
        final(out)@ == old(out)@ + picker_item(uuid@, kind, *f, item_meta(*f, kind, size)),
{
    let ghost start = out@;
    push_item_head(out, uuid, kind, f);
    push_meta(out, f, kind, size);
    push_str(out, "</div></a>");
    assert(out@ =~= start + picker_item(uuid@, kind, *f, item_meta(*f, kind, size)));
}

/// Markup of the open picker; `sizes[k]` is the size label of `files[k]`.
pub fn file_picker_panel(uuid: &str, kind: FilePickerKind, files: &[BookFileInfo], sizes: &[Option<String>]) -> (html: String)
    requires
        sizes@.len() == files@.len(),
        ordinals_fit(files@),
    ensures
        html@ == picker_panel(uuid@, kind, files@, sizes@),
{
    let mut out = string_of("<div class=\"bd-export-panel bd-file-picker-panel card\" role=\"dialog\" aria-label=\"");
    push_str(&mut out, kind.aria_label());
    push_str(&mut out, "\" data-testid=\"");
    push_str(&mut out, kind.testid());
    push_str(&mut out, "-panel\" tabindex=\"-1\"><div class=\"label bd-file-picker-heading\" data-testid=\"");
    push_str(&mut out, kind.testid());
    push_str(&mut out, "-heading\">");
    push_u64(&mut out, files.len() as u64);
    push_str(&mut out, " files \u{b7} choose one</div>");
    let ghost head = out@;
    let mut i: usize = 0;
    while i < files.len()
        invariant
            i <= files@.len() == sizes@.len(),
            ordinals_fit(files@),
            out@ == head + picker_items(uuid@, kind, files@, sizes@, i as int),
        decreases files.len() - i,
    {
        let size = match &sizes[i] {
            Some(s) => Some(s.clone()),
            None => None,
        };
        assert(shown_label(files@[i as int].label) is None ==> files@[i as int].ordinal < i64::MAX);
        proof {
            if size is Some {
                assert(size->0@ == sizes@[i as int]->0@);
            }
            assert(item_meta(files@[i as int], kind, size) == meta_at(files@, kind, sizes@, i as int));
        }
        push_picker_item(&mut out, uuid, kind, &files[i], size);
        i += 1;
    }
    push_str(&mut out, "</div>");
    assert(out@ =~= picker_panel(uuid@, kind, files@, sizes@));
    out
}

/// Markup of the read or listen action with its picker.
pub fn file_picker_menu(
    uuid: &str,
    kind: FilePickerKind,
    files: &[BookFileInfo],
    sizes: &[Option<String>],
    label: &str,
    button_class: &str,
    single_testid: &str,
    open: bool,
) -> (html: String)
    requires
        sizes@.len() == files@.len(),
        ordinals_fit(files@),
    ensures
        html@ == picker_menu(uuid@, kind, files@, sizes@, label@, button_class@, single_testid@, open),
{
    let mut out = String::new();
    if files.len() < 2 {
        push_str(&mut out, "<a href=\"/");
        push_str(&mut out, kind.route_prefix());
        push_str(&mut out, "/");
        push_escaped(&mut out, uuid);
        push_str(&mut out, "\" class=\"");
        push_escaped(&mut out, button_class);
        push_str(&mut out, "\" data-testid=\"");
        push_escaped(&mut out, single_testid);
        push_str(&mut out, "\">");
        push_escaped(&mut out, label);
        push_str(&mut out, "</a>");
        assert(out@ =~= picker_menu(uuid@, kind, files@, sizes@, label@, button_class@, single_testid@, open));
        return out;
    }
    push_str(&mut out, "<div class=\"bd-file-picker\"><button class=\"");
    push_escaped(&mut out, button_class);
    push_str(&mut out, " bd-file-picker-trigger\" data-testid=\"");
    push_str(&mut out, kind.testid());
    push_str(&mut out, "-trigger\" type=\"button\" aria-haspopup=\"dialog\" aria-expanded=\"");
    push_str(&mut out, if open { "true" } else { "false" });
    push_str(&mut out, "\" aria-label=\"");
    push_str(&mut out, kind.aria_label());
    push_str(&mut out, "\">");
    push_escaped(&mut out, label);
    push_str(&mut out, "<span class=\"bd-file-picker-caret\" aria-hidden=\"true\">\u{25be}</span></button>");
    if open {
        push_str(&mut out, "<div class=\"bd-export-scrim\" data-testid=\"");
        push_str(&mut out, kind.testid());
        push_str(&mut out, "-scrim\"></div>");
        let panel = file_picker_panel(uuid, kind, files, sizes);
        push_str(&mut out, panel.as_str());
    }
    push_str(&mut out, "</div>");
    assert(out@ =~= picker_menu(uuid@, kind, files@, sizes@, label@, button_class@, single_testid@, open));
    out
}

// ── Offline download gauge ────────────────────────────────────────

/// The download gauge's fill: the downloaded share of the total, in whole
/// percent rounded toward zero and held to 0..=100; a sliver of 6 while
/// the total is unknown.
pub open spec fn download_percent(downloaded: int, total: Option<i64>) -> int {
    match total {
        Some(t) if t > 0 => {
            let p = trunc_div(downloaded * 100, t as int);
            if p < 0 {
                0
            } else if p > 100 {
                100
            } else {
                p
            }
        },
        _ => 6,
    }
}

/// The fill of an offline download's progress bar.
pub fn progress_pct(downloaded: i64, total: Option<i64>) -> (p: i64)
    requires
        total matches Some(t) && t > 0 ==> i64::MIN <= downloaded * 100 <= i64::MAX,
    ensures
        p == download_percent(downloaded as int, total),
{
    match total {
        Some(t) if t > 0 => {
            let scaled = downloaded * 100;
            if scaled < 0 {
                assert((-(scaled as int)) / (t as int) >= 0) by (nonlinear_arith)
                    requires scaled < 0, t > 0;
                return 0;
            }
            let q = scaled / t;
            assert(q == scaled as int / t as int);
            if q > 100 {
                100
            } else {
                q
            }
        },
        _ => 6,
    }
}

// ── Offline copies ────────────────────────────────────────────────

/// Where a format's offline copy stands on this device.
#[derive(Clone, Debug)]
pub enum DownloadStatus {
    NotDownloaded,
    Downloading { downloaded: i64, total: Option<i64> },
    Error { message: String },
    Complete { bytes: i64 },
}

/// The action a download row offers.
#[derive(Clone, Copy, Debug, PartialEq, Eq, Structural)]
pub enum DlAction {
    /// Start the download.
    Download,
    /// Nothing to press while it runs.
    Busy,
    /// Try a failed download again.
    Retry,
    /// Replace a copy the server has superseded.
    Redownload,
    /// Delete the copy.
    Remove,
}

/// The action for a row in `status`; `stale` marks a complete copy the
/// server has since replaced.
pub open spec fn dl_action_of(status: DownloadStatus, stale: bool) -> DlAction {
    match status {
        DownloadStatus::NotDownloaded => DlAction::Download,
        DownloadStatus::Downloading { .. } => DlAction::Busy,
        DownloadStatus::Error { .. } => DlAction::Retry,
        DownloadStatus::Complete { .. } => if stale {
            DlAction::Redownload
        } else {
            DlAction::Remove
        },
    }
}

/// The action a download row offers.
pub fn dl_row_action(status: &DownloadStatus, stale: bool) -> (a: DlAction)
    ensures
        a == dl_action_of(*status, stale),
{
    match status {
        DownloadStatus::NotDownloaded => DlAction::Download,
        DownloadStatus::Downloading { .. } => DlAction::Busy,
        DownloadStatus::Error { .. } => DlAction::Retry,
        DownloadStatus::Complete { .. } => if stale {
            DlAction::Redownload
        } else {
            DlAction::Remove
        },
    }
}

/// Whether the "Available offline" section shows: the book has a format to
/// download, and the account may download (assumed until the viewer is
/// known).
pub fn offline_section_shown(has_ebook: bool, has_audio: bool, can_download: Option<bool>) -> (b: bool)
    ensures
        b == ((has_ebook || has_audio) && match can_download {
            Some(c) => c,
            None => true,
        }),
{
    (has_ebook || has_audio) && match can_download {
        Some(c) => c,
        None => true,
    }
}

/// The name a downloads row shows: the title, or "Untitled".
pub fn download_title(title: &str) -> (out: String)
    ensures
        out@ == if title@.len() == 0 {
            "Untitled"@
        } else {
            title@
        },
{
    if title.unicode_len() == 0 {
        string_of("Untitled")
    } else {
        string_of(title)
    }
}

/// Whether a downloads row offers Remove: for a finished or failed copy.
pub fn download_removable(status: &DownloadStatus) -> (b: bool)
    ensures
        b == (*status is Complete || *status is Error),
{
    match status {
        DownloadStatus::Complete { .. } | DownloadStatus::Error { .. } => true,
        _ => false,
    }
}

/// A downloads row's subline: the format, then the size (finished), the
/// running size (downloading) or the failure; `size` is the size label of
/// the bytes the status carries.
pub open spec fn download_subline_of(format_label: Seq<char>, status: DownloadStatus, size: Seq<char>) -> Seq<char> {
    match status {
        DownloadStatus::Complete { .. } => format_label + " \u{b7} "@ + size,
        DownloadStatus::Downloading { .. } => format_label + " \u{b7} downloading \u{2026} "@ + size,
        DownloadStatus::Error { message } => format_label + " \u{b7} "@ + message@,
        DownloadStatus::NotDownloaded => format_label,
    }
}

/// The subline of a downloads row.
pub fn download_subline(format_label: &str, status: &DownloadStatus, size: &str) -> (out: String)
    ensures
        out@ == download_subline_of(format_label@, *status, size@),
{
    let mut out = string_of(format_label);
    match status {
        DownloadStatus::Complete { .. } => {
            push_str(&mut out, " \u{b7} ");
            push_str(&mut out, size);
        },
        DownloadStatus::Downloading { .. } => {
            push_str(&mut out, " \u{b7} downloading \u{2026} ");
            push_str(&mut out, size);
        },
        DownloadStatus::Error { message } => {
            push_str(&mut out, " \u{b7} ");
            push_str(&mut out, message.as_str());
        },
        DownloadStatus::NotDownloaded => {},
    }
    out
}

// ── Delete ────────────────────────────────────────────────────────

/// The rail's delete button: it promises files only when there are files.
pub fn delete_label(has_files: bool) -> (out: &'static str)
    ensures
        out@ == if has_files {
            "Delete files\u{2026}"@
        } else {
            "Delete record\u{2026}"@
        },
{
    if has_files {
        "Delete files\u{2026}"
    } else {
        "Delete record\u{2026}"
    }
}

} // verus!
