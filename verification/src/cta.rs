//! The book's call-to-action row: which read / listen / export actions a
//! book offers for the formats it has, and the markup the row renders, on
//! the hero and on the marquee's home stop.

use vstd::prelude::*;
use crate::markup::{escaped, push_escaped};
use crate::text::{push_str, string_of};

verus! {

/// One entry of the CTA row.
#[derive(Clone, Copy, PartialEq, Eq, Structural, Debug)]
pub enum CtaAction {
    /// Stands in for every action on a book with no files at all.
    NoFilesDisclaimer,
    /// Open the EPUB reader (primary).
    StartReading,
    /// Open the audiobook player (primary when there is no EPUB).
    StartListening,
    /// Open the comic pager (primary when there is neither EPUB nor audio).
    StartReadingComic,
    /// Open the audiobook player beside an EPUB primary.
    ListenSecondary,
    /// EPUB reader with the audiobook docked; dual-format books only.
    ImmersiveRead,
    /// The download / send-to-device menu.
    Export,
}

/// Which formats a book has, and how many files of the two pickable ones.
#[derive(Clone, Copy, PartialEq, Eq, Structural, Debug)]
pub struct CtaFormats {
    pub has_ebook: bool,
    pub has_audio: bool,
    pub has_comic: bool,
    /// EPUB files of the book; two or more turn the read CTA into a picker.
    pub epub_files: usize,
    /// Audiobook files of the book; two or more turn listen into a picker.
    pub audio_files: usize,
}

/// Where the row is drawn: the hero, or the marquee's home stop, whose
/// labels are terser and switch to resume verbs once a position exists.
#[derive(Clone, Copy, PartialEq, Eq, Structural, Debug)]
pub enum CtaSurface {
    Hero,
    Marquee { resume_reading: bool, resume_listening: bool },
}

/// The row's entries, in order.
pub open spec fn cta_plan(has_ebook: bool, has_audio: bool, has_comic: bool) -> Seq<CtaAction> {
    if !has_ebook && !has_audio && !has_comic {
        seq![CtaAction::NoFilesDisclaimer]
    } else {
        let primary = if has_ebook {
            CtaAction::StartReading
        } else if has_audio {
            CtaAction::StartListening
        } else {
            CtaAction::StartReadingComic
        };
        let dual = if has_ebook && has_audio {
            seq![CtaAction::ListenSecondary, CtaAction::ImmersiveRead]
        } else {
            Seq::empty()
        };
        seq![primary] + dual + seq![CtaAction::Export]
    }
}

/// The entries of the CTA row for a book with the given formats.
pub fn cta_actions(has_ebook: bool, has_audio: bool, has_comic: bool) -> (v: Vec<CtaAction>)
    ensures
        v@ == cta_plan(has_ebook, has_audio, has_comic),
{
    let mut v: Vec<CtaAction> = Vec::new();
    if !has_ebook && !has_audio && !has_comic {
        v.push(CtaAction::NoFilesDisclaimer);
        assert(v@ =~= seq![CtaAction::NoFilesDisclaimer]);
        return v;
    }
    if has_ebook {
        v.push(CtaAction::StartReading);
    } else if has_audio {
        v.push(CtaAction::StartListening);
    } else {
        v.push(CtaAction::StartReadingComic);
    }
    if has_ebook && has_audio {
        v.push(CtaAction::ListenSecondary);
        v.push(CtaAction::ImmersiveRead);
    }
    v.push(CtaAction::Export);
    assert(v@ =~= cta_plan(has_ebook, has_audio, has_comic));
    v
}

/// Immersive Read is offered exactly when the book has both an EPUB and an
/// audiobook.
pub proof fn lemma_immersive_needs_both_formats(has_ebook: bool, has_audio: bool, has_comic: bool)
    ensures
        cta_plan(has_ebook, has_audio, has_comic).contains(CtaAction::ImmersiveRead) <==> (
        has_ebook && has_audio),
{
    let p = cta_plan(has_ebook, has_audio, has_comic);
    if has_ebook && has_audio {
        assert(p[2] == CtaAction::ImmersiveRead);
    }
}

/// A book with no file of any format shows the disclaimer and nothing
/// else; any file at all hides it.
pub proof fn lemma_disclaimer_iff_fileless(has_ebook: bool, has_audio: bool, has_comic: bool)
    ensures
        cta_plan(has_ebook, has_audio, has_comic).contains(CtaAction::NoFilesDisclaimer) <==> (
        !has_ebook && !has_audio && !has_comic),
        (!has_ebook && !has_audio && !has_comic) ==> cta_plan(has_ebook, has_audio, has_comic)
            == seq![CtaAction::NoFilesDisclaimer],
{
    let p = cta_plan(has_ebook, has_audio, has_comic);
    if !has_ebook && !has_audio && !has_comic {
        assert(p[0] == CtaAction::NoFilesDisclaimer);
    }
}

/// The primary action follows the formats in the order EPUB, audiobook,
/// comic: an EPUB wins over a comic, and the comic pager is offered only
/// when it is the book's one readable format.
pub proof fn lemma_primary_action_order(has_ebook: bool, has_audio: bool, has_comic: bool)
    ensures
        has_ebook ==> cta_plan(has_ebook, has_audio, has_comic)[0] == CtaAction::StartReading,
        !has_ebook && has_audio ==> cta_plan(has_ebook, has_audio, has_comic)[0]
            == CtaAction::StartListening,
        cta_plan(has_ebook, has_audio, has_comic).contains(CtaAction::StartReadingComic) <==> (
        !has_ebook && !has_audio && has_comic),
{
    let p = cta_plan(has_ebook, has_audio, has_comic);
    if !has_ebook && !has_audio && has_comic {
        assert(p[0] == CtaAction::StartReadingComic);
    }
}

/// A read or listen action: a single link when the book has fewer than two
/// files of the format, else the trigger of the file picker.
pub open spec fn picker_markup(
    route: Seq<char>,
    picker: Seq<char>,
    uuid: Seq<char>,
    files: usize,
    label: Seq<char>,
    class: Seq<char>,
    testid: Seq<char>,
) -> Seq<char> {
    if files < 2 {
        "<a href=\"/"@ + route + "/"@ + escaped(uuid) + "\" class=\""@ + class
            + "\" data-testid=\""@ + testid + "\">"@ + label + "</a>"@
    } else {
        "<div class=\"bd-file-picker\"><button class=\""@ + class
            + " bd-file-picker-trigger\" data-testid=\""@ + picker
            + "-trigger\" type=\"button\" aria-haspopup=\"dialog\" aria-expanded=\"false\">"@
            + label + "</button></div>"@
    }
}

fn push_picker(
    out: &mut String,
    route: &str,
    picker: &str,
    uuid: &str,
    files: usize,
    label: &str,
    class: &str,
    testid: &str,
)
    ensures
        final(out)@ == old(out)@ + picker_markup(
            route@,
            picker@,
            uuid@,
            files,
            label@,
            class@,
            testid@,
        ),
{
    let ghost start = out@;
    if files < 2 {
        push_str(out, "<a href=\"/");
        push_str(out, route);
        push_str(out, "/");
        push_escaped(out, uuid);
        push_str(out, "\" class=\"");
        push_str(out, class);
        push_str(out, "\" data-testid=\"");
        push_str(out, testid);
        push_str(out, "\">");
        push_str(out, label);
        push_str(out, "</a>");
    } else {
        push_str(out, "<div class=\"bd-file-picker\"><button class=\"");
        push_str(out, class);
        push_str(out, " bd-file-picker-trigger\" data-testid=\"");
        push_str(out, picker);
        push_str(
            out,
            "-trigger\" type=\"button\" aria-haspopup=\"dialog\" aria-expanded=\"false\">",
        );
        push_str(out, label);
        push_str(out, "</button></div>");
    }
    assert(out@ =~= start + picker_markup(
        route@,
        picker@,
        uuid@,
        files,
        label@,
        class@,
        testid@,
    ));
}

/// Label of the primary read action.
pub open spec fn read_label(surface: CtaSurface) -> Seq<char> {
    match surface {
        CtaSurface::Marquee { resume_reading: true, .. } => "Resume reading"@,
        _ => "Start reading"@,
    }
}

/// Label of the primary listen action.
pub open spec fn listen_label(surface: CtaSurface) -> Seq<char> {
    match surface {
        CtaSurface::Marquee { resume_listening: true, .. } => "Resume listening"@,
        _ => "Start listening"@,
    }
}

/// Label of the Immersive Read action.
pub open spec fn immersive_label(surface: CtaSurface) -> Seq<char> {
    match surface {
        CtaSurface::Hero => "Immersive Read"@,
        CtaSurface::Marquee { .. } => "Immersive"@,
    }
}

/// Markup of one entry of the row.
pub open spec fn action_markup(
    a: CtaAction,
    uuid: Seq<char>,
    formats: CtaFormats,
    surface: CtaSurface,
) -> Seq<char> {
    match a {
        CtaAction::NoFilesDisclaimer => "<p class=\"bd-no-files\" data-testid=\"no-files-disclaimer\">No ebook or audiobook files in your library yet \u{2014} this title is tracked from your physical collection or wishlist.</p>"@,
        CtaAction::StartReading => picker_markup(
            "read"@,
            "read-file-picker"@,
            uuid,
            formats.epub_files,
            read_label(surface),
            "btn primary lg"@,
            "start-reading"@,
        ),
        CtaAction::StartListening => picker_markup(
            "listen"@,
            "listen-file-picker"@,
            uuid,
            formats.audio_files,
            listen_label(surface),
            "btn primary lg"@,
            "start-listening"@,
        ),
        CtaAction::StartReadingComic => "<a href=\"/comic/"@ + escaped(uuid)
            + "\" class=\"btn primary lg\" data-testid=\"start-reading-comic\">"@ + read_label(
            surface,
        ) + "</a>"@,
        CtaAction::ListenSecondary => picker_markup(
            "listen"@,
            "listen-file-picker"@,
            uuid,
            formats.audio_files,
            "Listen"@,
            "btn lg"@,
            "listen-secondary"@,
        ),
        CtaAction::ImmersiveRead => "<button class=\"btn lg bd-immersive-cta\" type=\"button\" data-testid=\"immersive-read\" title=\"Open the ereader and audiobook together, kept in sync\">"@
            + immersive_label(surface) + "</button>"@,
        CtaAction::Export => "<div class=\"bd-export\"><button class=\"btn lg ghost bd-export-trigger\" data-testid=\"hero-export\" type=\"button\" aria-haspopup=\"dialog\" aria-expanded=\"false\">Export</button></div>"@,
    }
}

/// Markup of a run of entries, one after another.
pub open spec fn actions_markup(
    acts: Seq<CtaAction>,
    uuid: Seq<char>,
    formats: CtaFormats,
    surface: CtaSurface,
) -> Seq<char>
    decreases acts.len(),
{
    if acts.len() == 0 {
        Seq::empty()
    } else {
        actions_markup(acts.drop_last(), uuid, formats, surface) + action_markup(
            acts.last(),
            uuid,
            formats,
            surface,
        )
    }
}

/// Markup of the whole row.
pub open spec fn cta_row_markup(uuid: Seq<char>, formats: CtaFormats, surface: CtaSurface) -> Seq<
    char,
> {
    "<div class=\"bd-cta-row\">"@ + actions_markup(
        cta_plan(formats.has_ebook, formats.has_audio, formats.has_comic),
        uuid,
        formats,
        surface,
    ) + "</div>"@
}

fn push_action(
    out: &mut String,
    a: CtaAction,
    uuid: &str,
    formats: CtaFormats,
    surface: CtaSurface,
)
    ensures
        final(out)@ == old(out)@ + action_markup(a, uuid@, formats, surface),
{
    let ghost start = out@;
    let read = match surface {
        CtaSurface::Marquee { resume_reading: true, .. } => "Resume reading",
        _ => "Start reading",
    };
    let listen = match surface {
        CtaSurface::Marquee { resume_listening: true, .. } => "Resume listening",
        _ => "Start listening",
    };
    match a {
        CtaAction::NoFilesDisclaimer => {
            push_str(
                out,
                "<p class=\"bd-no-files\" data-testid=\"no-files-disclaimer\">No ebook or audiobook files in your library yet \u{2014} this title is tracked from your physical collection or wishlist.</p>",
            );
        },
        CtaAction::StartReading => {
            push_picker(
                out,
                "read",
                "read-file-picker",
                uuid,
                formats.epub_files,
                read,
                "btn primary lg",
                "start-reading",
            );
        },
        CtaAction::StartListening => {
            push_picker(
                out,
                "listen",
                "listen-file-picker",
                uuid,
                formats.audio_files,
                listen,
                "btn primary lg",
                "start-listening",
            );
        },
        CtaAction::StartReadingComic => {
            push_str(out, "<a href=\"/comic/");
            push_escaped(out, uuid);
            push_str(out, "\" class=\"btn primary lg\" data-testid=\"start-reading-comic\">");
            push_str(out, read);
            push_str(out, "</a>");
        },
        CtaAction::ListenSecondary => {
            push_picker(
                out,
                "listen",
                "listen-file-picker",
                uuid,
                formats.audio_files,
                "Listen",
                "btn lg",
                "listen-secondary",
            );
        },
        CtaAction::ImmersiveRead => {
            push_str(
                out,
                "<button class=\"btn lg bd-immersive-cta\" type=\"button\" data-testid=\"immersive-read\" title=\"Open the ereader and audiobook together, kept in sync\">",
            );
            match surface {
                CtaSurface::Hero => push_str(out, "Immersive Read"),
                CtaSurface::Marquee { .. } => push_str(out, "Immersive"),
            }
            push_str(out, "</button>");
        },
        CtaAction::Export => {
            push_str(
                out,
                "<div class=\"bd-export\"><button class=\"btn lg ghost bd-export-trigger\" data-testid=\"hero-export\" type=\"button\" aria-haspopup=\"dialog\" aria-expanded=\"false\">Export</button></div>",
            );
        },
    }
    assert(out@ =~= start + action_markup(a, uuid@, formats, surface));
}

/// The CTA row of a book with the given formats, drawn on `surface`.
pub fn render_cta_row_on(uuid: &str, formats: CtaFormats, surface: CtaSurface) -> (html: String)
    ensures
        html@ == cta_row_markup(uuid@, formats, surface),
{
    let acts = cta_actions(formats.has_ebook, formats.has_audio, formats.has_comic);
    let mut out = string_of("<div class=\"bd-cta-row\">");
    let mut i: usize = 0;
    while i < acts.len()
        invariant
            i <= acts.len(),
            out@ == "<div class=\"bd-cta-row\">"@ + actions_markup(
                acts@.take(i as int),
                uuid@,
                formats,
                surface,
            ),
        decreases acts.len() - i,
    {
        push_action(&mut out, acts[i], uuid, formats, surface);
        proof {
            let t = acts@.take(i as int + 1);
            assert(t.drop_last() =~= acts@.take(i as int));
            assert(t.last() == acts@[i as int]);
        }
        i += 1;
    }
    proof {
        assert(acts@.take(acts.len() as int) =~= acts@);
    }
    push_str(&mut out, "</div>");
    out
}

/// Formats of a book with no more than one file of each kind.
pub open spec fn simple_formats(has_ebook: bool, has_audio: bool, has_comic: bool) -> CtaFormats {
    CtaFormats { has_ebook, has_audio, has_comic, epub_files: 0, audio_files: 0 }
}

/// The hero CTA row of a book without a comic and with at most one file per
/// format.
pub fn render_cta_row(uuid: &str, has_ebook: bool, has_audio: bool) -> (html: String)
    ensures
        html@ == cta_row_markup(uuid@, simple_formats(has_ebook, has_audio, false), CtaSurface::Hero),
{
    render_cta_row_with_comic(uuid, has_ebook, has_audio, false)
}

/// The hero CTA row of a book with at most one file per format.
pub fn render_cta_row_with_comic(uuid: &str, has_ebook: bool, has_audio: bool, has_comic: bool) -> (html: String)
    ensures
        html@ == cta_row_markup(
            uuid@,
            simple_formats(has_ebook, has_audio, has_comic),
            CtaSurface::Hero,
        ),
{
    let formats = CtaFormats {
        has_ebook,
        has_audio,
        has_comic,
        epub_files: 0,
        audio_files: 0,
    };
    render_cta_row_on(uuid, formats, CtaSurface::Hero)
}

/// The hero CTA row of a book whose only format is a comic.
#[allow(non_snake_case)]
pub fn ComicOnlyHost(uuid: &str) -> (html: String)
    ensures
        html@ == cta_row_markup(uuid@, simple_formats(false, false, true), CtaSurface::Hero),
{
    render_cta_row_with_comic(uuid, false, false, true)
}

/// The hero CTA row of a book with an EPUB and a comic.
#[allow(non_snake_case)]
pub fn EpubAndComicHost(uuid: &str) -> (html: String)
    ensures
        html@ == cta_row_markup(uuid@, simple_formats(true, false, true), CtaSurface::Hero),
{
    render_cta_row_with_comic(uuid, true, false, true)
}

// ── Format badges ─────────────────────────────────────────────────

/// The badge beside the format badges when the book is in the reader's
/// physical collection.
pub fn phys_badge() -> (html: &'static str)
    ensures
        html@ == "<span class=\"bd-fmt-badge bd-fmt-badge--physical\" data-testid=\"format-badge-physical\" title=\"In your physical collection\">Physical</span>"@,
{
    "<span class=\"bd-fmt-badge bd-fmt-badge--physical\" data-testid=\"format-badge-physical\" title=\"In your physical collection\">Physical</span>"
}

/// The badge beside the format badges when the book is on the reader's
/// physical wishlist.
pub fn wishlist_badge() -> (html: &'static str)
    ensures
        html@ == "<span class=\"bd-fmt-badge bd-fmt-badge--physical\" data-testid=\"format-badge-wishlist\" title=\"On your physical wishlist\">Physical Wishlist</span>"@,
{
    "<span class=\"bd-fmt-badge bd-fmt-badge--physical\" data-testid=\"format-badge-wishlist\" title=\"On your physical wishlist\">Physical Wishlist</span>"
}

// ── The export menu ───────────────────────────────────────────────

/// One row of the export menu.
#[derive(Clone, Copy, PartialEq, Eq, Structural, Debug)]
pub enum ExportItem {
    DownloadEpub,
    DownloadAudio,
    /// The send-to-Kindle button.
    SendToKindle,
    /// The muted row with the link to Amazon's uploader, for an EPUB too
    /// large to email.
    KindleTooLarge,
    SendToKobo,
}

/// The menu's rows, in order: downloads for the formats the book has, then
/// the two sends, which need an EPUB (Kindle's swapped for the uploader
/// link when the EPUB is too large to email).
pub open spec fn export_items_of(has_ebook: bool, has_audio: bool, kindle_oversize: bool) -> Seq<ExportItem> {
    (if has_ebook {
        seq![ExportItem::DownloadEpub]
    } else {
        Seq::empty()
    }) + (if has_audio {
        seq![ExportItem::DownloadAudio]
    } else {
        Seq::empty()
    }) + (if has_ebook {
        seq![
            if kindle_oversize {
                ExportItem::KindleTooLarge
            } else {
                ExportItem::SendToKindle
            },
            ExportItem::SendToKobo,
        ]
    } else {
        Seq::empty()
    })
}

/// The EPUB's size for the email cap check: a negative size (a corrupt
/// row) counts as unknown rather than wrapping to a huge one.
pub fn epub_size_for_cap(epub_size_bytes: Option<i64>) -> (out: Option<u64>)
    ensures
        out == match epub_size_bytes {
            Some(n) if n >= 0 => Some(n as u64),
            _ => None,
        },
{
    match epub_size_bytes {
        Some(n) => if n >= 0 {
            Some(n as u64)
        } else {
            None
        },
        None => None,
    }
}

/// The rows of the export menu; `kindle_oversize` says the EPUB is over
/// Kindle's email cap.
pub fn export_items(has_ebook: bool, has_audio: bool, kindle_oversize: bool) -> (out: Vec<ExportItem>)
    ensures
        out@ == export_items_of(has_ebook, has_audio, kindle_oversize),
{
    let mut out: Vec<ExportItem> = Vec::new();
    if has_ebook {
        out.push(ExportItem::DownloadEpub);
    }
    if has_audio {
        out.push(ExportItem::DownloadAudio);
    }
    if has_ebook {
        if kindle_oversize {
            out.push(ExportItem::KindleTooLarge);
        } else {
            out.push(ExportItem::SendToKindle);
        }
        out.push(ExportItem::SendToKobo);
    }
    assert(out@ =~= export_items_of(has_ebook, has_audio, kindle_oversize));
    out
}

} // verus!
