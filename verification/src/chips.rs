//! The genre and tag chip lists of the book hero: their per-kind labels,
//! the list's markup with the admin's "+ genres" / "+ tags" pill, and when
//! the shown chips follow a refetched book.

use vstd::prelude::*;
use crate::markup::{escaped, push_escaped};
use crate::text::push_str;

verus! {

/// Which override-backed chip list an editor edits.
#[derive(Clone, Copy, Debug, PartialEq, Eq, Structural)]
pub enum BdChipKind {
    Genres,
    Tags,
}

/// The list's classes.
pub open spec fn list_class_of(k: BdChipKind) -> Seq<char> {
    match k {
        BdChipKind::Genres => "bd-tag-list bd-genre-list"@,
        BdChipKind::Tags => "bd-tag-list"@,
    }
}

/// The list's test id.
pub open spec fn list_testid_of(k: BdChipKind) -> Seq<char> {
    match k {
        BdChipKind::Genres => "bd-genre-list"@,
        BdChipKind::Tags => "bd-tag-list"@,
    }
}

/// One chip's classes.
pub open spec fn chip_class_of(k: BdChipKind) -> Seq<char> {
    match k {
        BdChipKind::Genres => "chip chip-genre"@,
        BdChipKind::Tags => "chip"@,
    }
}

/// The add pill's label.
pub open spec fn add_label_of(k: BdChipKind) -> Seq<char> {
    match k {
        BdChipKind::Genres => "+ genres"@,
        BdChipKind::Tags => "+ tags"@,
    }
}

/// The add pill's test id.
pub open spec fn add_testid_of(k: BdChipKind) -> Seq<char> {
    match k {
        BdChipKind::Genres => "bd-add-genres"@,
        BdChipKind::Tags => "bd-add-tags"@,
    }
}

/// The editor host's test id.
pub open spec fn editor_testid_of(k: BdChipKind) -> Seq<char> {
    match k {
        BdChipKind::Genres => "bd-genres-editor"@,
        BdChipKind::Tags => "bd-tags-editor"@,
    }
}

impl BdChipKind {
    pub fn list_class(self) -> (out: &'static str)
        ensures
            out@ == list_class_of(self),
    {
        match self {
            BdChipKind::Genres => "bd-tag-list bd-genre-list",
            BdChipKind::Tags => "bd-tag-list",
        }
    }

    pub fn list_testid(self) -> (out: &'static str)
        ensures
            out@ == list_testid_of(self),
    {
        match self {
            BdChipKind::Genres => "bd-genre-list",
            BdChipKind::Tags => "bd-tag-list",
        }
    }

    pub fn chip_class(self) -> (out: &'static str)
        ensures
            out@ == chip_class_of(self),
    {
        match self {
            BdChipKind::Genres => "chip chip-genre",
            BdChipKind::Tags => "chip",
        }
    }

    pub fn add_label(self) -> (out: &'static str)
        ensures
            out@ == add_label_of(self),
    {
        match self {
            BdChipKind::Genres => "+ genres",
            BdChipKind::Tags => "+ tags",
        }
    }

    pub fn add_testid(self) -> (out: &'static str)
        ensures
            out@ == add_testid_of(self),
    {
        match self {
            BdChipKind::Genres => "bd-add-genres",
            BdChipKind::Tags => "bd-add-tags",
        }
    }

    pub fn editor_testid(self) -> (out: &'static str)
        ensures
            out@ == editor_testid_of(self),
    {
        match self {
            BdChipKind::Genres => "bd-genres-editor",
            BdChipKind::Tags => "bd-tags-editor",
        }
    }
}

/// The labels a chip editor is opened with for a kind; every other option
/// of the editor keeps its default.
pub struct ChipEditorOptions {
    pub placeholder: &'static str,
    pub aria_remove_prefix: &'static str,
    pub testid_prefix: &'static str,
    pub autofocus: bool,
    pub dropdown_header: &'static str,
}

/// The override payload that replaces one chip list wholesale: exactly one
/// of the two lists is set.
pub struct ListOverrides {
    pub genres: Option<Vec<String>>,
    pub subjects: Option<Vec<String>>,
}

/// The two canonical lists of a saved book, as the merged save response
/// carries them.
pub struct MergedLists {
    pub genres: Vec<String>,
    pub subjects: Vec<String>,
}

impl BdChipKind {
    /// The editor's labels: the genre editor speaks of genres, the tag
    /// editor of tags; both focus their input on open.
    pub fn editor_options(self) -> (o: ChipEditorOptions)
        ensures
            o.autofocus,
            o.placeholder@ == (match self {
                BdChipKind::Genres => "+ add genre\u{2026}"@,
                BdChipKind::Tags => "+ add tag\u{2026}"@,
            }),
            o.aria_remove_prefix@ == (match self {
                BdChipKind::Genres => "Remove genre"@,
                BdChipKind::Tags => "Remove tag"@,
            }),
            o.testid_prefix@ == (match self {
                BdChipKind::Genres => "bd-genres"@,
                BdChipKind::Tags => "bd-tags"@,
            }),
            o.dropdown_header@ == (match self {
                BdChipKind::Genres => "ADD GENRE"@,
                BdChipKind::Tags => "ADD TAG"@,
            }),
    {
        match self {
            BdChipKind::Genres => ChipEditorOptions {
                placeholder: "+ add genre\u{2026}",
                aria_remove_prefix: "Remove genre",
                testid_prefix: "bd-genres",
                autofocus: true,
                dropdown_header: "ADD GENRE",
            },
            BdChipKind::Tags => ChipEditorOptions {
                placeholder: "+ add tag\u{2026}",
                aria_remove_prefix: "Remove tag",
                testid_prefix: "bd-tags",
                autofocus: true,
                dropdown_header: "ADD TAG",
            },
        }
    }

    /// The full-replacement payload for this kind: genres go out as the
    /// genre list, tags as the subject list, and the other list is left
    /// alone.
    pub fn overrides(self, values: Vec<String>) -> (o: ListOverrides)
        ensures
            self == BdChipKind::Genres ==> o.genres == Some(values) && o.subjects is None,
            self == BdChipKind::Tags ==> o.subjects == Some(values) && o.genres is None,
    {
        match self {
            BdChipKind::Genres => ListOverrides { genres: Some(values), subjects: None },
            BdChipKind::Tags => ListOverrides { genres: None, subjects: Some(values) },
        }
    }

    /// This kind's canonical list, out of the merged save response.
    pub fn merged_values(self, merged: MergedLists) -> (v: Vec<String>)
        ensures
            v == (match self {
                BdChipKind::Genres => merged.genres,
                BdChipKind::Tags => merged.subjects,
            }),
    {
        match self {
            BdChipKind::Genres => merged.genres,
            BdChipKind::Tags => merged.subjects,
        }
    }
}

/// The chips of `chips`, in order.
pub open spec fn chip_items(k: BdChipKind, chips: Seq<Seq<char>>) -> Seq<char>
    decreases chips.len(),
{
    if chips.len() == 0 {
        Seq::empty()
    } else {
        chip_items(k, chips.drop_last()) + "<li class=\""@ + chip_class_of(k) + "\">"@ + escaped(
            chips.last(),
        ) + "</li>"@
    }
}

/// The chip list outside editing: nothing when there are no chips and the
/// viewer is no admin; otherwise the chips, then the add pill for an admin.
pub open spec fn chip_list_of(k: BdChipKind, chips: Seq<Seq<char>>, is_admin: bool) -> Seq<char> {
    if chips.len() == 0 && !is_admin {
        Seq::empty()
    } else {
        "<ul class=\""@ + list_class_of(k) + "\" data-testid=\""@ + list_testid_of(k) + "\">"@
            + chip_items(k, chips) + (if is_admin {
            "<li class=\"bd-add-chip-item\"><button type=\"button\" class=\"chip bd-add-chip\" data-testid=\""@
                + add_testid_of(k) + "\">"@ + add_label_of(k) + "</button></li>"@
        } else {
            Seq::empty()
        }) + "</ul>"@
    }
}

/// Markup of a chip list outside editing.
pub fn chip_list(k: BdChipKind, chips: &Vec<String>, is_admin: bool) -> (html: String)
    ensures
        html@ == chip_list_of(k, chips@.map_values(|c: String| c@), is_admin),
{
    let ghost cv = chips@.map_values(|c: String| c@);
    let mut out = String::new();
    if chips.len() == 0 && !is_admin {
        return out;
    }
    push_str(&mut out, "<ul class=\"");
    push_str(&mut out, k.list_class());
    push_str(&mut out, "\" data-testid=\"");
    push_str(&mut out, k.list_testid());
    push_str(&mut out, "\">");
    let ghost head = out@;
    let mut i: usize = 0;
    while i < chips.len()
        invariant
            i <= chips@.len(),
            cv == chips@.map_values(|c: String| c@),
            out@ == head + chip_items(k, cv.take(i as int)),
        decreases chips.len() - i,
    {
        let ghost before = out@;
        push_str(&mut out, "<li class=\"");
        push_str(&mut out, k.chip_class());
        push_str(&mut out, "\">");
        push_escaped(&mut out, chips[i].as_str());
        push_str(&mut out, "</li>");
        proof {
            assert(cv.take(i as int + 1).drop_last() =~= cv.take(i as int));
            assert(out@ =~= head + chip_items(k, cv.take(i as int + 1)));
        }
        i += 1;
    }
    proof {
        assert(cv.take(chips.len() as int) =~= cv);
    }
    if is_admin {
        push_str(
            &mut out,
            "<li class=\"bd-add-chip-item\"><button type=\"button\" class=\"chip bd-add-chip\" data-testid=\"",
        );
        push_str(&mut out, k.add_testid());
        push_str(&mut out, "\">");
        push_str(&mut out, k.add_label());
        push_str(&mut out, "</button></li>");
    }
    push_str(&mut out, "</ul>");
    assert(out@ =~= chip_list_of(k, cv, is_admin));
    out
}

/// The texts of a list of strings.
pub open spec fn texts(v: Seq<String>) -> Seq<Seq<char>> {
    v.map_values(|c: String| c@)
}

/// Whether the shown chips take the refetched book's values: never while
/// editing (a save resolving after the editor closes must not be undone),
/// and only when they differ.
pub fn should_resync(editing: bool, shown: &Vec<String>, fetched: &Vec<String>) -> (r: bool)
    ensures
        r == (!editing && texts(shown@) != texts(fetched@)),
{
    if editing {
        return false;
    }
    if shown.len() != fetched.len() {
        assert(texts(shown@).len() != texts(fetched@).len());
        return true;
    }
    let mut i: usize = 0;
    while i < shown.len()
        invariant
            i <= shown@.len() == fetched@.len(),
            !editing,
            forall|k: int| 0 <= k < i ==> shown@[k]@ == fetched@[k]@,
        decreases shown.len() - i,
    {
        let a = crate::text::to_chars(shown[i].as_str());
        let b = crate::text::to_chars(fetched[i].as_str());
        if !crate::text::chars_eq(&a, &b) {
            proof {
                assert(texts(shown@)[i as int] != texts(fetched@)[i as int]);
                if texts(shown@) == texts(fetched@) {
                    assert(texts(shown@)[i as int] == texts(fetched@)[i as int]);
                }
            }
            return true;
        }
        i += 1;
    }
    assert(texts(shown@) =~= texts(fetched@));
    false
}

} // verus!
