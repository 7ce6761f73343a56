//! HTML markup for the rendered views: text and attribute values are
//! escaped, the page's own tag and class names are written as they are.

use vstd::prelude::*;
use crate::num::{int_digits, nat_digits, push_i64, push_u64};
use crate::text::{ascii_upper, char_ascii_upper, push_char, push_str, to_chars, trim, trimmed};

verus! {

/// How one character of text or of an attribute value is written.
pub open spec fn escape_char(c: char) -> Seq<char> {
    if c == '&' {
        "&amp;"@
    } else if c == '<' {
        "&lt;"@
    } else if c == '>' {
        "&gt;"@
    } else if c == '"' {
        "&quot;"@
    } else if c == '\'' {
        "&#39;"@
    } else {
        seq![c]
    }
}

/// `s` with each character escaped.
pub open spec fn escaped(s: Seq<char>) -> Seq<char>
    decreases s.len(),
{
    if s.len() == 0 {
        Seq::empty()
    } else {
        escaped(s.drop_last()) + escape_char(s.last())
    }
}

/// Escaping works character by character, so it distributes over
/// concatenation.
pub proof fn lemma_escaped_concat(a: Seq<char>, b: Seq<char>)
    ensures
        escaped(a + b) == escaped(a) + escaped(b),
    decreases b.len(),
{
    if b.len() == 0 {
        assert(a + b =~= a);
        assert(escaped(b) =~= Seq::<char>::empty());
        assert(escaped(a) + escaped(b) =~= escaped(a));
    } else {
        lemma_escaped_concat(a, b.drop_last());
        assert((a + b).drop_last() =~= a + b.drop_last());
        assert((a + b).last() == b.last());
        assert(escaped(a) + escaped(b.drop_last()) + escape_char(b.last()) =~= escaped(a) + (
        escaped(b.drop_last()) + escape_char(b.last())));
    }
}

/// A character that could open or close markup or an attribute value.
pub open spec fn is_markup_char(c: char) -> bool {
    c == '<' || c == '>' || c == '"' || c == '\''
}

/// Law: escaped text holds no character that could open a tag or end an
/// attribute value, whatever the text was.
pub proof fn lemma_escaped_is_inert(s: Seq<char>)
    ensures
        forall|i: int| 0 <= i < escaped(s).len() ==> !is_markup_char(#[trigger] escaped(s)[i]),
    decreases s.len(),
{
    if s.len() > 0 {
        lemma_escaped_is_inert(s.drop_last());
        let c = s.last();
        let prev = escaped(s.drop_last());
        let e = escape_char(c);
        reveal_strlit("&amp;");
        reveal_strlit("&lt;");
        reveal_strlit("&gt;");
        reveal_strlit("&quot;");
        reveal_strlit("&#39;");
        assert forall|j: int| 0 <= j < e.len() implies !is_markup_char(#[trigger] e[j]) by {}
        assert forall|i: int| 0 <= i < escaped(s).len() implies !is_markup_char(
            #[trigger] escaped(s)[i],
        ) by {
            if i < prev.len() {
                assert(escaped(s)[i] == prev[i]);
            } else {
                assert(escaped(s)[i] == e[i - prev.len()]);
            }
        }
    }
}

fn push_escaped_char(out: &mut String, c: char)
    ensures
        final(out)@ == old(out)@ + escape_char(c),
{
    if c == '&' {
        push_str(out, "&amp;");
    } else if c == '<' {
        push_str(out, "&lt;");
    } else if c == '>' {
        push_str(out, "&gt;");
    } else if c == '"' {
        push_str(out, "&quot;");
    } else if c == '\'' {
        push_str(out, "&#39;");
    } else {
        push_char(out, c);
        assert(old(out)@.push(c) =~= old(out)@ + seq![c]);
    }
}

/// Appends `s` to `out`, escaped.
pub fn push_escaped(out: &mut String, s: &str)
    ensures
        final(out)@ == old(out)@ + escaped(s@),
{
    let v = to_chars(s);
    let ghost start = out@;
    let mut i: usize = 0;
    while i < v.len()
        invariant
            i <= v.len(),
            v@ == s@,
            out@ == start + escaped(v@.take(i as int)),
        decreases v.len() - i,
    {
        push_escaped_char(out, v[i]);
        proof {
            let t = v@.take(i as int + 1);
            assert(t.drop_last() =~= v@.take(i as int));
            assert(t.last() == v@[i as int]);
            assert(start + escaped(v@.take(i as int)) + escape_char(v@[i as int]) =~= start + (
            escaped(v@.take(i as int)) + escape_char(v@[i as int])));
        }
        i += 1;
    }
    proof {
        assert(v@.take(v.len() as int) =~= v@);
    }
}

// ── Avatars ───────────────────────────────────────────────────────

/// The monogram letter of a name: its first non-blank character, ASCII
/// upper-cased, or `?` for a blank name.
pub open spec fn monogram(name: Seq<char>) -> Seq<char> {
    if trim(name).len() > 0 {
        seq![ascii_upper(trim(name)[0])]
    } else {
        "?"@
    }
}

/// A user's avatar: the uploaded picture (its URL carrying the cache-bust
/// counter when one is given) or, without one, the name's monogram.
pub open spec fn avatar_markup(
    user_id: int,
    name: Seq<char>,
    has_avatar: bool,
    bust: Option<u32>,
    class: Seq<char>,
) -> Seq<char> {
    if has_avatar {
        "<img class=\""@ + class + " user-avatar\" src=\"/api/users/"@ + int_digits(user_id)
            + "/avatar"@ + match bust {
            Some(b) => "?v="@ + nat_digits(b as nat),
            None => Seq::empty(),
        } + "\" alt=\""@ + escaped(name) + "\">"@
    } else {
        "<span class=\""@ + class + " user-avatar monogram\" aria-hidden=\"true\">"@
            + escaped(monogram(name)) + "</span>"@
    }
}

/// Appends a user's avatar.
pub fn push_avatar(
    out: &mut String,
    user_id: i64,
    name: &str,
    has_avatar: bool,
    bust: Option<u32>,
    class: &str,
)
    ensures
        final(out)@ == old(out)@ + avatar_markup(user_id as int, name@, has_avatar, bust, class@),
{
    let ghost start = out@;
    if has_avatar {
        push_str(out, "<img class=\"");
        push_str(out, class);
        push_str(out, " user-avatar\" src=\"/api/users/");
        push_i64(out, user_id);
        push_str(out, "/avatar");
        match bust {
            Some(b) => {
                push_str(out, "?v=");
                push_u64(out, b as u64);
            },
            None => {},
        }
        push_str(out, "\" alt=\"");
        push_escaped(out, name);
        push_str(out, "\">");
    } else {
        push_str(out, "<span class=\"");
        push_str(out, class);
        push_str(out, " user-avatar monogram\" aria-hidden=\"true\">");
        let v = to_chars(name);
        let t = trimmed(&v);
        let mut letter = String::new();
        if t.len() > 0 {
            push_char(&mut letter, char_ascii_upper(t[0]));
            assert(letter@ =~= seq![ascii_upper(trim(name@)[0])]);
        } else {
            push_str(&mut letter, "?");
        }
        push_escaped(out, letter.as_str());
        push_str(out, "</span>");
    }
    assert(out@ =~= start + avatar_markup(user_id as int, name@, has_avatar, bust, class@));
}

} // verus!
