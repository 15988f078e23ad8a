//! Tags for classifying sources in a storage.

use vstd::prelude::*;

use crate::text::{chars_of, spec_truncated, string_from_chars, truncate_chars};
use vstd::string::StringExecFns;

verus! {

/// Longest tag caption kept, in characters.
pub const TAG_TEXT_LIMIT: usize = 25;

/// Is `c` an ASCII hexadecimal digit?
pub open spec fn spec_hex_digit(c: char) -> bool {
    ('0' <= c && c <= '9') || ('a' <= c && c <= 'f') || ('A' <= c && c <= 'F')
}

/// A well-formed colour: `#` followed by six hexadecimal digits.
pub open spec fn spec_color(s: Seq<char>) -> bool {
    s.len() == 7 && s[0] == '#' && (forall|i: int| 1 <= i < 7 ==> spec_hex_digit(#[trigger] s[i]))
}

/// A classification label with a display colour.
pub struct Tag {
    pub text: String,
    pub color: String,
}

impl Tag {
    /// Build a tag; the caption is truncated and the colour falls back to
    /// the default when it is not well-formed.
    pub fn new(text: String, color: String) -> (tag: Tag)
        ensures
            tag.text@ == spec_truncated(text@, TAG_TEXT_LIMIT as int),
            spec_color(color@) ==> tag.color@ == color@,
            !spec_color(color@) ==> tag.color@ == "#2F80ED"@,
            spec_color(tag.color@),
    {
        let mut tag = Tag { text: String::new(), color: String::new() };
        proof {
            reveal_strlit("");
            assert(!spec_color(tag.color@));
        }
        tag.set_text(text);
        tag.set_color(color);
        tag
    }

    pub fn get_text(&self) -> (r: String)
        ensures
            r@ == self.text@,
    {
        self.text.clone()
    }

    /// Store a caption, keeping at most [`TAG_TEXT_LIMIT`] characters.
    pub fn set_text(&mut self, text: String)
        ensures
            final(self).text@ == spec_truncated(text@, TAG_TEXT_LIMIT as int),
            final(self).color@ == old(self).color@,
    {
        let cs = chars_of(text.as_str());
        let cut = truncate_chars(cs, TAG_TEXT_LIMIT);
        self.text = string_from_chars(&cut);
    }

    pub fn get_color(&self) -> (r: String)
        ensures
            r@ == self.color@,
    {
        self.color.clone()
    }

    /// Store a colour.  A malformed colour is ignored when the current one
    /// is well-formed, and otherwise replaced by the default.
    pub fn set_color(&mut self, color: String)
        ensures
            final(self).text@ == old(self).text@,
            spec_color(color@) ==> final(self).color@ == color@,
            !spec_color(color@) && spec_color(old(self).color@) ==> final(self).color@ == old(
                self,
            ).color@,
            !spec_color(color@) && !spec_color(old(self).color@) ==> final(self).color@
                == "#2F80ED"@,
            spec_color(old(self).color@) || !spec_color(color@) ==> spec_color(
                final(self).color@,
            ),
    {
        if self.is_correct_color(&color) {
            self.color = color;
        } else if is_correct_color_string(&self.color) {
            // keep the current, well-formed colour
        } else {
            self.color = String::from_str("#2F80ED");
            proof {
                lemma_default_color();
            }
        }
    }

    /// Does `color` have the form `#rrggbb`?
    pub fn is_correct_color(&self, color: &String) -> (r: bool)
        ensures
            r == spec_color(color@),
    {
        is_correct_color_string(color)
    }
}

/// Exec check of [`spec_color`].
fn is_correct_color_string(color: &String) -> (r: bool)
    ensures
        r == spec_color(color@),
{
    let cs = chars_of(color.as_str());
    if cs.len() != 7 {
        return false;
    }
    if cs[0] != '#' {
        return false;
    }
    let mut i: usize = 1;
    while i < 7
        invariant
            cs@ == color@,
            cs@.len() == 7,
            1 <= i <= 7,
            forall|j: int| 1 <= j < i ==> spec_hex_digit(#[trigger] cs@[j]),
        decreases 7 - i,
    {
        if !is_hex_digit(cs[i]) {
            return false;
        }
        i = i + 1;
    }
    true
}

/// Exec check of [`spec_hex_digit`].
fn is_hex_digit(c: char) -> (r: bool)
    ensures
        r == spec_hex_digit(c),
{
    ('0' <= c && c <= '9') || ('a' <= c && c <= 'f') || ('A' <= c && c <= 'F')
}

/// The default colour is itself well-formed.
proof fn lemma_default_color()
    ensures
        spec_color("#2F80ED"@),
{
    reveal_strlit("#2F80ED");
    assert forall|i: int| 1 <= i < 7 implies spec_hex_digit(#[trigger] ("#2F80ED"@)[i]) by {
        if i == 1 {
            assert(("#2F80ED"@)[1] == '2');
        } else if i == 2 {
            assert(("#2F80ED"@)[2] == 'F');
        } else if i == 3 {
            assert(("#2F80ED"@)[3] == '8');
        } else if i == 4 {
            assert(("#2F80ED"@)[4] == '0');
        } else if i == 5 {
            assert(("#2F80ED"@)[5] == 'E');
        } else {
            assert(("#2F80ED"@)[6] == 'D');
        }
    }
}

/// A link attaching one tag to one source, both by name.
pub struct SourceTagLink {
    pub source: String,
    pub tag: String,
}

impl SourceTagLink {
    pub fn new(source: String, tag: String) -> (link: SourceTagLink)
        ensures
            link.source@ == source@,
            link.tag@ == tag@,
    {
        SourceTagLink { source, tag }
    }

    pub fn get_tag(&self) -> (r: String)
        ensures
            r@ == self.tag@,
    {
        self.tag.clone()
    }

    pub fn get_source(&self) -> (r: String)
        ensures
            r@ == self.source@,
    {
        self.source.clone()
    }
}

} // verus!
