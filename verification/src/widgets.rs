//! State of small reusable widgets.  Drawing them belongs to the
//! surrounding application; only the state logic lives here.

use vstd::prelude::*;

verus! {

/// A heading that turns into a line editor on a double click.
pub struct EditableHeader {
    pub text: String,
    pub is_editing: bool,
}

impl EditableHeader {
    pub fn new(text: String) -> (r: EditableHeader)
        ensures
            r.text@ == text@,
            !r.is_editing,
    {
        EditableHeader { text, is_editing: false }
    }

    pub fn set_text(&mut self, text: String)
        ensures
            final(self).text@ == text@,
            final(self).is_editing == old(self).is_editing,
    {
        self.text = text;
    }
}

} // verus!
