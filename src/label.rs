//! Static text labels.

use vstd::prelude::*;

verus! {

/// A line of text shown without interaction.
pub struct Label {
    text: String,
}

impl View for Label {
    type V = Seq<char>;

    closed spec fn view(&self) -> Seq<char> {
        self.text@
    }
}

impl Label {
    pub fn new(text: &str) -> (l: Label)
        ensures
            l@ == text@,
    {
        Label { text: text.to_owned() }
    }

    pub fn text(&self) -> (r: &str)
        ensures
            r@ == self@,
    {
        self.text.as_str()
    }
}

} // verus!
