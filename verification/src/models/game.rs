//! What the game hands over to be kept.

use vstd::prelude::*;

verus! {

/// One saved game: a document whose shape is the game's own business.
#[derive(Debug, PartialEq, Eq)]
pub struct SaveData {
    pub document: String,
}

impl View for SaveData {
    type V = Seq<char>;

    open spec fn view(&self) -> Seq<char> {
        self.document@
    }
}

impl SaveData {
    /// A copy of the save.
    pub fn duplicate(&self) -> (copy: SaveData)
        ensures
            copy@ == self@,
    {
        SaveData { document: self.document.clone() }
    }
}

} // verus!
