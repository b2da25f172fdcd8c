//! Song records.

use vstd::prelude::*;

verus! {

/// One song of the collection.
#[derive(Debug, PartialEq, Eq)]
pub struct Song {
    pub name: String,
    pub melody: Option<String>,
    pub composer: Option<String>,
    pub arranger: Option<String>,
    pub lyrics: String,
}

/// A song as plain text values.
pub struct SongView {
    pub name: Seq<char>,
    pub melody: Option<Seq<char>>,
    pub composer: Option<Seq<char>>,
    pub arranger: Option<Seq<char>>,
    pub lyrics: Seq<char>,
}

/// The text of an optional field.
pub open spec fn optional_text(field: Option<String>) -> Option<Seq<char>> {
    match field {
        Some(text) => Some(text@),
        None => None,
    }
}

impl View for Song {
    type V = SongView;

    open spec fn view(&self) -> SongView {
        SongView {
            name: self.name@,
            melody: optional_text(self.melody),
            composer: optional_text(self.composer),
            arranger: optional_text(self.arranger),
            lyrics: self.lyrics@,
        }
    }
}

} // verus!
