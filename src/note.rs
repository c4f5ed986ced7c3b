use vstd::prelude::*;

verus! {

/// The value of `done` that marks a note as completed.
pub const COMPLETION_MARKER: u32 = 1;

/// What can go wrong in the note store.
#[derive(Debug, Clone, Copy, PartialEq, Eq, Structural)]
pub enum StoreError {
    /// The store could not be opened or created.
    Connection,
    /// The note table could not be created.
    Schema,
    /// An insert, update or delete failed.
    Write,
    /// No note has the requested identifier.
    NotFound,
}

/// A persisted note: its identifier, its text and its completion flag.
#[derive(Debug)]
pub struct Note {
    pub id: u32,
    pub text: String,
    pub done: Option<u32>,
}

/// The mathematical value of a note.
pub struct NoteModel {
    pub id: u32,
    pub text: Seq<char>,
    pub done: Option<u32>,
}

impl NoteModel {
    pub open spec fn is_done(self) -> bool {
        self.done == Some(COMPLETION_MARKER)
    }
}

impl View for Note {
    type V = NoteModel;

    open spec fn view(&self) -> NoteModel {
        NoteModel { id: self.id, text: self.text@, done: self.done }
    }
}

impl Note {
    /// Whether the completion flag holds the completion marker.
    pub fn is_done(&self) -> (r: bool)
        ensures
            r == self@.is_done(),
    {
        match self.done {
            Some(d) => d == COMPLETION_MARKER,
            None => false,
        }
    }

    /// A copy of the note.
    pub fn duplicate(&self) -> (r: Note)
        ensures
            r@ == self@,
    {
        Note { id: self.id, text: self.text.clone(), done: self.done }
    }
}

} // verus!
