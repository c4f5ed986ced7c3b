use vstd::prelude::*;
use vstd::string::StrSliceExecFns;
use vstd::string::StringExecFns;
use crate::note::{Note, NoteModel, StoreError, COMPLETION_MARKER};

verus! {

/// One more than the largest identifier a note can have.
pub const ID_LIMIT: u64 = 4294967296;

/// A line without its trailing line terminator (`"\n"` or `"\r\n"`).
pub open spec fn trimmed(t: Seq<char>) -> Seq<char> {
    if t.len() > 0 && t.last() == '\n' {
        let u = t.drop_last();
        if u.len() > 0 && u.last() == '\r' {
            u.drop_last()
        } else {
            u
        }
    } else {
        t
    }
}

/// The contents of a note store: its notes in insertion order, the identifier that
/// the next inserted note receives, and how many stored rows could not be read as
/// notes (they count as notes, but are never listed).
pub struct StoreModel {
    pub rows: Seq<NoteModel>,
    pub next_id: nat,
    pub skipped: nat,
}

impl StoreModel {
    /// Identifiers are positive, strictly increasing in insertion order, and all
    /// below the next identifier.
    pub open spec fn wf(self) -> bool {
        &&& 1 <= self.next_id <= ID_LIMIT
        &&& self.total() <= usize::MAX
        &&& forall|i: int, j: int|
            0 <= i < j < self.rows.len() ==> #[trigger] self.rows[i].id < #[trigger] self.rows[j].id
        &&& forall|i: int|
            0 <= i < self.rows.len() ==> 1 <= #[trigger] self.rows[i].id < self.next_id
    }

    /// The number of notes, those that could not be read included.
    pub open spec fn total(self) -> nat {
        self.rows.len() + self.skipped
    }

    pub open spec fn contains(self, id: u32) -> bool {
        exists|k: int| 0 <= k < self.rows.len() && #[trigger] self.rows[k].id == id
    }

    pub open spec fn position(self, id: u32) -> int {
        choose|k: int| 0 <= k < self.rows.len() && #[trigger] self.rows[k].id == id
    }

    /// The note with the given identifier, if any.
    pub open spec fn lookup(self, id: u32) -> Option<NoteModel> {
        if self.contains(id) {
            Some(self.rows[self.position(id)])
        } else {
            None
        }
    }

    /// Whether another note can be given an identifier.
    pub open spec fn has_room(self) -> bool {
        self.next_id < ID_LIMIT && self.total() < usize::MAX
    }

    /// The store after inserting a note with the given text.
    pub open spec fn inserted(self, text: Seq<char>) -> StoreModel {
        if self.has_room() {
            StoreModel {
                rows: self.rows.push(
                    NoteModel { id: self.next_id as u32, text: trimmed(text), done: None },
                ),
                next_id: self.next_id + 1,
                skipped: self.skipped,
            }
        } else {
            self
        }
    }

    /// The store after marking the note with the given identifier as completed.
    pub open spec fn marked(self, id: u32) -> StoreModel {
        if self.contains(id) {
            let p = self.position(id);
            StoreModel {
                rows: self.rows.update(
                    p,
                    NoteModel { id: self.rows[p].id, text: self.rows[p].text, done: Some(COMPLETION_MARKER) },
                ),
                next_id: self.next_id,
                skipped: self.skipped,
            }
        } else {
            self
        }
    }

    /// The store after deleting the note with the given identifier.
    pub open spec fn deleted(self, id: u32) -> StoreModel {
        if self.contains(id) {
            StoreModel {
                rows: self.rows.remove(self.position(id)),
                next_id: self.next_id,
                skipped: self.skipped,
            }
        } else {
            self
        }
    }
}

/// In a well-formed store an identifier is found at one position only.
pub proof fn lemma_position_unique(s: StoreModel, id: u32, k: int)
    requires
        s.wf(),
        0 <= k < s.rows.len(),
        s.rows[k].id == id,
    ensures
        s.contains(id),
        s.position(id) == k,
{
    let p = s.position(id);
    if p < k {
        assert(s.rows[p].id < s.rows[k].id);
    } else if k < p {
        assert(s.rows[k].id < s.rows[p].id);
    }
}

/// Removes the line terminator at the end of `line`, if there is one.
pub fn trim_line_end(line: &str) -> (r: String)
    ensures
        r@ == trimmed(line@),
{
    let n = line.unicode_len();
    if n > 0 && line.get_char(n - 1) == '\n' {
        if n > 1 && line.get_char(n - 2) == '\r' {
            let r = String::from_str(line.substring_char(0, n - 2));
            assert(r@ =~= trimmed(line@));
            r
        } else {
            let r = String::from_str(line.substring_char(0, n - 1));
            assert(r@ =~= trimmed(line@));
            r
        }
    } else {
        String::from_str(line)
    }
}

/// A collection of notes with store-assigned identifiers, which are never reused.
pub struct NoteStore {
    notes: Vec<Note>,
    next_id: u64,
    skipped: usize,
}

impl View for NoteStore {
    type V = StoreModel;

    closed spec fn view(&self) -> StoreModel {
        StoreModel {
            rows: self.notes@.map_values(|n: Note| n@),
            next_id: self.next_id as nat,
            skipped: self.skipped as nat,
        }
    }
}

impl NoteStore {
    /// An empty store whose first note gets identifier 1.
    pub fn new() -> (r: NoteStore)
        ensures
            r@.wf(),
            r@.rows.len() == 0,
            r@.next_id == 1,
            r@.skipped == 0,
    {
        let r = NoteStore { notes: Vec::new(), next_id: 1, skipped: 0 };
        assert(r@.rows =~= Seq::<NoteModel>::empty());
        r
    }

    /// A store holding the given notes, in this order, out of `total` stored rows
    /// (the others could not be read as notes), that next assigns `next_id`; `None`
    /// where `total` is below the number of notes or these would not form a
    /// well-formed store.
    pub fn from_rows(rows: Vec<Note>, total: usize, next_id: u64) -> (r: Option<NoteStore>)
        ensures
            ({
                let m = StoreModel {
                    rows: rows@.map_values(|n: Note| n@),
                    next_id: next_id as nat,
                    skipped: (total - rows@.len()) as nat,
                };
                match r {
                    Some(s) => total >= rows@.len() && m.wf() && s@ == m,
                    None => total < rows@.len() || !m.wf(),
                }
            }),
    {
        let ghost m = StoreModel {
            rows: rows@.map_values(|n: Note| n@),
            next_id: next_id as nat,
            skipped: (total - rows@.len()) as nat,
        };
        if total < rows.len() || next_id < 1 || next_id > ID_LIMIT {
            return None;
        }
        let mut i: usize = 0;
        while i < rows.len()
            invariant
                i <= rows@.len(),
                m.rows == rows@.map_values(|n: Note| n@),
                m.next_id == next_id as nat,
                1 <= next_id <= ID_LIMIT,
                forall|a: int, b: int| 0 <= a < b < i ==> #[trigger] m.rows[a].id < #[trigger] m.rows[b].id,
                forall|a: int| 0 <= a < i ==> 1 <= #[trigger] m.rows[a].id < next_id,
            decreases rows@.len() - i,
        {
            let id = rows[i].id;
            if id < 1 || id as u64 >= next_id {
                assert(!m.wf()) by {
                    assert(m.rows[i as int].id == id);
                }
                return None;
            }
            if i > 0 && rows[i - 1].id >= id {
                assert(!m.wf()) by {
                    assert(m.rows[i - 1].id >= m.rows[i as int].id);
                }
                return None;
            }
            assert forall|a: int, b: int| 0 <= a < b < i + 1 implies #[trigger] m.rows[a].id
                < #[trigger] m.rows[b].id by {
                if b == i && a < i - 1 {
                    assert(m.rows[a].id < m.rows[i - 1].id);
                }
            }
            i = i + 1;
        }
        let skipped = total - rows.len();
        Some(NoteStore { notes: rows, next_id, skipped })
    }

    /// The number of notes, those that could not be read included.
    pub fn count(&self) -> (r: usize)
        requires
            self@.wf(),
        ensures
            r == self@.total(),
    {
        self.notes.len() + self.skipped
    }

    fn find(&self, id: u32) -> (r: Option<usize>)
        requires
            self@.wf(),
        ensures
            match r {
                Some(k) => k < self@.rows.len() && self@.contains(id) && self@.position(id) == k,
                None => !self@.contains(id),
            },
    {
        let mut i: usize = 0;
        while i < self.notes.len()
            invariant
                self@.wf(),
                i <= self@.rows.len(),
                forall|a: int| 0 <= a < i ==> #[trigger] self@.rows[a].id != id,
            decreases self@.rows.len() - i,
        {
            if self.notes[i].id == id {
                proof {
                    lemma_position_unique(self@, id, i as int);
                }
                return Some(i);
            }
            i = i + 1;
        }
        None
    }

    /// Whether a note has the given identifier.
    pub fn has_note(&self, id: u32) -> (r: bool)
        requires
            self@.wf(),
        ensures
            r == self@.contains(id),
    {
        self.find(id).is_some()
    }

    /// Adds a note with the given text, its line terminator removed, and returns the
    /// identifier it was given. Fails with `Write` once every identifier is used.
    pub fn insert(&mut self, text: &str) -> (r: Result<u32, StoreError>)
        requires
            old(self)@.wf(),
        ensures
            final(self)@.wf(),
            final(self)@ == old(self)@.inserted(text@),
            old(self)@.has_room() ==> r == Ok::<u32, StoreError>(old(self)@.next_id as u32),
            !old(self)@.has_room() ==> r == Err::<u32, StoreError>(StoreError::Write),
    {
        if self.next_id >= ID_LIMIT || self.notes.len() + self.skipped >= usize::MAX {
            return Err(StoreError::Write);
        }
        let id = self.next_id as u32;
        let note = Note { id, text: trim_line_end(text), done: None };
        let ghost before = self.notes@;
        self.notes.push(note);
        self.next_id = self.next_id + 1;
        assert(self.notes@.map_values(|n: Note| n@) =~= before.map_values(|n: Note| n@).push(
            note@,
        ));
        Ok(id)
    }

    /// All notes, in insertion order.
    pub fn list_all(&self) -> (r: Vec<Note>)
        ensures
            r@.map_values(|n: Note| n@) == self@.rows,
    {
        let mut r: Vec<Note> = Vec::new();
        let mut i: usize = 0;
        while i < self.notes.len()
            invariant
                i <= self.notes@.len(),
                r@.len() == i,
                forall|a: int| 0 <= a < i ==> #[trigger] r@[a]@ == self.notes@[a]@,
            decreases self.notes@.len() - i,
        {
            r.push(self.notes[i].duplicate());
            i = i + 1;
        }
        assert(r@.map_values(|n: Note| n@) =~= self@.rows);
        r
    }

    /// The note with the given identifier, if any.
    pub fn get(&self, id: u32) -> (r: Option<Note>)
        requires
            self@.wf(),
        ensures
            match r {
                Some(n) => self@.lookup(id) == Some(n@),
                None => self@.lookup(id) is None,
            },
    {
        match self.find(id) {
            Some(k) => Some(self.notes[k].duplicate()),
            None => None,
        }
    }

    /// Marks the note with the given identifier as completed; nothing changes when
    /// there is none.
    pub fn set_done(&mut self, id: u32)
        requires
            old(self)@.wf(),
        ensures
            final(self)@.wf(),
            final(self)@ == old(self)@.marked(id),
    {
        match self.find(id) {
            Some(k) => {
                let ghost before = self.notes@;
                let mut n = self.notes.remove(k);
                n.done = Some(COMPLETION_MARKER);
                self.notes.insert(k, n);
                assert(self.notes@ =~= before.update(k as int, n));
                assert(self@.rows =~= old(self)@.marked(id).rows);
            },
            None => {},
        }
    }

    /// Deletes the note with the given identifier; nothing changes when there is none.
    pub fn delete(&mut self, id: u32)
        requires
            old(self)@.wf(),
        ensures
            final(self)@.wf(),
            final(self)@ == old(self)@.deleted(id),
    {
        match self.find(id) {
            Some(k) => {
                let ghost before = self.notes@;
                self.notes.remove(k);
                assert(self@.rows =~= old(self)@.deleted(id).rows);
                assert forall|i: int, j: int|
                    0 <= i < j < self@.rows.len() implies #[trigger] self@.rows[i].id
                    < #[trigger] self@.rows[j].id by {
                    let i0 = if i < k { i } else { i + 1 };
                    let j0 = if j < k { j } else { j + 1 };
                    assert(old(self)@.rows[i0].id < old(self)@.rows[j0].id);
                }
                assert forall|i: int| 0 <= i < self@.rows.len() implies 1 <= #[trigger] self@.rows[i].id
                    < self@.next_id by {
                    let i0 = if i < k { i } else { i + 1 };
                    assert(old(self)@.rows[i0].id == self@.rows[i].id);
                }
            },
            None => {},
        }
    }
}

} // verus!
