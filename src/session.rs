use vstd::prelude::*;
use crate::command::Command;
use crate::laws::law_insert_then_get;
use crate::note::{Note, NoteModel, StoreError};
use crate::render::{listing_of, render_listing};
use crate::store::{trimmed, NoteStore, StoreModel};

verus! {

/// The result of running one command against the store.
#[derive(Debug)]
pub enum Report {
    /// The lines of the listing.
    Listing(Vec<String>),
    /// The note that was added.
    Added(Note),
    Deleted(u32),
    Marked(u32),
    /// The raw text of the note that was asked for.
    Viewed(String),
    NotFound(u32),
    /// Usage was asked for.
    Help,
    /// The invocation was malformed.
    Misuse,
    Failed(StoreError),
}

/// The mathematical value of a report.
pub enum ReportModel {
    Listing(Seq<Seq<char>>),
    Added(NoteModel),
    Deleted(u32),
    Marked(u32),
    Viewed(Seq<char>),
    NotFound(u32),
    Help,
    Misuse,
    Failed(StoreError),
}

impl View for Report {
    type V = ReportModel;

    open spec fn view(&self) -> ReportModel {
        match self {
            Report::Listing(lines) => ReportModel::Listing(lines@.map_values(|s: String| s@)),
            Report::Added(n) => ReportModel::Added(n@),
            Report::Deleted(id) => ReportModel::Deleted(*id),
            Report::Marked(id) => ReportModel::Marked(*id),
            Report::Viewed(t) => ReportModel::Viewed(t@),
            Report::NotFound(id) => ReportModel::NotFound(*id),
            Report::Help => ReportModel::Help,
            Report::Misuse => ReportModel::Misuse,
            Report::Failed(e) => ReportModel::Failed(*e),
        }
    }
}

/// The store after running a command; `input` is the line read for an added note.
pub open spec fn after_command(s: StoreModel, cmd: Command, input: Seq<char>) -> StoreModel {
    match cmd {
        Command::Add => s.inserted(input),
        Command::Delete(id) => s.deleted(id),
        Command::Mark(id) => s.marked(id),
        _ => s,
    }
}

/// What running a command reports. Delete, mark and view of an identifier that no
/// note has report it as not found.
pub open spec fn report_of(s: StoreModel, cmd: Command, input: Seq<char>) -> ReportModel {
    match cmd {
        Command::List => ReportModel::Listing(listing_of(s.total(), s.rows)),
        Command::Add => if s.has_room() {
            ReportModel::Added(NoteModel { id: s.next_id as u32, text: trimmed(input), done: None })
        } else {
            ReportModel::Failed(StoreError::Write)
        },
        Command::Delete(id) => if s.contains(id) {
            ReportModel::Deleted(id)
        } else {
            ReportModel::NotFound(id)
        },
        Command::Mark(id) => if s.contains(id) {
            ReportModel::Marked(id)
        } else {
            ReportModel::NotFound(id)
        },
        Command::View(id) => match s.lookup(id) {
            Some(n) => ReportModel::Viewed(n.text),
            None => ReportModel::NotFound(id),
        },
        Command::Help => ReportModel::Help,
        Command::Invalid => ReportModel::Misuse,
    }
}

/// The process exit status for a report: 1 for a failure, not-found or misuse.
pub open spec fn exit_status(r: ReportModel) -> i32 {
    match r {
        ReportModel::NotFound(_) | ReportModel::Misuse | ReportModel::Failed(_) => 1,
        _ => 0,
    }
}

/// Runs one command against the store. For `Add`, `input` is the line that was read.
pub fn run(store: &mut NoteStore, cmd: Command, input: &str) -> (r: Report)
    requires
        old(store)@.wf(),
    ensures
        final(store)@.wf(),
        final(store)@ == after_command(old(store)@, cmd, input@),
        r@ == report_of(old(store)@, cmd, input@),
{
    match cmd {
        Command::List => {
            let notes = store.list_all();
            let total = store.count();
            Report::Listing(render_listing(&notes, total))
        },
        Command::Add => {
            match store.insert(input) {
                Ok(id) => {
                    proof {
                        law_insert_then_get(old(store)@, input@);
                    }
                    match store.get(id) {
                        Some(n) => Report::Added(n),
                        None => Report::Failed(StoreError::Write),
                    }
                },
                Err(e) => Report::Failed(e),
            }
        },
        Command::Delete(id) => {
            if store.has_note(id) {
                store.delete(id);
                Report::Deleted(id)
            } else {
                Report::NotFound(id)
            }
        },
        Command::Mark(id) => {
            if store.has_note(id) {
                store.set_done(id);
                Report::Marked(id)
            } else {
                Report::NotFound(id)
            }
        },
        Command::View(id) => {
            match store.get(id) {
                Some(n) => Report::Viewed(n.text),
                None => Report::NotFound(id),
            }
        },
        Command::Help => Report::Help,
        Command::Invalid => Report::Misuse,
    }
}

/// The process exit status for a report.
pub fn exit_code(r: &Report) -> (c: i32)
    ensures
        c == exit_status(r@),
{
    match r {
        Report::NotFound(_) | Report::Misuse | Report::Failed(_) => 1,
        _ => 0,
    }
}

} // verus!
