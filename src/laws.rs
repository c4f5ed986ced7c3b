use vstd::prelude::*;
use crate::command::Command;
use crate::note::NoteModel;
use crate::session::{after_command, exit_status, report_of, ReportModel};
use crate::store::{lemma_position_unique, trimmed, StoreModel, ID_LIMIT};

verus! {

/// Reading back a note just inserted gives its text, without the line terminator,
/// and no completion flag.
pub proof fn law_insert_then_get(s: StoreModel, text: Seq<char>)
    requires
        s.wf(),
        s.has_room(),
    ensures
        s.inserted(text).wf(),
        s.inserted(text).lookup(s.next_id as u32) == Some(
            NoteModel { id: s.next_id as u32, text: trimmed(text), done: None },
        ),
{
    let t = s.inserted(text);
    assert(t.rows[s.rows.len() as int].id == s.next_id as u32);
    lemma_insert_wf(s, text);
    lemma_position_unique(t, s.next_id as u32, s.rows.len() as int);
}

/// Inserting keeps the store well formed, and the new identifier is above every
/// identifier the store held.
pub proof fn lemma_insert_wf(s: StoreModel, text: Seq<char>)
    requires
        s.wf(),
    ensures
        s.inserted(text).wf(),
        s.has_room() ==> forall|i: int|
            0 <= i < s.rows.len() ==> #[trigger] s.rows[i].id < s.inserted(text).rows.last().id,
{
    let t = s.inserted(text);
    if s.has_room() {
        assert forall|i: int, j: int| 0 <= i < j < t.rows.len() implies #[trigger] t.rows[i].id
            < #[trigger] t.rows[j].id by {
            if j == s.rows.len() {
                assert(s.rows[i].id < s.next_id);
            } else {
                assert(s.rows[i].id < s.rows[j].id);
            }
        }
        assert forall|i: int| 0 <= i < t.rows.len() implies 1 <= #[trigger] t.rows[i].id
            < t.next_id by {
            if i < s.rows.len() {
                assert(s.rows[i].id < s.next_id);
            }
        }
    }
}

/// The store after inserting the given texts, in order.
pub open spec fn inserted_all(s: StoreModel, texts: Seq<Seq<char>>) -> StoreModel
    decreases texts.len(),
{
    if texts.len() == 0 {
        s
    } else {
        inserted_all(s, texts.drop_last()).inserted(texts.last())
    }
}

/// Inserting notes one after another appends them in order and gives them
/// consecutive identifiers, starting from the next identifier: all distinct,
/// increasing in insertion order, and above every identifier held before.
pub proof fn law_inserts_get_increasing_ids(s: StoreModel, texts: Seq<Seq<char>>)
    requires
        s.wf(),
        s.next_id + texts.len() <= ID_LIMIT,
        s.total() + texts.len() <= usize::MAX,
    ensures
        inserted_all(s, texts).wf(),
        inserted_all(s, texts).skipped == s.skipped,
        inserted_all(s, texts).next_id == s.next_id + texts.len(),
        inserted_all(s, texts).rows.len() == s.rows.len() + texts.len(),
        inserted_all(s, texts).rows.subrange(0, s.rows.len() as int) == s.rows,
        forall|i: int|
            0 <= i < texts.len() ==> #[trigger] inserted_all(s, texts).rows[s.rows.len() + i].id
                == s.next_id + i,
        forall|i: int, j: int|
            0 <= j < s.rows.len() && 0 <= i < texts.len() ==> #[trigger] s.rows[j].id
                < #[trigger] inserted_all(s, texts).rows[s.rows.len() + i].id,
    decreases texts.len(),
{
    if texts.len() > 0 {
        let p = inserted_all(s, texts.drop_last());
        law_inserts_get_increasing_ids(s, texts.drop_last());
        lemma_insert_wf(p, texts.last());
        let t = inserted_all(s, texts);
        assert(t.rows.subrange(0, s.rows.len() as int) =~= s.rows) by {
            assert(p.rows.subrange(0, s.rows.len() as int) == s.rows);
            assert forall|i: int| 0 <= i < s.rows.len() implies t.rows[i] == p.rows[i] by {}
        }
        assert forall|i: int| 0 <= i < texts.len() implies #[trigger] t.rows[s.rows.len() + i].id
            == s.next_id + i by {
            if i < texts.len() - 1 {
                assert(t.rows[s.rows.len() + i] == p.rows[s.rows.len() + i]);
            }
        }
        assert forall|i: int, j: int|
            0 <= j < s.rows.len() && 0 <= i < texts.len() implies #[trigger] s.rows[j].id
            < #[trigger] t.rows[s.rows.len() + i].id by {
            assert(t.rows[j] == s.rows[j]);
            assert(t.rows[j].id < t.rows[s.rows.len() + i].id);
        }
    }
}

/// After a note is deleted, no later insert gives its identifier again.
pub proof fn law_deleted_id_not_reused(s: StoreModel, id: u32, text: Seq<char>)
    requires
        s.wf(),
        s.contains(id),
    ensures
        !s.deleted(id).contains(id),
        !s.deleted(id).inserted(text).contains(id),
{
    let p = s.position(id);
    let d = s.deleted(id);
    assert forall|k: int| 0 <= k < d.rows.len() implies #[trigger] d.rows[k].id != id by {
        if k < p {
            assert(s.rows[k].id < s.rows[p].id);
        } else {
            assert(d.rows[k] == s.rows[k + 1]);
            assert(s.rows[p].id < s.rows[k + 1].id);
        }
    }
    let t = d.inserted(text);
    assert forall|k: int| 0 <= k < t.rows.len() implies #[trigger] t.rows[k].id != id by {
        if k < d.rows.len() {
            assert(t.rows[k] == d.rows[k]);
        } else {
            assert(s.rows[p].id < s.next_id);
        }
    }
}

/// Deleting, marking or viewing an identifier that no note has reports it as not
/// found, with exit status 1, and leaves the store as it was.
pub proof fn law_absent_id_is_not_found(s: StoreModel, id: u32, input: Seq<char>)
    requires
        !s.contains(id),
    ensures
        after_command(s, Command::Delete(id), input) == s,
        after_command(s, Command::Mark(id), input) == s,
        after_command(s, Command::View(id), input) == s,
        report_of(s, Command::Delete(id), input) == ReportModel::NotFound(id),
        report_of(s, Command::Mark(id), input) == ReportModel::NotFound(id),
        report_of(s, Command::View(id), input) == ReportModel::NotFound(id),
        exit_status(report_of(s, Command::Delete(id), input)) == 1,
        exit_status(report_of(s, Command::Mark(id), input)) == 1,
        exit_status(report_of(s, Command::View(id), input)) == 1,
{
}

} // verus!
