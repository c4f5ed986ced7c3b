use vstd::prelude::*;
use vstd::string::StrSliceExecFns;
use vstd::string::StringExecFns;
use crate::note::{Note, NoteModel};

verus! {

/// Texts of at least this many characters are shortened for display.
pub const DISPLAY_WIDTH: usize = 50;

/// The character of a decimal digit.
pub open spec fn digit_char(d: nat) -> char {
    if d == 0 { '0' } else if d == 1 { '1' } else if d == 2 { '2' } else if d == 3 { '3' }
    else if d == 4 { '4' } else if d == 5 { '5' } else if d == 6 { '6' } else if d == 7 { '7' }
    else if d == 8 { '8' } else { '9' }
}

/// The decimal writing of a natural number, without leading zeros.
pub open spec fn decimal(n: nat) -> Seq<char>
    decreases n,
{
    if n < 10 {
        seq![digit_char(n)]
    } else {
        decimal(n / 10).push(digit_char(n % 10))
    }
}

/// The text as it is shown: cut to three less than the width, with an ellipsis, once
/// it reaches the width.
pub open spec fn shown_text(t: Seq<char>) -> Seq<char> {
    if t.len() >= DISPLAY_WIDTH {
        t.subrange(0, DISPLAY_WIDTH - 3) + "..."@
    } else {
        t
    }
}

/// The line of the listing for one note; a completed note is struck through.
pub open spec fn line_of(n: NoteModel) -> Seq<char> {
    let body = decimal(n.id as nat) + " "@ + shown_text(n.text);
    if n.is_done() {
        "\x1b[9m"@ + body + "\x1b[0m "@
    } else {
        body
    }
}

/// The lines printed before the listing: a hint when the store is empty, else none.
pub open spec fn summary_of(count: nat) -> Seq<Seq<char>> {
    if count == 0 {
        seq!["No notes where found."@, "Try with the -h option for more information."@]
    } else {
        seq![]
    }
}

/// The whole listing of the given notes, out of `total` stored notes: the summary
/// goes by the total, the lines by the notes that could be read.
pub open spec fn listing_of(total: nat, rows: Seq<NoteModel>) -> Seq<Seq<char>> {
    summary_of(total) + rows.map_values(|n: NoteModel| line_of(n))
}

fn digit_str(d: u32) -> (r: &'static str)
    requires
        d < 10,
    ensures
        r@ == seq![digit_char(d as nat)],
{
    proof {
        reveal_strlit("0");
        reveal_strlit("1");
        reveal_strlit("2");
        reveal_strlit("3");
        reveal_strlit("4");
        reveal_strlit("5");
        reveal_strlit("6");
        reveal_strlit("7");
        reveal_strlit("8");
        reveal_strlit("9");
    }
    if d == 0 { "0" } else if d == 1 { "1" } else if d == 2 { "2" } else if d == 3 { "3" }
    else if d == 4 { "4" } else if d == 5 { "5" } else if d == 6 { "6" } else if d == 7 { "7" }
    else if d == 8 { "8" } else { "9" }
}

/// The decimal writing of `n`.
pub fn decimal_string(n: u32) -> (r: String)
    ensures
        r@ == decimal(n as nat),
    decreases n,
{
    if n < 10 {
        String::from_str(digit_str(n))
    } else {
        let mut s = decimal_string(n / 10);
        s.append(digit_str(n % 10));
        s
    }
}

/// The text of a note as the listing shows it.
pub fn shorten(text: &str) -> (r: String)
    ensures
        r@ == shown_text(text@),
{
    let len = text.unicode_len();
    if len >= DISPLAY_WIDTH {
        let mut s = String::from_str(text.substring_char(0, DISPLAY_WIDTH - 3));
        s.append("...");
        s
    } else {
        String::from_str(text)
    }
}

/// Renders one note as a line of the listing.
pub fn render_line(note: &Note) -> (r: String)
    ensures
        r@ == line_of(note@),
{
    let mut body = decimal_string(note.id);
    body.append(" ");
    let t = shorten(note.text.as_str());
    body.append(t.as_str());
    if note.is_done() {
        let mut s = String::from_str("\x1b[9m");
        s.append(body.as_str());
        s.append("\x1b[0m ");
        s
    } else {
        body
    }
}

/// The lines shown before a listing of `count` notes.
pub fn render_summary(count: usize) -> (r: Vec<String>)
    ensures
        r@.map_values(|s: String| s@) == summary_of(count as nat),
{
    let mut r: Vec<String> = Vec::new();
    if count == 0 {
        r.push(String::from_str("No notes where found."));
        r.push(String::from_str("Try with the -h option for more information."));
    }
    assert(r@.map_values(|s: String| s@) =~= summary_of(count as nat));
    r
}

/// The listing of the given notes out of `total` stored notes, the summary first.
pub fn render_listing(notes: &Vec<Note>, total: usize) -> (r: Vec<String>)
    ensures
        r@.map_values(|s: String| s@) == listing_of(total as nat, notes@.map_values(|n: Note| n@)),
{
    let mut r = render_summary(total);
    let ghost head = r@.map_values(|s: String| s@);
    let mut i: usize = 0;
    while i < notes.len()
        invariant
            i <= notes@.len(),
            head == summary_of(total as nat),
            r@.map_values(|s: String| s@) == head + notes@.subrange(0, i as int).map_values(
                |n: Note| line_of(n@),
            ),
        decreases notes@.len() - i,
    {
        let line = render_line(&notes[i]);
        let ghost prev = r@;
        r.push(line);
        assert(r@ =~= prev.push(line));
        assert(r@.map_values(|s: String| s@) =~= prev.map_values(|s: String| s@).push(line@));
        assert(notes@.subrange(0, i + 1) =~= notes@.subrange(0, i as int).push(notes@[i as int]));
        assert(notes@.subrange(0, i + 1).map_values(|n: Note| line_of(n@)) =~= notes@.subrange(
            0,
            i as int,
        ).map_values(|n: Note| line_of(n@)).push(line_of(notes@[i as int]@)));
        assert(r@.map_values(|s: String| s@) =~= head + notes@.subrange(0, i + 1).map_values(
            |n: Note| line_of(n@),
        ));
        i = i + 1;
    }
    assert(notes@.subrange(0, notes@.len() as int) =~= notes@);
    assert(notes@.map_values(|n: Note| line_of(n@)) =~= notes@.map_values(|n: Note| n@).map_values(
        |n: NoteModel| line_of(n),
    ));
    r
}

/// A decimal writing is not empty and starts with a digit.
pub proof fn lemma_decimal_starts_with_digit(n: nat)
    ensures
        decimal(n).len() >= 1,
        '0' <= decimal(n)[0] <= '9',
    decreases n,
{
    if n >= 10 {
        lemma_decimal_starts_with_digit(n / 10);
    }
}

/// A text of at least the display width is shown with exactly that many characters,
/// ending in an ellipsis; a shorter text is shown as it is.
pub proof fn law_shown_width(t: Seq<char>)
    ensures
        t.len() >= DISPLAY_WIDTH ==> shown_text(t).len() == DISPLAY_WIDTH && shown_text(t).subrange(
            DISPLAY_WIDTH - 3,
            DISPLAY_WIDTH as int,
        ) == "..."@,
        t.len() < DISPLAY_WIDTH ==> shown_text(t) == t,
{
    reveal_strlit("...");
    if t.len() >= DISPLAY_WIDTH {
        assert(shown_text(t).subrange(DISPLAY_WIDTH - 3, DISPLAY_WIDTH as int) =~= "..."@);
    }
}

/// Whether a line starts with the strikethrough sequence.
pub open spec fn struck(line: Seq<char>) -> bool {
    line.len() >= 4 && line.subrange(0, 4) == "\x1b[9m"@
}

/// A line is struck through (it starts with the strikethrough sequence) if and only
/// if its note is completed.
pub proof fn law_strikethrough_iff_done(n: NoteModel)
    ensures
        struck(line_of(n)) <==> n.is_done(),
{
    reveal_strlit("\x1b[9m");
    reveal_strlit(" ");
    lemma_decimal_starts_with_digit(n.id as nat);
    let body = decimal(n.id as nat) + " "@ + shown_text(n.text);
    if n.is_done() {
        assert(line_of(n).subrange(0, 4) =~= "\x1b[9m"@);
    } else {
        assert(line_of(n) == body);
        assert(body[0] == decimal(n.id as nat)[0]);
        if body.len() >= 4 {
            assert(body.subrange(0, 4)[0] != "\x1b[9m"@[0]);
        }
    }
}

} // verus!
